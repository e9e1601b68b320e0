//! Protocol data shared by policies, the pipeline and audit: grant ids,
//! per-policy grants, evaluations, reports and grant records.
use vstd::prelude::*;

use crate::capability::Capabilities;

verus! {

/// The view of an optional owned string.
pub open spec fn opt_view(o: Option<String>) -> Option<Seq<char>> {
    match o {
        Some(s) => Some(s@),
        None => None,
    }
}

/// The view of an optional borrowed string.
pub open spec fn opt_str_view(o: Option<&str>) -> Option<Seq<char>> {
    match o {
        Some(s) => Some(s@),
        None => None,
    }
}

/// Copies an optional string.
pub fn clone_opt_string(o: &Option<String>) -> (r: Option<String>)
    ensures
        opt_view(r) == opt_view(*o),
{
    match o {
        Some(s) => Some(s.clone()),
        None => None,
    }
}

fn opt_as_str(o: &Option<String>) -> (r: Option<&str>)
    ensures
        opt_str_view(r) == opt_view(*o),
{
    match o {
        Some(s) => Some(s.as_str()),
        None => None,
    }
}

/// Identifier of an issued grant.
#[derive(Clone, Copy, Debug, PartialEq, Eq, Structural)]
pub struct GrantId(u64);

impl View for GrantId {
    type V = u64;

    closed spec fn view(&self) -> u64 {
        self.0
    }
}

impl GrantId {
    pub closed spec fn spec_from_raw(value: u64) -> GrantId {
        GrantId(value)
    }

    pub fn from_raw(value: u64) -> (r: Self)
        ensures
            r@ == value,
            r == GrantId::spec_from_raw(value),
    {
        GrantId(value)
    }

    pub fn get(self) -> (r: u64)
        ensures
            r == self@,
    {
        self.0
    }

    /// Two grant ids are equal exactly when their raw values are.
    pub broadcast proof fn lemma_view_injective(a: GrantId, b: GrantId)
        ensures
            #![trigger a@, b@]
            a@ == b@ <==> a == b,
    {
    }

    pub broadcast proof fn lemma_spec_from_raw(value: u64)
        ensures
            (#[trigger] GrantId::spec_from_raw(value))@ == value,
    {
    }
}

/// Identifier of a registered policy.
pub type PolicyId = u64;

/// The decision a single policy rule returns.
#[derive(Clone, Copy, Debug, PartialEq, Eq, Structural)]
pub enum PolicyDecision {
    Allow,
    Deny,
    Abstain,
}

/// What a grant says, with its strings as character sequences.
pub struct GrantView {
    pub decision: PolicyDecision,
    pub reason: Option<Seq<char>>,
    pub predicate: Option<Seq<char>>,
}

/// A policy's answer about one action: a decision plus the policy's own
/// explanation of it.
#[derive(Debug)]
pub struct PolicyGrant {
    decision: PolicyDecision,
    reason: Option<String>,
    predicate: Option<String>,
}

impl View for PolicyGrant {
    type V = GrantView;

    closed spec fn view(&self) -> GrantView {
        GrantView {
            decision: self.decision,
            reason: opt_view(self.reason),
            predicate: opt_view(self.predicate),
        }
    }
}

impl Clone for PolicyGrant {
    fn clone(&self) -> (r: Self)
        ensures
            r@ == self@,
    {
        PolicyGrant {
            decision: self.decision,
            reason: clone_opt_string(&self.reason),
            predicate: clone_opt_string(&self.predicate),
        }
    }
}

impl PolicyGrant {
    pub fn allow(reason: Option<String>) -> (r: Self)
        ensures
            r@ == (GrantView { decision: PolicyDecision::Allow, reason: opt_view(reason), predicate: None }),
    {
        PolicyGrant { decision: PolicyDecision::Allow, reason, predicate: None }
    }

    pub fn deny(reason: Option<String>) -> (r: Self)
        ensures
            r@ == (GrantView { decision: PolicyDecision::Deny, reason: opt_view(reason), predicate: None }),
    {
        PolicyGrant { decision: PolicyDecision::Deny, reason, predicate: None }
    }

    pub fn abstain(reason: Option<String>) -> (r: Self)
        ensures
            r@ == (GrantView {
                decision: PolicyDecision::Abstain,
                reason: opt_view(reason),
                predicate: None,
            }),
    {
        PolicyGrant { decision: PolicyDecision::Abstain, reason, predicate: None }
    }

    pub fn decision(&self) -> (r: &PolicyDecision)
        ensures
            *r == self@.decision,
    {
        &self.decision
    }

    /// Attaches the predicate the policy evaluated; the decision and reason stay.
    pub fn with_predicate(self, predicate: String) -> (r: Self)
        ensures
            r@ == (GrantView { predicate: Some(predicate@), ..self@ }),
    {
        PolicyGrant { decision: self.decision, reason: self.reason, predicate: Some(predicate) }
    }

    pub fn into_decision_and_reason(self) -> (r: (PolicyDecision, Option<String>))
        ensures
            r.0 == self@.decision,
            opt_view(r.1) == self@.reason,
    {
        (self.decision, self.reason)
    }

    pub fn reason(&self) -> (r: Option<&str>)
        ensures
            opt_str_view(r) == self@.reason,
    {
        opt_as_str(&self.reason)
    }

    pub fn predicate(&self) -> (r: Option<&str>)
        ensures
            opt_str_view(r) == self@.predicate,
    {
        opt_as_str(&self.predicate)
    }
}

/// The final decision recorded for an action.
#[derive(Clone, Copy, Debug, PartialEq, Eq, Structural)]
pub enum GrantDecision {
    Allow(GrantId),
    Deny,
}

/// Why authorization reached its final record.
#[derive(Clone, Copy, Debug)]
pub enum GrantSource {
    Policy { policy_name: &'static str, policy_id: PolicyId },
    NoMatchingPolicy,
}

/// What an evaluation records, with the grant by its view.
pub struct EvalView {
    pub policy_name: &'static str,
    pub policy_id: PolicyId,
    pub policy_stage: &'static str,
    pub grant: GrantView,
}

/// One policy's evaluation of an action, in the stage it ran in.
#[derive(Debug)]
pub struct PolicyEvaluation {
    policy_name: &'static str,
    policy_id: PolicyId,
    policy_stage: &'static str,
    grant: PolicyGrant,
}

impl View for PolicyEvaluation {
    type V = EvalView;

    closed spec fn view(&self) -> EvalView {
        EvalView {
            policy_name: self.policy_name,
            policy_id: self.policy_id,
            policy_stage: self.policy_stage,
            grant: self.grant@,
        }
    }
}

impl Clone for PolicyEvaluation {
    fn clone(&self) -> (r: Self)
        ensures
            r@ == self@,
    {
        PolicyEvaluation {
            policy_name: self.policy_name,
            policy_id: self.policy_id,
            policy_stage: self.policy_stage,
            grant: self.grant.clone(),
        }
    }
}

impl PolicyEvaluation {
    pub fn new(
        policy_name: &'static str,
        policy_id: PolicyId,
        policy_stage: &'static str,
        grant: PolicyGrant,
    ) -> (r: Self)
        ensures
            r@ == (EvalView { policy_name, policy_id, policy_stage, grant: grant@ }),
    {
        PolicyEvaluation { policy_name, policy_id, policy_stage, grant }
    }

    pub fn policy_name(&self) -> (r: &'static str)
        ensures
            r == self@.policy_name,
    {
        self.policy_name
    }

    pub fn policy_id(&self) -> (r: PolicyId)
        ensures
            r == self@.policy_id,
    {
        self.policy_id
    }

    pub fn policy_stage(&self) -> (r: &'static str)
        ensures
            r == self@.policy_stage,
    {
        self.policy_stage
    }

    pub fn grant(&self) -> (r: &PolicyGrant)
        ensures
            r@ == self@.grant,
    {
        &self.grant
    }
}

/// The view of a report's outcome.
pub enum OutcomeView {
    Allow { policy_name: &'static str, policy_id: PolicyId, reason: Option<Seq<char>> },
    Deny { source: GrantSource, reason: Option<Seq<char>> },
}

/// The pipeline's final outcome for an action.
#[derive(Debug)]
pub enum PolicyOutcome {
    Allow { policy_name: &'static str, policy_id: PolicyId, reason: Option<String> },
    Deny { source: GrantSource, reason: Option<String> },
}

impl View for PolicyOutcome {
    type V = OutcomeView;

    open spec fn view(&self) -> OutcomeView {
        match self {
            PolicyOutcome::Allow { policy_name, policy_id, reason } => OutcomeView::Allow {
                policy_name: *policy_name,
                policy_id: *policy_id,
                reason: opt_view(*reason),
            },
            PolicyOutcome::Deny { source, reason } => OutcomeView::Deny {
                source: *source,
                reason: opt_view(*reason),
            },
        }
    }
}

/// The view of a report: every evaluation in order, and the outcome.
pub struct ReportView {
    pub evaluations: Seq<EvalView>,
    pub outcome: OutcomeView,
}

/// The views of a sequence of evaluations.
pub open spec fn eval_views(s: Seq<PolicyEvaluation>) -> Seq<EvalView> {
    s.map_values(|e: PolicyEvaluation| e@)
}

/// Everything the pipeline decided about one action.
#[derive(Debug)]
pub struct PolicyReport {
    evaluations: Vec<PolicyEvaluation>,
    outcome: PolicyOutcome,
}

impl View for PolicyReport {
    type V = ReportView;

    closed spec fn view(&self) -> ReportView {
        ReportView { evaluations: eval_views(self.evaluations@), outcome: self.outcome@ }
    }
}

impl PolicyReport {
    pub fn allow(
        evaluations: Vec<PolicyEvaluation>,
        policy_name: &'static str,
        policy_id: PolicyId,
        reason: Option<String>,
    ) -> (r: Self)
        ensures
            r@ == (ReportView {
                evaluations: eval_views(evaluations@),
                outcome: OutcomeView::Allow { policy_name, policy_id, reason: opt_view(reason) },
            }),
    {
        PolicyReport {
            evaluations,
            outcome: PolicyOutcome::Allow { policy_name, policy_id, reason },
        }
    }

    pub fn deny_from_policy(
        evaluations: Vec<PolicyEvaluation>,
        policy_name: &'static str,
        policy_id: PolicyId,
        reason: Option<String>,
    ) -> (r: Self)
        ensures
            r@ == (ReportView {
                evaluations: eval_views(evaluations@),
                outcome: OutcomeView::Deny {
                    source: GrantSource::Policy { policy_name, policy_id },
                    reason: opt_view(reason),
                },
            }),
    {
        PolicyReport {
            evaluations,
            outcome: PolicyOutcome::Deny {
                source: GrantSource::Policy { policy_name, policy_id },
                reason,
            },
        }
    }

    pub fn deny_without_match(evaluations: Vec<PolicyEvaluation>, reason: Option<String>) -> (r:
        Self)
        ensures
            r@ == (ReportView {
                evaluations: eval_views(evaluations@),
                outcome: OutcomeView::Deny {
                    source: GrantSource::NoMatchingPolicy,
                    reason: opt_view(reason),
                },
            }),
    {
        PolicyReport {
            evaluations,
            outcome: PolicyOutcome::Deny { source: GrantSource::NoMatchingPolicy, reason },
        }
    }

    pub fn evaluations(&self) -> (r: &[PolicyEvaluation])
        ensures
            eval_views(r@) == self@.evaluations,
    {
        self.evaluations.as_slice()
    }

    pub fn outcome(&self) -> (r: &PolicyOutcome)
        ensures
            r@ == self@.outcome,
    {
        &self.outcome
    }

    pub fn into_outcome(self) -> (r: PolicyOutcome)
        ensures
            r@ == self@.outcome,
    {
        self.outcome
    }
}

/// The view of an audit resource.
pub enum ResourceView {
    Path(Seq<char>),
    Value(Seq<char>),
    Absent,
}

/// The resource an action touches, as recorded by audit.
#[derive(Debug)]
pub enum AuditResource {
    Path(String),
    Value(String),
    /// The action touches no recorded resource.
    Absent,
}

impl View for AuditResource {
    type V = ResourceView;

    open spec fn view(&self) -> ResourceView {
        match self {
            AuditResource::Path(p) => ResourceView::Path(p@),
            AuditResource::Value(v) => ResourceView::Value(v@),
            AuditResource::Absent => ResourceView::Absent,
        }
    }
}

impl Clone for AuditResource {
    fn clone(&self) -> (r: Self)
        ensures
            r@ == self@,
    {
        match self {
            AuditResource::Path(p) => AuditResource::Path(p.clone()),
            AuditResource::Value(v) => AuditResource::Value(v.clone()),
            AuditResource::Absent => AuditResource::Absent,
        }
    }
}

/// The view of a grant record.
pub struct RecordView {
    pub decision: GrantDecision,
    pub action_kind: &'static str,
    pub resource: ResourceView,
    pub source: GrantSource,
    pub reason: Option<Seq<char>>,
}

/// The final, auditable record of an authorization.
#[derive(Debug)]
pub struct GrantRecord {
    decision: GrantDecision,
    action_kind: &'static str,
    resource: AuditResource,
    source: GrantSource,
    reason: Option<String>,
}

impl View for GrantRecord {
    type V = RecordView;

    closed spec fn view(&self) -> RecordView {
        RecordView {
            decision: self.decision,
            action_kind: self.action_kind,
            resource: self.resource@,
            source: self.source,
            reason: opt_view(self.reason),
        }
    }
}

impl Clone for GrantRecord {
    fn clone(&self) -> (r: Self)
        ensures
            r@ == self@,
    {
        GrantRecord {
            decision: self.decision,
            action_kind: self.action_kind,
            resource: self.resource.clone(),
            source: self.source,
            reason: clone_opt_string(&self.reason),
        }
    }
}

impl GrantRecord {
    pub fn allow(
        grant_id: GrantId,
        action_kind: &'static str,
        resource: AuditResource,
        policy_name: &'static str,
        policy_id: PolicyId,
        reason: Option<String>,
    ) -> (r: Self)
        ensures
            r@ == (RecordView {
                decision: GrantDecision::Allow(grant_id),
                action_kind,
                resource: resource@,
                source: GrantSource::Policy { policy_name, policy_id },
                reason: opt_view(reason),
            }),
    {
        GrantRecord {
            decision: GrantDecision::Allow(grant_id),
            action_kind,
            resource,
            source: GrantSource::Policy { policy_name, policy_id },
            reason,
        }
    }

    pub fn deny_from_policy(
        action_kind: &'static str,
        resource: AuditResource,
        policy_name: &'static str,
        policy_id: PolicyId,
        reason: Option<String>,
    ) -> (r: Self)
        ensures
            r@ == (RecordView {
                decision: GrantDecision::Deny,
                action_kind,
                resource: resource@,
                source: GrantSource::Policy { policy_name, policy_id },
                reason: opt_view(reason),
            }),
    {
        GrantRecord {
            decision: GrantDecision::Deny,
            action_kind,
            resource,
            source: GrantSource::Policy { policy_name, policy_id },
            reason,
        }
    }

    pub fn deny_without_match(
        action_kind: &'static str,
        resource: AuditResource,
        reason: Option<String>,
    ) -> (r: Self)
        ensures
            r@ == (RecordView {
                decision: GrantDecision::Deny,
                action_kind,
                resource: resource@,
                source: GrantSource::NoMatchingPolicy,
                reason: opt_view(reason),
            }),
    {
        GrantRecord {
            decision: GrantDecision::Deny,
            action_kind,
            resource,
            source: GrantSource::NoMatchingPolicy,
            reason,
        }
    }

    pub fn decision(&self) -> (r: &GrantDecision)
        ensures
            *r == self@.decision,
    {
        &self.decision
    }

    /// The grant id of an allow record; `None` for a deny record.
    pub fn grant_id(&self) -> (r: Option<GrantId>)
        ensures
            r == (match self@.decision {
                GrantDecision::Allow(id) => Some(id),
                GrantDecision::Deny => None::<GrantId>,
            }),
    {
        match self.decision {
            GrantDecision::Allow(grant_id) => Some(grant_id),
            GrantDecision::Deny => None,
        }
    }

    pub fn action_kind(&self) -> (r: &'static str)
        ensures
            r == self@.action_kind,
    {
        self.action_kind
    }

    pub fn resource(&self) -> (r: &AuditResource)
        ensures
            r@ == self@.resource,
    {
        &self.resource
    }

    pub fn source(&self) -> (r: &GrantSource)
        ensures
            *r == self@.source,
    {
        &self.source
    }

    pub fn reason(&self) -> (r: Option<&str>)
        ensures
            opt_str_view(r) == self@.reason,
    {
        opt_as_str(&self.reason)
    }
}

/// How sensitive a tool's output is.
#[derive(Clone, Copy, Debug, PartialEq, Eq, Structural)]
pub enum OutputClassification {
    Public,
    WorkspaceLocal,
    Sensitive,
}

/// Per-tool metadata.
///
/// `capabilities` is the tool's declared default capability set: the
/// effective envelope of a top-level invocation that supplies no override.
#[derive(Clone, Debug)]
pub struct ToolSpec {
    pub name: String,
    pub description: String,
    /// Declared default capability set for this tool.
    pub capabilities: Capabilities,
}

/// Per-call ambient parameters supplied by the caller.
#[derive(Clone, Debug)]
pub struct InvocationParams {
    pub workspace_root: String,
    pub capabilities_override: Option<Capabilities>,
}

impl InvocationParams {
    pub fn new(workspace_root: &str, capabilities_override: Option<Capabilities>) -> (r: Self)
        ensures
            r.workspace_root@ == workspace_root@,
            r.capabilities_override == capabilities_override,
    {
        InvocationParams { workspace_root: workspace_root.to_owned(), capabilities_override }
    }
}

} // verus!
