//! Grants: the step from a pipeline report to an unforgeable `Granted`
//! action or an authorization error, and the allocator of grant ids.
use vstd::prelude::*;

use crate::action::{Action, ActionView};
use crate::contract::{
    clone_opt_string, GrantDecision, GrantId, GrantRecord, GrantSource, OutcomeView,
    PolicyOutcome, PolicyReport, RecordView,
};
use crate::error::{AuthorizationDeny, AuthorizationError, DenyView};
use crate::pipeline::PolicyPipeline;
use crate::policy::KernelPolicyContext;
use crate::text::owned;

verus! {

/// Hands out grant ids in increasing order, starting at 1 and wrapping
/// around after `u64::MAX`.
#[derive(Debug)]
pub struct GrantIdAllocator {
    next: u64,
}

/// The raw id after `n`.
pub open spec fn next_raw(n: u64) -> u64 {
    if n == u64::MAX {
        0
    } else {
        (n + 1) as u64
    }
}

impl GrantIdAllocator {
    /// The raw value of the id the allocator issues next.
    pub closed spec fn peek(&self) -> u64 {
        self.next
    }

    pub fn new() -> (r: Self)
        ensures
            r.peek() == 1,
    {
        GrantIdAllocator { next: 1 }
    }

    /// Issues the next grant id.
    pub fn issue(&mut self) -> (r: GrantId)
        ensures
            r@ == old(self).peek(),
            final(self).peek() == next_raw(old(self).peek()),
    {
        let id = GrantId::from_raw(self.next);
        self.next = if self.next == u64::MAX {
            0
        } else {
            self.next + 1
        };
        id
    }
}

/// The raw id after `k` issues starting from `n`.
pub open spec fn advance(n: u64, k: nat) -> u64
    decreases k,
{
    if k == 0 {
        n
    } else {
        next_raw(advance(n, (k - 1) as nat))
    }
}

/// A fresh allocator issues 1, 2, 3, ... in order: the `k`-th id it issues
/// is `k + 1`, so the ids of distinct issues differ until the counter wraps.
pub proof fn law_fresh_allocator_ids(i: nat, j: nat)
    requires
        i < j < u64::MAX,
    ensures
        advance(1, i) == i + 1,
        advance(1, i) != advance(1, j),
{
    lemma_advance(1, i);
    lemma_advance(1, j);
}

proof fn lemma_advance(n: u64, k: nat)
    requires
        n + k <= u64::MAX,
    ensures
        advance(n, k) == n + k,
    decreases k,
{
    if k > 0 {
        lemma_advance(n, (k - 1) as nat);
    }
}

/// Whatever id an allocator holds, its next issues are consecutive: the
/// `i`-th later issue gives `n + i`, so any two of them differ as long as the
/// counter does not pass `u64::MAX`. Denied grants issue nothing, so the ids
/// of successful grants from one allocator are distinct.
pub proof fn law_allocator_ids_distinct(n: u64, i: nat, j: nat)
    requires
        i < j,
        n + j <= u64::MAX,
    ensures
        advance(n, i) == n + i,
        advance(n, j) == n + j,
        advance(n, i) != advance(n, j),
{
    lemma_advance(n, i);
    lemma_advance(n, j);
}

/// An action together with the allow record that authorizes it. It can only
/// be made by granting the action.
#[derive(Debug)]
pub struct Granted<A> {
    record: GrantRecord,
    action: A,
}

impl<A> Granted<A> {
    #[verifier::type_invariant]
    spec fn backed_by_allow(self) -> bool {
        self.record@.decision is Allow
    }

    /// The record that authorizes the action.
    pub closed spec fn spec_record(&self) -> RecordView {
        self.record@
    }

    /// The granted action.
    pub closed spec fn spec_action(&self) -> A {
        self.action
    }

    fn new(record: GrantRecord, action: A) -> (r: Self)
        requires
            record@.decision is Allow,
        ensures
            r.spec_record() == record@,
            r.spec_action() == action,
    {
        Granted { record, action }
    }

    /// The id of the grant; a `Granted` value is always backed by an allow
    /// record.
    pub fn grant_id(&self) -> (r: GrantId)
        ensures
            self.spec_record().decision == GrantDecision::Allow(r),
    {
        proof {
            use_type_invariant(self);
        }
        match self.record.grant_id() {
            Some(id) => id,
            None => {
                proof {
                    assert(false);
                }
                GrantId::from_raw(0)
            },
        }
    }

    pub fn record(&self) -> (r: &GrantRecord)
        ensures
            r@ == self.spec_record(),
    {
        &self.record
    }

    pub fn action(&self) -> (r: &A)
        ensures
            *r == self.spec_action(),
    {
        &self.action
    }

    pub fn into_action(self) -> (r: A)
        ensures
            r == self.spec_action(),
    {
        self.action
    }
}

/// The reason recorded for a denial: the deciding policy's own, or the default
/// for where the denial came from.
pub open spec fn denial_reason(source: GrantSource, reason: Option<Seq<char>>) -> Seq<char> {
    match reason {
        Some(r) => r,
        None => match source {
            GrantSource::Policy { .. } => "policy denied action"@,
            GrantSource::NoMatchingPolicy => "No matching policy."@,
        },
    }
}

/// The allow record the grant step writes for an action with view `view`.
pub open spec fn allow_record_of(outcome: OutcomeView, id: GrantId, view: ActionView) -> RecordView {
    RecordView {
        decision: GrantDecision::Allow(id),
        action_kind: view.audit_kind(),
        resource: view.audit_resource(),
        source: GrantSource::Policy {
            policy_name: outcome->Allow_policy_name,
            policy_id: outcome->Allow_policy_id,
        },
        reason: outcome->Allow_reason,
    }
}

/// The allow record the grant step writes.
pub open spec fn allow_record<A: Action>(
    outcome: OutcomeView,
    id: GrantId,
    action: A,
) -> RecordView {
    allow_record_of(outcome, id, action.spec_view())
}

/// The denial the grant step returns for an action with view `view`.
pub open spec fn denial_of(outcome: OutcomeView, view: ActionView) -> DenyView {
    let reason = denial_reason(outcome->Deny_source, outcome->Deny_reason);
    DenyView {
        reason,
        record: Some(
            RecordView {
                decision: GrantDecision::Deny,
                action_kind: view.audit_kind(),
                resource: view.audit_resource(),
                source: outcome->Deny_source,
                reason: Some(reason),
            },
        ),
    }
}

/// The denial the grant step returns.
pub open spec fn denial<A: Action>(outcome: OutcomeView, action: A) -> DenyView {
    denial_of(outcome, action.spec_view())
}

/// The grant step's result for an outcome: an allow yields the action with
/// its allow record under the id the allocator held before (`before`), and the
/// allocator moves on (`after`); a denial yields the error that carries the
/// deny record, and the allocator stays.
pub open spec fn grant_result<A: Action>(
    outcome: OutcomeView,
    before: u64,
    after: u64,
    action: A,
    r: Result<Granted<A>, AuthorizationError>,
) -> bool {
    match outcome {
        OutcomeView::Allow { .. } => {
            &&& r matches Ok(g) && g.spec_action() == action && g.spec_record() == allow_record(
                outcome,
                GrantId::spec_from_raw(before),
                action,
            )
            &&& after == next_raw(before)
        },
        OutcomeView::Deny { .. } => {
            &&& r matches Err(AuthorizationError::Denied(d)) && d@ == denial(outcome, action)
            &&& after == before
        },
    }
}

/// Turns a pipeline outcome into a grant or a denial.
fn grant_from_outcome<A: Action>(
    ids: &mut GrantIdAllocator,
    outcome: &PolicyOutcome,
    action: A,
) -> (r: Result<Granted<A>, AuthorizationError>)
    ensures
        grant_result(outcome@, old(ids).peek(), final(ids).peek(), action, r),
{
    let action_kind = action.audit_kind();
    let resource = action.audit_resource();
    match outcome {
        PolicyOutcome::Allow { policy_name, policy_id, reason } => {
            let grant_id = ids.issue();
            proof {
                GrantId::lemma_spec_from_raw(old(ids).peek());
                GrantId::lemma_view_injective(grant_id, GrantId::spec_from_raw(old(ids).peek()));
            }
            let record = GrantRecord::allow(
                grant_id,
                action_kind,
                resource,
                *policy_name,
                *policy_id,
                clone_opt_string(reason),
            );
            Ok(Granted::new(record, action))
        },
        PolicyOutcome::Deny { source, reason } => {
            let reason = match reason {
                Some(r) => r.clone(),
                None => match source {
                    GrantSource::Policy { .. } => owned("policy denied action"),
                    GrantSource::NoMatchingPolicy => owned("No matching policy."),
                },
            };
            let record = match source {
                GrantSource::Policy { policy_name, policy_id } => GrantRecord::deny_from_policy(
                    action_kind,
                    resource,
                    *policy_name,
                    *policy_id,
                    Some(reason),
                ),
                GrantSource::NoMatchingPolicy => GrantRecord::deny_without_match(
                    action_kind,
                    resource,
                    Some(reason),
                ),
            };
            Err(AuthorizationError::Denied(AuthorizationDeny::from_record(record)))
        },
    }
}

/// Decides an action with the pipeline and turns the outcome into a grant:
/// an allow yields the action with an allow record under a fresh grant id; a
/// denial yields an authorization error that carries the deny record.
pub fn grant_with_engine<A: Action>(
    engine: &PolicyPipeline,
    ids: &mut GrantIdAllocator,
    ctx: &KernelPolicyContext,
    action: A,
) -> (r: Result<Granted<A>, AuthorizationError>)
    requires
        engine.wf(),
    ensures
        ({
            let outcome = engine.spec_decide(ctx@, action.spec_view()).outcome;
            match outcome {
                OutcomeView::Allow { .. } => {
                    &&& r matches Ok(g) && g.spec_action() == action && g.spec_record()
                        == allow_record(outcome, GrantId::spec_from_raw(old(ids).peek()), action)
                    &&& final(ids).peek() == next_raw(old(ids).peek())
                },
                OutcomeView::Deny { .. } => {
                    &&& r matches Err(AuthorizationError::Denied(d)) && d@ == denial(
                        outcome,
                        action,
                    )
                    &&& final(ids).peek() == old(ids).peek()
                },
            }
        }),
{
    let report = engine.decide(ctx, &action.policy_action());
    grant_from_outcome(ids, report.outcome(), action)
}

/// Like `grant_with_engine`, and also hands back the pipeline's report: every
/// evaluation made, for the audit of each policy's decision.
pub fn grant_with_report<A: Action>(
    engine: &PolicyPipeline,
    ids: &mut GrantIdAllocator,
    ctx: &KernelPolicyContext,
    action: A,
) -> (r: (PolicyReport, Result<Granted<A>, AuthorizationError>))
    requires
        engine.wf(),
    ensures
        r.0@ == engine.spec_decide(ctx@, action.spec_view()),
        grant_result(r.0@.outcome, old(ids).peek(), final(ids).peek(), action, r.1),
{
    let report = engine.decide(ctx, &action.policy_action());
    let result = grant_from_outcome(ids, report.outcome(), action);
    (report, result)
}

impl PolicyPipeline {
    /// Grants an action through this pipeline; see `grant_with_engine`.
    pub fn grant<A: Action>(
        &self,
        ids: &mut GrantIdAllocator,
        ctx: &KernelPolicyContext,
        action: A,
    ) -> (r: Result<Granted<A>, AuthorizationError>)
        requires
            self.wf(),
        ensures
            ({
                let outcome = self.spec_decide(ctx@, action.spec_view()).outcome;
                match outcome {
                    OutcomeView::Allow { .. } => {
                        &&& r matches Ok(g) && g.spec_action() == action && g.spec_record()
                            == allow_record(
                            outcome,
                            GrantId::spec_from_raw(old(ids).peek()),
                            action,
                        )
                        &&& final(ids).peek() == next_raw(old(ids).peek())
                    },
                    OutcomeView::Deny { .. } => {
                        &&& r matches Err(AuthorizationError::Denied(d)) && d@ == denial(
                            outcome,
                            action,
                        )
                        &&& final(ids).peek() == old(ids).peek()
                    },
                }
            }),
    {
        grant_with_engine(self, ids, ctx, action)
    }
}

} // verus!
