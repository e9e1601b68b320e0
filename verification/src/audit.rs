//! The field values of structured audit records: event names, phases, grant
//! sources, policy decisions and resources. Emitting the records is logging
//! and happens outside this crate.
use vstd::prelude::*;

use crate::capability::Capabilities;
use crate::contract::{
    AuditResource, GrantDecision, GrantSource, PolicyDecision, PolicyId, ResourceView,
};

verus! {

pub const AUDIT_TARGET: &'static str = "mvp::audit";

pub const SPAN_TOOL_INVOKE: &'static str = "tool.invoke";

pub const SPAN_TOOL_PARSE_INPUT: &'static str = "tool.parse_input";

pub const SPAN_TOOL_EXECUTION: &'static str = "tool.execution";

pub const SPAN_ACTION_GRANT: &'static str = "action.grant";

pub const SPAN_ACTION_EXECUTE: &'static str = "action.execute";

pub const EVENT_TOOL_CAPABILITIES_OVERRIDE: &'static str = "tool.capabilities_override";

pub const EVENT_TOOL_NESTED_SCOPE: &'static str = "tool.nested_scope";

pub const EVENT_POLICY_EVALUATE: &'static str = "policy.evaluate";

pub const EVENT_EXECUTE_START: &'static str = "execute.start";

pub const EVENT_EXECUTE_FINISH: &'static str = "execute.finish";

pub const EVENT_EXECUTE_ERROR: &'static str = "execute.error";

pub const PHASE_TOOL: &'static str = "tool";

pub const PHASE_POLICY: &'static str = "policy";

pub const PHASE_GRANT: &'static str = "grant";

pub const PHASE_EXECUTE: &'static str = "execute";

/// The event name of a final grant record.
pub fn grant_event(decision: &GrantDecision) -> (r: &'static str)
    ensures
        r == (match decision {
            GrantDecision::Allow(_) => "grant.allow",
            GrantDecision::Deny => "grant.deny",
        }),
{
    match decision {
        GrantDecision::Allow(_) => "grant.allow",
        GrantDecision::Deny => "grant.deny",
    }
}

/// The grant id field of a record: present only for an allow.
pub fn grant_id_field(decision: &GrantDecision) -> (r: Option<u64>)
    ensures
        r == (match decision {
            GrantDecision::Allow(id) => Some(id@),
            GrantDecision::Deny => None::<u64>,
        }),
{
    match decision {
        GrantDecision::Allow(id) => Some(id.get()),
        GrantDecision::Deny => None,
    }
}

/// The policy name, policy id and source label of a grant record.
pub fn grant_source_fields(source: &GrantSource) -> (r: (
    Option<&'static str>,
    Option<PolicyId>,
    &'static str,
))
    ensures
        r == (match source {
            GrantSource::Policy { policy_name, policy_id } => (
                Some(*policy_name),
                Some(*policy_id),
                "policy",
            ),
            GrantSource::NoMatchingPolicy => (None, None, "no_matching_policy"),
        }),
{
    match source {
        GrantSource::Policy { policy_name, policy_id } => (
            Some(*policy_name),
            Some(*policy_id),
            "policy",
        ),
        GrantSource::NoMatchingPolicy => (None, None, "no_matching_policy"),
    }
}

/// The label of one policy's decision.
pub fn policy_decision_label(decision: &PolicyDecision) -> (r: &'static str)
    ensures
        r == (match decision {
            PolicyDecision::Allow => "allow",
            PolicyDecision::Deny => "deny",
            PolicyDecision::Abstain => "abstain",
        }),
{
    match decision {
        PolicyDecision::Allow => "allow",
        PolicyDecision::Deny => "deny",
        PolicyDecision::Abstain => "abstain",
    }
}

/// The kind and the text of a resource, as audit records carry them.
pub fn serialize_resource(resource: &AuditResource) -> (r: (&'static str, String))
    ensures
        match resource@ {
            ResourceView::Path(p) => r.0 == "path" && r.1@ == p,
            ResourceView::Value(v) => r.0 == "value" && r.1@ == v,
            ResourceView::Absent => r.0 == "none" && r.1@ == Seq::<char>::empty(),
        },
{
    match resource {
        AuditResource::Path(path) => ("path", path.clone()),
        AuditResource::Value(value) => ("value", value.clone()),
        AuditResource::Absent => ("none", String::new()),
    }
}

/// An invocation's effective capabilities exceed what the tool declared; such
/// an override is recorded.
pub fn exceeds_declared(declared: Capabilities, effective: Capabilities) -> (r: bool)
    ensures
        r == !declared.spec_contains(effective),
{
    !declared.contains(effective)
}

} // verus!
