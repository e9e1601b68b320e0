use mvp_kernel::action::{FsReadAction, PolicyAction};
use mvp_kernel::capability::{Capabilities, Capability};
use mvp_kernel::contract::{GrantDecision, GrantSource, PolicyDecision, PolicyOutcome};
use mvp_kernel::error::{AuthorizationError, ExecutionError};
use mvp_kernel::grant::{grant_with_engine, grant_with_report, GrantIdAllocator};
use mvp_kernel::path::CanonicalPath;
use mvp_kernel::pipeline::PolicyPipeline;
use mvp_kernel::policy::{
    ActionPolicy, AllowAllPolicy, AllowExactFileReadPolicy, AllowWorkspaceReadPolicy,
    CapabilityEnvelopePolicy, GlobalPolicy, KernelPolicyContext, PolicyAnyWrapper,
};
use mvp_kernel::runtime::KernelRuntime;

fn path(p: &str) -> CanonicalPath {
    CanonicalPath::from_canonicalized(p.to_string())
}

fn ctx(caps: &[Capability]) -> KernelPolicyContext {
    KernelPolicyContext::new(Capabilities::from_slice(caps), path("/ws"))
}

fn read(p: &str) -> PolicyAction {
    PolicyAction::FsRead(FsReadAction::new(path(p)))
}

#[test]
fn empty_pipeline_denies_without_match() {
    let pipeline = PolicyPipeline::new();
    let report = pipeline.decide(&ctx(&[Capability::FsRead]), &read("/ws/a.txt"));
    assert!(report.evaluations().is_empty());
    match report.outcome() {
        PolicyOutcome::Deny { source: GrantSource::NoMatchingPolicy, reason } => {
            assert_eq!(reason.as_deref(), Some("No matching policy."));
        }
        other => panic!("unexpected outcome {other:?}"),
    }
}

#[test]
fn inbound_allow_does_not_decide_but_deny_vetoes() {
    let mut pipeline = PolicyPipeline::new();
    pipeline.append_inbound(GlobalPolicy::AllowAll(AllowAllPolicy));
    let report = pipeline.decide(&ctx(&[]), &read("/ws/a.txt"));
    assert_eq!(report.evaluations().len(), 1);
    assert!(matches!(report.outcome(), PolicyOutcome::Deny { source: GrantSource::NoMatchingPolicy, .. }));

    pipeline.append_inbound(GlobalPolicy::CapabilityEnvelope(CapabilityEnvelopePolicy));
    pipeline.append(ActionPolicy::WorkspaceRead(AllowWorkspaceReadPolicy));
    let report = pipeline.decide(&ctx(&[]), &read("/ws/a.txt"));
    assert_eq!(report.evaluations().len(), 2);
    match report.outcome() {
        PolicyOutcome::Deny { source: GrantSource::Policy { policy_name, policy_id }, reason } => {
            assert_eq!(*policy_name, "policy.capability_envelope");
            assert_eq!(*policy_id, 2);
            assert_eq!(reason.as_deref(), Some("action exceeds declared capability envelope"));
        }
        other => panic!("unexpected outcome {other:?}"),
    }
    let envelope = report.evaluations()[1].grant();
    assert_eq!(*envelope.decision(), PolicyDecision::Deny);
    assert_eq!(
        envelope.predicate(),
        Some("effective_capabilities contains action_capabilities: 0 contains 1")
    );
}

#[test]
fn first_decisive_action_policy_wins_and_outbound_follows() {
    let mut pipeline = PolicyPipeline::new();
    pipeline.prepend_inbound(GlobalPolicy::CapabilityEnvelope(CapabilityEnvelopePolicy));
    pipeline.append(ActionPolicy::ExactFileRead(AllowExactFileReadPolicy::new(path("/ws/b.txt"))));
    pipeline.append(ActionPolicy::WorkspaceRead(AllowWorkspaceReadPolicy));
    pipeline.append_outbound(GlobalPolicy::AllowAll(AllowAllPolicy));

    let report = pipeline.decide(&ctx(&[Capability::FsRead]), &read("/ws/a.txt"));
    let stages: Vec<&str> = report.evaluations().iter().map(|e| e.policy_stage()).collect();
    assert_eq!(stages, vec!["inbound", "action", "action"]);
    match report.outcome() {
        PolicyOutcome::Allow { policy_name, policy_id, reason } => {
            assert_eq!(*policy_name, "fs.allow_workspace_read");
            assert_eq!(*policy_id, 3);
            assert_eq!(reason.as_deref(), Some("read path is under workspace root"));
        }
        other => panic!("unexpected outcome {other:?}"),
    }

    let report = pipeline.decide(&ctx(&[Capability::FsRead]), &read("/elsewhere/a.txt"));
    let stages: Vec<&str> = report.evaluations().iter().map(|e| e.policy_stage()).collect();
    assert_eq!(stages, vec!["inbound", "action", "action", "outbound"]);
    match report.outcome() {
        PolicyOutcome::Allow { policy_name, .. } => assert_eq!(*policy_name, "policy.default_allow"),
        other => panic!("unexpected outcome {other:?}"),
    }
}

#[test]
fn scoped_global_policy_abstains_on_other_kinds() {
    let mut pipeline = PolicyPipeline::new();
    pipeline.append_outbound(GlobalPolicy::Scoped(PolicyAnyWrapper::new(
        ActionPolicy::WorkspaceRead(AllowWorkspaceReadPolicy),
    )));
    let fetch = PolicyAction::NetworkFetch(mvp_kernel::action::NetworkFetchAction::new(
        "https://example.test/".to_string(),
    ));
    let report = pipeline.decide(&ctx(&[Capability::NetworkFetch]), &fetch);
    let grant = report.evaluations()[0].grant();
    assert_eq!(*grant.decision(), PolicyDecision::Abstain);
    assert_eq!(grant.reason(), Some("policy does not apply to this action type"));
    assert_eq!(
        grant.predicate(),
        Some("action downcasts to policy action type: mvp_kernel::action::FsReadAction")
    );
}

#[test]
fn grant_issues_increasing_ids_and_denials_carry_records() {
    let mut pipeline = PolicyPipeline::new();
    pipeline.append(ActionPolicy::WorkspaceRead(AllowWorkspaceReadPolicy));
    let mut ids = GrantIdAllocator::new();
    let c = ctx(&[Capability::FsRead]);

    let first = grant_with_engine(&pipeline, &mut ids, &c, FsReadAction::new(path("/ws/a"))).unwrap();
    let second = grant_with_engine(&pipeline, &mut ids, &c, FsReadAction::new(path("/ws/b"))).unwrap();
    assert_eq!(first.grant_id().get(), 1);
    assert_eq!(second.grant_id().get(), 2);
    assert!(matches!(first.record().decision(), GrantDecision::Allow(_)));
    assert_eq!(first.record().action_kind(), "fs.read");
    assert_eq!(first.into_action().path().as_path(), "/ws/a");

    let denied = grant_with_engine(&pipeline, &mut ids, &c, FsReadAction::new(path("/tmp/x")));
    let Err(error) = denied else { panic!("expected a denial") };
    assert_eq!(error.denied_reason(), Some("No matching policy."));
    let record = error.deny_record().unwrap();
    assert!(matches!(record.source(), GrantSource::NoMatchingPolicy));
    assert!(matches!(record.decision(), GrantDecision::Deny));

    let third = grant_with_engine(&pipeline, &mut ids, &c, FsReadAction::new(path("/ws/c"))).unwrap();
    assert_eq!(third.grant_id().get(), 3);
}

#[test]
fn top_level_override_can_shrink_effective_capabilities() {
    let mut runtime = KernelRuntime::new();
    runtime.append(ActionPolicy::WorkspaceRead(AllowWorkspaceReadPolicy));
    let declared = Capabilities::from_slice(&[Capability::FsRead]);
    let effective = mvp_kernel::tool::effective_capabilities(declared, Some(Capabilities::empty()));
    let c = KernelPolicyContext::new(effective, path("/ws"));
    let err = runtime.authorize_read(&c, path("/ws/hello.txt")).unwrap_err();
    let ExecutionError::Authorization(error) = err else {
        panic!("expected authorization error");
    };
    assert_eq!(error.denied_reason(), Some("action exceeds declared capability envelope"));
    assert!(matches!(error, AuthorizationError::Denied(_)));
}

fn outcome_policy(outcome: &PolicyOutcome) -> (&'static str, bool) {
    match outcome {
        PolicyOutcome::Allow { policy_name, .. } => (*policy_name, true),
        PolicyOutcome::Deny { source: GrantSource::Policy { policy_name, .. }, .. } => {
            (*policy_name, false)
        }
        PolicyOutcome::Deny { source: GrantSource::NoMatchingPolicy, .. } => ("<none>", false),
    }
}

#[test]
fn registrations_receive_fresh_increasing_ids() {
    let mut pipeline = PolicyPipeline::new();
    assert_eq!(pipeline.next_policy_id(), 1);
    pipeline.append_inbound(GlobalPolicy::CapabilityEnvelope(CapabilityEnvelopePolicy));
    pipeline.append(ActionPolicy::WorkspaceRead(AllowWorkspaceReadPolicy));
    pipeline.prepend_outbound(GlobalPolicy::AllowAll(AllowAllPolicy));
    assert_eq!(pipeline.next_policy_id(), 4);
    let report = pipeline.decide(&ctx(&[Capability::FsRead]), &read("/elsewhere/a.txt"));
    let ids: Vec<u64> = report.evaluations().iter().map(|e| e.policy_id()).collect();
    assert_eq!(ids, vec![1, 2, 3]);
}

#[test]
fn registering_for_one_kind_leaves_other_kinds_alone() {
    let mut pipeline = PolicyPipeline::new();
    pipeline.append_outbound(GlobalPolicy::AllowAll(AllowAllPolicy));
    let fetch = PolicyAction::NetworkFetch(mvp_kernel::action::NetworkFetchAction::new(
        "https://example.test/".to_string(),
    ));
    let c = ctx(&[Capability::FsRead, Capability::NetworkFetch]);
    let before = pipeline.decide(&c, &fetch);
    pipeline.prepend(ActionPolicy::ExactFileRead(AllowExactFileReadPolicy::new(path("/ws/a"))));
    let after = pipeline.decide(&c, &fetch);
    assert_eq!(before.evaluations().len(), after.evaluations().len());
    assert_eq!(outcome_policy(before.outcome()), outcome_policy(after.outcome()));
    assert_eq!(outcome_policy(after.outcome()), ("policy.default_allow", true));
}

#[test]
fn appended_policy_never_overrides_an_earlier_decision() {
    let mut pipeline = PolicyPipeline::new();
    pipeline.append(ActionPolicy::ExactFileRead(AllowExactFileReadPolicy::new(path("/ws/a"))));
    let c = ctx(&[Capability::FsRead]);
    let before = pipeline.decide(&c, &read("/ws/a"));
    pipeline.append(ActionPolicy::WorkspaceRead(AllowWorkspaceReadPolicy));
    let after = pipeline.decide(&c, &read("/ws/a"));
    assert_eq!(after.evaluations().len(), 1);
    assert_eq!(outcome_policy(before.outcome()), outcome_policy(after.outcome()));
    assert_eq!(outcome_policy(after.outcome()), ("fs.allow_exact_file_read", true));
}

#[test]
fn prepended_decisive_policy_takes_precedence() {
    let mut pipeline = PolicyPipeline::new();
    pipeline.append(ActionPolicy::WorkspaceRead(AllowWorkspaceReadPolicy));
    pipeline.prepend(ActionPolicy::ExactFileRead(AllowExactFileReadPolicy::new(path("/ws/a"))));
    let report = pipeline.decide(&ctx(&[Capability::FsRead]), &read("/ws/a"));
    assert_eq!(report.evaluations().len(), 1);
    match report.outcome() {
        PolicyOutcome::Allow { policy_name, policy_id, .. } => {
            assert_eq!(*policy_name, "fs.allow_exact_file_read");
            assert_eq!(*policy_id, 2);
        }
        other => panic!("unexpected outcome {other:?}"),
    }
}

#[test]
fn grant_with_report_returns_every_evaluation_and_the_grant() {
    let mut pipeline = PolicyPipeline::new();
    pipeline.append_inbound(GlobalPolicy::CapabilityEnvelope(CapabilityEnvelopePolicy));
    pipeline.append(ActionPolicy::WorkspaceRead(AllowWorkspaceReadPolicy));
    let mut ids = GrantIdAllocator::new();
    let c = ctx(&[Capability::FsRead]);
    let (report, result) = grant_with_report(&pipeline, &mut ids, &c, FsReadAction::new(path("/ws/a")));
    assert_eq!(report.evaluations().len(), 2);
    assert!(matches!(report.outcome(), PolicyOutcome::Allow { policy_id: 2, .. }));
    assert_eq!(result.unwrap().grant_id().get(), 1);

    let (report, result) = grant_with_report(&pipeline, &mut ids, &c, FsReadAction::new(path("/x")));
    assert_eq!(report.evaluations().len(), 2);
    assert_eq!(result.unwrap_err().denied_reason(), Some("No matching policy."));
    let next = grant_with_engine(&pipeline, &mut ids, &c, FsReadAction::new(path("/ws/b"))).unwrap();
    assert_eq!(next.grant_id().get(), 2);
}
