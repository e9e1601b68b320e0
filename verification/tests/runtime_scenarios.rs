use mvp_kernel::action::Action;
use mvp_kernel::capability::{Capabilities, Capability};
use mvp_kernel::contract::{AuditResource, GrantDecision};
use mvp_kernel::error::{AuthorizationError, CapabilityError, ExecutionError};
use mvp_kernel::path::{
    candidate_path, plan_write_target, resolve_under_authorization, CanonicalPath,
};
use mvp_kernel::policy::{
    ActionPolicy, AllowDomainFetchPolicy, AllowExactFileReadPolicy, AllowExactFileWritePolicy,
    AllowExactUrlFetchPolicy, AllowFileReadPrefixPolicy, AllowFileWritePrefixPolicy,
    AllowWorkspaceFsPolicy, AllowWorkspaceReadPolicy, AllowWorkspaceWritePolicy, GlobalPolicy,
    KernelPolicyContext, PolicyAnyWrapper,
};
use mvp_kernel::runtime::KernelRuntime;

fn path(p: &str) -> CanonicalPath {
    CanonicalPath::from_canonicalized(p.to_string())
}

fn ctx(caps: &[Capability]) -> KernelPolicyContext {
    KernelPolicyContext::new(Capabilities::from_slice(caps), path("/ws"))
}

fn is_denied(r: &Result<impl Sized, ExecutionError>) -> bool {
    matches!(r, Err(ExecutionError::Authorization(AuthorizationError::Denied(_))))
}

#[test]
fn exact_file_policy_only_allows_one_path() {
    let mut rt = KernelRuntime::new();
    rt.append(ActionPolicy::ExactFileRead(AllowExactFileReadPolicy::new(path("/ws/allowed.txt"))));
    let c = ctx(&[Capability::FsRead]);
    let ok = rt.authorize_read(&c, path("/ws/allowed.txt"));
    assert!(ok.is_ok());
    let denied = rt.authorize_read(&c, path("/ws/blocked.txt"));
    assert!(is_denied(&denied));
}

#[test]
fn prefix_policy_allows_reads_under_prefix() {
    let mut rt = KernelRuntime::new();
    rt.append(ActionPolicy::FileReadPrefix(AllowFileReadPrefixPolicy::new(path("/ws/src"))));
    let c = ctx(&[Capability::FsRead]);
    assert!(rt.authorize_read(&c, path("/ws/src/main.rs")).is_ok());
    assert!(is_denied(&rt.authorize_read(&c, path("/ws/root.txt"))));
}

#[test]
fn workspace_policy_allows_reads_inside_workspace() {
    let mut rt = KernelRuntime::new();
    rt.append(ActionPolicy::WorkspaceRead(AllowWorkspaceReadPolicy));
    let c = ctx(&[Capability::FsRead]);
    let granted = rt.authorize_read(&c, path("/ws/a/b/file.txt")).unwrap();
    assert_eq!(granted.action().path().as_path(), "/ws/a/b/file.txt");
    assert_eq!(granted.record().action_kind(), "fs.read");
    assert!(matches!(granted.record().decision(), GrantDecision::Allow(id) if id.get() == 1));
}

#[test]
fn effective_capabilities_can_shrink_read_service_access() {
    let mut rt = KernelRuntime::new();
    rt.append(ActionPolicy::WorkspaceRead(AllowWorkspaceReadPolicy));
    let c = ctx(&[]);
    let denied = rt.authorize_read(&c, path("/ws/hello.txt"));
    assert!(is_denied(&denied));
}

#[test]
fn exact_file_write_policy_only_allows_one_path() {
    let mut rt = KernelRuntime::new();
    rt.append(ActionPolicy::ExactFileWrite(AllowExactFileWritePolicy::new(path("/ws/allowed.txt"))));
    let c = ctx(&[Capability::FsWrite]);
    let granted = rt.authorize_write(&c, path("/ws/allowed.txt"), "ok".to_string()).unwrap();
    assert_eq!(granted.action().content(), "ok");
    assert!(is_denied(&rt.authorize_write(&c, path("/ws/blocked.txt"), "no".to_string())));
}

#[test]
fn prefix_policy_allows_writes_under_prefix() {
    let mut rt = KernelRuntime::new();
    rt.append(ActionPolicy::FileWritePrefix(AllowFileWritePrefixPolicy::new(path("/ws/out"))));
    let c = ctx(&[Capability::FsWrite]);
    assert!(rt.authorize_write(&c, path("/ws/out/ok.txt"), "ok".to_string()).is_ok());
    assert!(is_denied(&rt.authorize_write(&c, path("/ws/root.txt"), "no".to_string())));
}

#[test]
fn workspace_policy_allows_writes_inside_workspace() {
    let mut rt = KernelRuntime::new();
    rt.append(ActionPolicy::WorkspaceWrite(AllowWorkspaceWritePolicy));
    let c = ctx(&[Capability::FsWrite]);
    let g = rt.authorize_write(&c, path("/ws/a/b/file.txt"), "written".to_string()).unwrap();
    assert_eq!(g.action().path().as_path(), "/ws/a/b/file.txt");
    assert_eq!(g.action().audit_kind(), "fs.write");
}

#[test]
fn effective_capabilities_can_shrink_write_service_access() {
    let mut rt = KernelRuntime::new();
    rt.append(ActionPolicy::WorkspaceWrite(AllowWorkspaceWritePolicy));
    let c = ctx(&[]);
    let denied = rt.authorize_write(&c, path("/ws/hello.txt"), "nope".to_string());
    let Err(ExecutionError::Authorization(e)) = denied else { panic!("expected denial") };
    assert_eq!(e.denied_reason(), Some("action exceeds declared capability envelope"));
}

#[test]
fn write_file_requires_matching_policy() {
    let mut rt = KernelRuntime::new();
    let c = ctx(&[Capability::FsWrite]);
    let denied = rt.authorize_write(&c, path("/ws/hello.txt"), "blocked".to_string());
    let Err(ExecutionError::Authorization(e)) = denied else { panic!("expected denial") };
    assert_eq!(e.denied_reason(), Some("No matching policy."));
}

#[test]
fn mod_url_fetch_grant_fetches_exact_url() {
    let mut rt = KernelRuntime::with_network(vec![(
        "https://example.test/hello".to_owned(),
        b"hello".to_vec(),
    )]);
    rt.append(ActionPolicy::ExactUrlFetch(AllowExactUrlFetchPolicy::new(
        "https://example.test/hello".to_string(),
    )));
    let body = rt.fetch_url(&ctx(&[Capability::NetworkFetch]), "https://example.test/hello").unwrap();
    assert_eq!(body, b"hello");
}

#[test]
fn domain_policy_allows_matching_subdomain() {
    let mut rt = KernelRuntime::with_network(vec![(
        "https://docs.example.test/index".to_owned(),
        b"docs".to_vec(),
    )]);
    rt.append(ActionPolicy::DomainFetch(AllowDomainFetchPolicy::new("example.test".to_string())));
    let body = rt
        .fetch_url(&ctx(&[Capability::NetworkFetch]), "https://docs.example.test/index")
        .unwrap();
    assert_eq!(body, b"docs");
}

#[test]
fn network_requires_matching_policy() {
    let mut rt = KernelRuntime::with_network(vec![]);
    let denied = rt.fetch_url(&ctx(&[]), "https://example.test/hello");
    assert!(is_denied(&denied));
}

#[test]
fn granted_fetch_of_unknown_url_is_denied_by_the_backend() {
    let mut rt = KernelRuntime::with_network(vec![
        ("https://a.test/".to_owned(), b"first".to_vec()),
        ("https://a.test/".to_owned(), b"second".to_vec()),
    ]);
    rt.append(ActionPolicy::DomainFetch(AllowDomainFetchPolicy::new("a.test".to_string())));
    let c = ctx(&[Capability::NetworkFetch]);
    assert_eq!(rt.fetch_url(&c, "https://a.test/").unwrap(), b"second");
    assert!(matches!(
        rt.fetch_url(&c, "https://a.test/missing"),
        Err(ExecutionError::Capability(CapabilityError::Denied))
    ));
    let mut closed = KernelRuntime::new();
    closed.append(ActionPolicy::DomainFetch(AllowDomainFetchPolicy::new("a.test".to_string())));
    assert!(matches!(
        closed.fetch_url(&c, "https://a.test/"),
        Err(ExecutionError::Capability(CapabilityError::Denied))
    ));
}

#[test]
fn read_file_goes_through_kernel_pipeline() {
    let mut rt = KernelRuntime::new();
    rt.append(ActionPolicy::WorkspaceRead(AllowWorkspaceReadPolicy));
    let root = path("/tmp/tool-plane-test");
    let c = KernelPolicyContext::new(Capabilities::from_slice(&[Capability::FsRead]), root.clone());
    let requested = candidate_path(&root, "hello.txt");
    let target = resolve_under_authorization(&root, Ok(requested)).unwrap();
    let granted = rt.authorize_read(&c, target).unwrap();
    assert_eq!(granted.action().path().as_path(), "/tmp/tool-plane-test/hello.txt");
}

#[test]
fn write_file_goes_through_kernel_pipeline() {
    let mut rt = KernelRuntime::new();
    rt.append(ActionPolicy::WorkspaceWrite(AllowWorkspaceWritePolicy));
    let root = path("/tmp/ws");
    let c = KernelPolicyContext::new(Capabilities::from_slice(&[Capability::FsWrite]), root.clone());
    let target = resolve_under_authorization(&root, Ok("/tmp/ws/nested/hello.txt".to_string())).unwrap();
    let granted = rt.authorize_write(&c, target, "hello from write tool".to_string()).unwrap();
    assert_eq!(granted.action().content(), "hello from write tool");
    assert_eq!(granted.grant_id().get(), 1);
}

#[test]
fn session_load_and_save_are_granted_by_policy() {
    let mut rt = KernelRuntime::new();
    let c = ctx(&[]);
    let denied = rt.authorize_session_load(&c, "/ws", "repl-1");
    let Err(ExecutionError::Authorization(error)) = denied else {
        panic!("expected a denial");
    };
    assert_eq!(error.denied_reason(), Some("No matching policy."));
    assert_eq!(error.deny_record().unwrap().action_kind(), "monty.session.load");

    rt.append_outbound(mvp_kernel::policy::GlobalPolicy::AllowAll(mvp_kernel::policy::AllowAllPolicy));
    let load = rt.authorize_session_load(&c, "/ws", "repl-1").unwrap();
    assert_eq!(load.record().action_kind(), "monty.session.load");
    assert!(matches!(load.record().resource(), AuditResource::Value(v) if v == "/ws#repl-1"));
    assert_eq!(load.grant_id().get(), 1);
    let save = rt.authorize_session_save(&c, "/ws", "repl-1", vec![1, 2, 3]).unwrap();
    assert_eq!(save.record().action_kind(), "monty.session.save");
    assert_eq!(save.record().reason(), Some("default allow policy granted action"));
    assert_eq!(save.grant_id().get(), 2);
}

#[test]
fn prepended_inbound_policy_runs_ahead_of_the_capability_gate() {
    let mut rt = KernelRuntime::new();
    rt.prepend_inbound(GlobalPolicy::Scoped(PolicyAnyWrapper::new(ActionPolicy::WorkspaceFs(
        AllowWorkspaceFsPolicy,
    ))));
    assert_eq!(rt.policy().next_policy_id(), 3);
    let c = ctx(&[]);
    let outside = rt.grant(&c, mvp_kernel::action::FsAction::new(path("/etc/x")));
    let error = outside.unwrap_err();
    assert_eq!(error.denied_reason(), Some("filesystem path is outside workspace root"));
    let record = error.deny_record().unwrap();
    assert!(matches!(
        record.source(),
        mvp_kernel::contract::GrantSource::Policy { policy_id: 2, .. }
    ));
    let read = rt.authorize_read(&c, path("/ws/a.txt"));
    let Err(ExecutionError::Authorization(error)) = read else {
        panic!("expected a denial");
    };
    assert_eq!(error.denied_reason(), Some("action exceeds declared capability envelope"));
}

#[test]
fn exact_write_policy_targets_the_file_or_its_canonical_parent() {
    let existing = plan_write_target("/ws/link.txt", true).unwrap();
    let policy =
        AllowExactFileWritePolicy::existing_or_parent(&existing, Ok("/ws/real.txt".to_string()))
            .unwrap();
    let mut rt = KernelRuntime::new();
    rt.append(ActionPolicy::ExactFileWrite(policy));
    let c = ctx(&[Capability::FsWrite]);
    assert!(rt.authorize_write(&c, path("/ws/real.txt"), "x".to_string()).is_ok());

    let fresh = plan_write_target("/ws/nested/new.txt", false).unwrap();
    let policy =
        AllowExactFileWritePolicy::existing_or_parent(&fresh, Ok("/ws/real-nested".to_string()))
            .unwrap();
    rt.append(ActionPolicy::ExactFileWrite(policy));
    assert!(rt.authorize_write(&c, path("/ws/real-nested/new.txt"), "x".to_string()).is_ok());
    assert!(is_denied(&rt.authorize_write(&c, path("/ws/nested/new.txt"), "x".to_string())));

    let missing = AllowExactFileWritePolicy::existing_or_parent(
        &fresh,
        Err(std::io::Error::new(std::io::ErrorKind::NotFound, "missing")),
    );
    assert!(missing.is_err());
}
