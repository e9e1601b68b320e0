use mvp_kernel::action::{FsAction, FsReadAction, FsWriteAction, NetworkFetchAction, PolicyAction};
use mvp_kernel::capability::{Capabilities, Capability};
use mvp_kernel::contract::PolicyDecision;
use mvp_kernel::path::CanonicalPath;
use mvp_kernel::policy::{
    extract_host, AllowAllPolicy, AllowDomainFetchPolicy, AllowExactFileReadPolicy,
    AllowExactFileWritePolicy, AllowExactUrlFetchPolicy, AllowFileReadPrefixPolicy,
    AllowFileWritePrefixPolicy, AllowWorkspaceFsPolicy, AllowWorkspaceReadPolicy,
    AllowWorkspaceWritePolicy, CapabilityEnvelopePolicy, DefaultAllowPolicy, KernelPolicyContext,
};

fn path(p: &str) -> CanonicalPath {
    CanonicalPath::from_canonicalized(p.to_string())
}

fn ctx(caps: &[Capability]) -> KernelPolicyContext {
    KernelPolicyContext::new(Capabilities::from_slice(caps), path("/ws"))
}

#[test]
fn envelope_abstains_inside_and_denies_outside() {
    let read = PolicyAction::FsRead(FsReadAction::new(path("/ws/a")));
    let inside = CapabilityEnvelopePolicy.grant(&ctx(&[Capability::FsRead, Capability::FsWrite]), &read);
    assert_eq!(*inside.decision(), PolicyDecision::Abstain);
    assert_eq!(inside.reason(), Some("action is within declared capability envelope"));
    assert_eq!(
        inside.predicate(),
        Some("effective_capabilities contains action_capabilities: 3 contains 1")
    );
    let write = PolicyAction::FsWrite(FsWriteAction::new(path("/ws/a"), "x".to_string()));
    let outside = CapabilityEnvelopePolicy.grant(&ctx(&[Capability::FsRead]), &write);
    assert_eq!(*outside.decision(), PolicyDecision::Deny);
    assert_eq!(outside.reason(), Some("action exceeds declared capability envelope"));
    assert_eq!(
        outside.predicate(),
        Some("effective_capabilities contains action_capabilities: 1 contains 2")
    );
    let fetch = PolicyAction::NetworkFetch(NetworkFetchAction::new("u".to_string()));
    let big = CapabilityEnvelopePolicy.grant(&ctx(&[Capability::FsRead]), &fetch);
    assert_eq!(
        big.predicate(),
        Some("effective_capabilities contains action_capabilities: 1 contains 16777216")
    );
}

#[test]
fn default_allow_policies() {
    let g = AllowAllPolicy.grant();
    assert_eq!(*g.decision(), PolicyDecision::Allow);
    assert_eq!(g.reason(), Some("default allow policy granted action"));
    assert_eq!(g.predicate(), Some("default allow"));
    assert_eq!(AllowAllPolicy.name(), "policy.default_allow");
    let d = DefaultAllowPolicy.grant();
    assert_eq!(*d.decision(), PolicyDecision::Allow);
    assert_eq!(d.reason(), None);
    assert_eq!(d.predicate(), None);
}

#[test]
fn exact_file_read_policy_grants() {
    let policy = AllowExactFileReadPolicy::new(path("/ws/allowed.txt"));
    let ok = policy.grant(&path("/ws/allowed.txt"));
    assert_eq!(*ok.decision(), PolicyDecision::Allow);
    assert_eq!(ok.reason(), Some("read path matches exact allowed file"));
    assert_eq!(ok.predicate(), Some("path == allowed: /ws/allowed.txt == /ws/allowed.txt"));
    let other = policy.grant(&path("/ws/blocked.txt"));
    assert_eq!(*other.decision(), PolicyDecision::Abstain);
    assert_eq!(other.reason(), Some("read path does not match exact allowed file"));
}

#[test]
fn prefix_read_policy_grants() {
    let policy = AllowFileReadPrefixPolicy::new(path("/ws/src"));
    assert_eq!(*policy.grant(&path("/ws/src/main.rs")).decision(), PolicyDecision::Allow);
    assert_eq!(*policy.grant(&path("/ws/src")).decision(), PolicyDecision::Allow);
    assert_eq!(*policy.grant(&path("/ws/srcx/main.rs")).decision(), PolicyDecision::Abstain);
    let root = policy.grant(&path("/ws/root.txt"));
    assert_eq!(*root.decision(), PolicyDecision::Abstain);
    assert_eq!(root.reason(), Some("read path is outside allowed prefix"));
    assert_eq!(root.predicate(), Some("path starts_with prefix: /ws/root.txt starts_with /ws/src"));
}

#[test]
fn workspace_policies_compare_with_the_context_root() {
    let c = ctx(&[]);
    let r = AllowWorkspaceReadPolicy.grant(&c, &path("/ws/a/b/file.txt"));
    assert_eq!(*r.decision(), PolicyDecision::Allow);
    assert_eq!(r.reason(), Some("read path is under workspace root"));
    assert_eq!(
        r.predicate(),
        Some("path starts_with workspace_root: /ws/a/b/file.txt starts_with /ws")
    );
    let w = AllowWorkspaceWritePolicy.grant(&c, &path("/wsx/file.txt"));
    assert_eq!(*w.decision(), PolicyDecision::Abstain);
    assert_eq!(w.reason(), Some("write path is outside workspace root"));
    let fs_in = AllowWorkspaceFsPolicy.grant(&c, &path("/ws/x"));
    assert_eq!(*fs_in.decision(), PolicyDecision::Allow);
    let fs_out = AllowWorkspaceFsPolicy.grant(&c, &path("/other"));
    assert_eq!(*fs_out.decision(), PolicyDecision::Deny);
    assert_eq!(fs_out.reason(), Some("filesystem path is outside workspace root"));
    let _ = FsAction::new(path("/ws/x"));
}

#[test]
fn write_policies() {
    let exact = AllowExactFileWritePolicy::new(path("/ws/allowed.txt"));
    assert_eq!(*exact.grant(&path("/ws/allowed.txt")).decision(), PolicyDecision::Allow);
    assert_eq!(
        exact.grant(&path("/ws/blocked.txt")).reason(),
        Some("write path does not match exact allowed file")
    );
    let prefix = AllowFileWritePrefixPolicy::new(path("/ws/out"));
    assert_eq!(prefix.grant(&path("/ws/out/ok.txt")).reason(), Some("write path is under allowed prefix"));
    assert_eq!(*prefix.grant(&path("/ws/root.txt")).decision(), PolicyDecision::Abstain);
}

#[test]
fn extract_host_cases() {
    assert_eq!(extract_host("https://docs.example.test/index"), Some("docs.example.test"));
    assert_eq!(extract_host("http://example.test:8080/x"), Some("example.test"));
    assert_eq!(extract_host("https://example.test"), Some("example.test"));
    assert_eq!(extract_host("example.test/x"), None);
    assert_eq!(extract_host("https:///path"), None);
    assert_eq!(extract_host("file://:80"), None);
}

#[test]
fn domain_policy_predicate_and_matching() {
    let policy = AllowDomainFetchPolicy::new("example.test".to_string());
    let sub = policy.grant("https://docs.example.test/index");
    assert_eq!(*sub.decision(), PolicyDecision::Allow);
    assert_eq!(sub.reason(), Some("URL host is under allowed domain"));
    assert_eq!(
        sub.predicate(),
        Some("host == domain || host ends_with .domain: docs.example.test == example.test || docs.example.test ends_with .example.test")
    );
    assert_eq!(*policy.grant("https://example.test/").decision(), PolicyDecision::Allow);
    assert_eq!(*policy.grant("https://badexample.test/").decision(), PolicyDecision::Abstain);
    let none = policy.grant("not a url");
    assert_eq!(*none.decision(), PolicyDecision::Abstain);
    assert_eq!(
        none.predicate(),
        Some("host == domain || host ends_with .domain: <none> == example.test || <none> ends_with .example.test")
    );
}

#[test]
fn exact_url_policy() {
    let policy = AllowExactUrlFetchPolicy::new("https://example.test/hello".to_string());
    let ok = policy.grant("https://example.test/hello");
    assert_eq!(*ok.decision(), PolicyDecision::Allow);
    assert_eq!(ok.reason(), Some("URL matches exact allowed URL"));
    assert_eq!(
        ok.predicate(),
        Some("url == allowed_url: https://example.test/hello == https://example.test/hello")
    );
    assert_eq!(
        policy.grant("https://example.test/other").reason(),
        Some("URL does not match exact allowed URL")
    );
    assert_eq!(policy.name(), "network.allow_exact_url_fetch");
}
