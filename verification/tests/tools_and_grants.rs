use mvp_kernel::capability::{Capabilities, Capability};
use mvp_kernel::contract::{OutputClassification, ToolSpec};
use mvp_kernel::error::{AuthorizationError, CapabilityError, InputError, ToolError};
use mvp_kernel::grant::GrantIdAllocator;
use mvp_kernel::path::CanonicalPath;
use mvp_kernel::scoped::{DenyNetwork, NetworkAccess, ReadGrantScope, StaticNetwork, ToolPlaneContext};
use mvp_kernel::tool::{
    effective_capabilities, nested_capabilities, Double, JsonValue, ReadFileOutput, ReadFileTool,
    ToolCatalog, WriteFileOutput, WriteFileTool,
};

fn path(p: &str) -> CanonicalPath {
    CanonicalPath::from_canonicalized(p.to_string())
}

fn obj(entries: Vec<(&str, JsonValue)>) -> JsonValue {
    JsonValue::Object(entries.into_iter().map(|(k, v)| (k.to_string(), v)).collect())
}

fn s(v: &str) -> JsonValue {
    JsonValue::String(v.to_string())
}

fn noop_spec() -> ToolSpec {
    ToolSpec {
        name: "noop".into(),
        description: "Return a public no-op outcome.".into(),
        capabilities: Capabilities::empty(),
    }
}

#[test]
fn register_rejects_duplicate_tool_names() {
    let mut catalog = ToolCatalog::new();
    catalog.register("noop".to_owned(), noop_spec()).unwrap();
    let duplicate = catalog.register("noop".to_owned(), noop_spec());
    assert!(matches!(duplicate, Err(ToolError::DuplicateTool(path)) if path == "\"noop\""));
}

#[test]
fn tool_paths_in_errors_are_debug_quoted() {
    let mut catalog = ToolCatalog::new();
    catalog.register("say \"hi\"".to_owned(), noop_spec()).unwrap();
    let duplicate = catalog.register("say \"hi\"".to_owned(), noop_spec());
    assert!(matches!(duplicate, Err(ToolError::DuplicateTool(path)) if path == "\"say \\\"hi\\\"\""));
    let err = catalog.lookup("a\\b");
    assert!(matches!(err, Err(ToolError::UnknownTool(path)) if path == "\"a\\\\b\""));
}

#[test]
fn invoke_returns_unknown_tool_for_unregistered_name() {
    let catalog = ToolCatalog::new();
    let err = catalog.lookup("missing");
    assert!(matches!(err, Err(ToolError::UnknownTool(path)) if path == "\"missing\""));
}

#[test]
fn registration_rejects_nameless_specs_and_finds_registered_tools() {
    let mut catalog = ToolCatalog::new();
    let mut spec = noop_spec();
    spec.name = String::new();
    assert!(matches!(catalog.register("x".to_owned(), spec), Err(ToolError::InvalidSpec)));
    assert!(!catalog.contains_key("x"));
    catalog.register("read_file".to_owned(), ReadFileTool.spec()).unwrap();
    let reg = catalog.lookup("read_file").unwrap();
    assert_eq!(reg.spec().name, "read_file");
    assert!(reg.spec().capabilities.allows(Capability::FsRead));
}

#[test]
fn declared_capabilities_apply_when_override_is_absent() {
    let declared = ReadFileTool.spec().capabilities;
    assert_eq!(effective_capabilities(declared, None), declared);
    assert_eq!(effective_capabilities(declared, Some(Capabilities::empty())), Capabilities::empty());
}

#[test]
fn nested_invocations_cannot_expand_capabilities() {
    let parent = Capabilities::from_slice(&[Capability::FsRead]);
    assert_eq!(nested_capabilities(parent, None).unwrap(), parent);
    assert_eq!(nested_capabilities(parent, Some(Capabilities::empty())).unwrap(), Capabilities::empty());
    let err = nested_capabilities(parent, Some(Capabilities::from_slice(&[Capability::FsWrite])));
    let Err(ToolError::Authorization(e)) = err else { panic!("expected denial") };
    assert_eq!(e.denied_reason(), Some("nested invocation attempted to expand capabilities"));
}

#[test]
fn builtin_tools_parse_their_inputs() {
    let read = ReadFileTool.parse_input(obj(vec![("path", s("hello.txt"))])).unwrap();
    assert_eq!(read.path, "hello.txt");
    assert!(matches!(
        ReadFileTool.parse_input(obj(vec![("path", JsonValue::Bool(true))])),
        Err(InputError::MissingField("path"))
    ));
    assert!(matches!(ReadFileTool.parse_input(JsonValue::Null), Err(InputError::MissingField("path"))));
    let write = WriteFileTool
        .parse_input(obj(vec![("content", s("c")), ("path", s("p"))]))
        .unwrap();
    assert_eq!((write.path.as_str(), write.content.as_str()), ("p", "c"));
    assert!(matches!(
        WriteFileTool.parse_input(obj(vec![("path", s("p"))])),
        Err(InputError::MissingField("content"))
    ));
    let req = Double
        .parse_input(obj(vec![("name", s("read_file")), ("payload", obj(vec![("path", s("hello.txt"))]))]))
        .unwrap();
    assert_eq!(req.name, "read_file");
    assert_eq!(req.payload.get_str("path").as_deref(), Some("hello.txt"));
    assert!(matches!(Double.parse_input(obj(vec![("name", s("x"))])), Err(InputError::MissingField("payload"))));
    assert_eq!(Double.spec().capabilities, Capabilities::empty());
    assert_eq!(WriteFileTool.spec().description, "Write a file");
}

#[test]
fn builtin_outputs_become_outcomes() {
    let read = ReadFileOutput { content: "hello".to_string() }.into_outcome();
    assert_eq!(read.classification, OutputClassification::WorkspaceLocal);
    assert_eq!(read.payload.get_str("content").as_deref(), Some("hello"));
    let write = WriteFileOutput.into_outcome();
    assert_eq!(write.classification, OutputClassification::Public);
    assert!(matches!(write.payload.get("ok"), Some(JsonValue::Bool(true))));
}

#[test]
fn directory_read_grant_reads_only_under_directory() {
    let plane = ToolPlaneContext::new(
        Capabilities::from_slice(&[Capability::FsRead]),
        NetworkAccess::Deny(DenyNetwork),
        path("/ws"),
    );
    let mut ids = GrantIdAllocator::new();
    let grant = plane.fs().grant_directory_read(&mut ids, Ok("/ws/allowed".to_string())).unwrap();
    assert!(matches!(grant.scope(), ReadGrantScope::Directory { directory } if directory == "/ws/allowed"));
    let target = plane.fs().read_target_in_directory(&grant, Ok("/ws/allowed/a.txt".to_string())).unwrap();
    assert_eq!(target.as_path(), "/ws/allowed/a.txt");
    let denied = plane.fs().read_target_in_directory(&grant, Ok("/ws/outside.txt".to_string()));
    assert!(matches!(denied, Err(CapabilityError::GrantMismatch)));
}

#[test]
fn workspace_read_grant_reads_under_workspace() {
    let plane = ToolPlaneContext::new(
        Capabilities::from_slice(&[Capability::FsRead]),
        NetworkAccess::Deny(DenyNetwork),
        path("/ws"),
    );
    let mut ids = GrantIdAllocator::new();
    let grant = plane.fs().grant_workspace_read(&mut ids).unwrap();
    assert_eq!(grant.root().as_path(), "/ws");
    let target = plane.fs().read_target_in_workspace(&grant, Ok("/ws/a/b/file.txt".to_string())).unwrap();
    assert_eq!(target.as_path(), "/ws/a/b/file.txt");
}

#[test]
fn workspace_grant_can_downgrade_to_file_grant() {
    let plane = ToolPlaneContext::new(
        Capabilities::from_slice(&[Capability::FsRead]),
        NetworkAccess::Deny(DenyNetwork),
        path("/ws"),
    );
    let mut ids = GrantIdAllocator::new();
    let workspace = plane.fs().grant_workspace_read(&mut ids).unwrap();
    let file = plane
        .fs()
        .downgrade_workspace_to_file(&mut ids, &workspace, Ok("/ws/file.txt".to_string()))
        .unwrap();
    assert_eq!(file.path().as_path(), "/ws/file.txt");
    assert_eq!(workspace.id().get(), 1);
    assert_eq!(file.id().get(), 2);
    let outside = plane.fs().downgrade_workspace_to_file(&mut ids, &workspace, Ok("/etc/x".to_string()));
    assert!(matches!(outside, Err(CapabilityError::GrantMismatch)));
    let none = ToolPlaneContext::new(Capabilities::empty(), NetworkAccess::Deny(DenyNetwork), path("/ws"));
    assert!(matches!(
        none.fs().grant_workspace_read(&mut ids),
        Err(AuthorizationError::MissingCapability(Capability::FsRead))
    ));
}

#[test]
fn network_url_fetch_grant_fetches_exact_url() {
    let network = StaticNetwork::new(vec![("https://example.test/hello".to_owned(), b"hello".to_vec())]);
    let plane = ToolPlaneContext::new(
        Capabilities::from_slice(&[Capability::NetworkFetch]),
        NetworkAccess::Static(network),
        path("/ws"),
    );
    let mut ids = GrantIdAllocator::new();
    let grant = plane.network().grant_url_fetch(&mut ids, "https://example.test/hello").unwrap();
    let body = plane.network().fetch_url(&grant).unwrap();
    assert_eq!(body, b"hello");
}

#[test]
fn network_requires_declared_capability() {
    let plane = ToolPlaneContext::new(
        Capabilities::empty(),
        NetworkAccess::Static(StaticNetwork::new(vec![])),
        path("/ws"),
    );
    let mut ids = GrantIdAllocator::new();
    let denied = plane.network().grant_url_fetch(&mut ids, "https://example.test/hello");
    assert!(matches!(
        denied,
        Err(AuthorizationError::MissingCapability(Capability::NetworkFetch))
    ));
}
