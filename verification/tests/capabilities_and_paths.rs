use mvp_kernel::capability::{Capabilities, Capability};
use mvp_kernel::error::{AuthorizationError, CapabilityError};
use mvp_kernel::path::{
    candidate_path, ensure_under_root, plan_write_target, resolve_new_write_target,
    resolve_under_authorization, resolve_under_capability, resolve_write_target, within,
    write_target_from_parts, write_target_parts, CanonicalPath, WriteTargetPlan,
};
use mvp_kernel::text::u64_to_decimal;

fn path(p: &str) -> CanonicalPath {
    CanonicalPath::from_canonicalized(p.to_string())
}

fn io_error() -> std::io::Error {
    std::io::Error::new(std::io::ErrorKind::NotFound, "missing")
}

#[test]
fn capability_bits_follow_the_slot_indices() {
    assert_eq!(Capability::FsRead.index(), 0);
    assert_eq!(Capability::ProcessSpawn.index(), 8);
    assert_eq!(Capability::NetworkFetch.bit(), 1 << 24);
    assert_eq!(Capability::TimeRead.bit(), 1 << 56);
    let caps = Capabilities::from_slice(&[Capability::FsRead, Capability::NetworkFetch]);
    assert_eq!(caps.bits(), 1 | (1 << 24));
    assert!(caps.allows(Capability::FsRead));
    assert!(!caps.allows(Capability::FsWrite));
    assert!(caps.allows_all(Capabilities::from(Capability::NetworkFetch)));
    assert!(caps.allows_all(Capabilities::empty()));
    assert!(!Capabilities::empty().allows_all(caps));
    assert!(Capabilities::from_bits_retain(u64::MAX).allows_all(caps));
    let mut grown = Capabilities::empty();
    grown.insert(caps);
    assert_eq!(grown, caps);
    assert_eq!(caps.union(Capabilities::from(Capability::FsWrite)).bits(), 3 | (1 << 24));
}

#[test]
fn decimal_text() {
    assert_eq!(u64_to_decimal(0), "0");
    assert_eq!(u64_to_decimal(16777216), "16777216");
    assert_eq!(u64_to_decimal(u64::MAX), "18446744073709551615");
}

#[test]
fn paths_are_compared_by_whole_components() {
    assert!(within("/ws", "/ws"));
    assert!(within("/ws", "/ws/a/b"));
    assert!(!within("/ws", "/wsx"));
    assert!(!within("/ws/a", "/ws"));
    assert!(within("/", "/anything"));
    assert_eq!(candidate_path(&path("/ws"), "a/b.txt"), "/ws/a/b.txt");
    assert_eq!(candidate_path(&path("/ws"), "/etc/passwd"), "/etc/passwd");
    assert_eq!(candidate_path(&path("/"), "x"), "/x");
    assert!(ensure_under_root(&path("/ws"), &path("/ws/x")).is_ok());
    assert!(matches!(
        ensure_under_root(&path("/ws"), &path("/tmp/x")),
        Err(AuthorizationError::OutsideWorkspace)
    ));
}

#[test]
fn resolution_keeps_io_errors_and_refuses_escapes() {
    let root = path("/ws");
    let ok = resolve_under_authorization(&root, Ok("/ws/a.txt".to_string())).unwrap();
    assert_eq!(ok.as_path(), "/ws/a.txt");
    assert!(matches!(
        resolve_under_authorization(&root, Ok("/outside.txt".to_string())),
        Err(AuthorizationError::OutsideWorkspace)
    ));
    assert!(matches!(resolve_under_authorization(&root, Err(io_error())), Err(AuthorizationError::Io(_))));
    assert!(matches!(
        resolve_under_capability(&path("/ws/allowed"), Ok("/ws/outside.txt".to_string())),
        Err(CapabilityError::GrantMismatch)
    ));
    assert!(matches!(resolve_under_capability(&root, Err(io_error())), Err(CapabilityError::Io(_))));
}

#[test]
fn write_can_create_new_file_inside_workspace() {
    let root = path("/ws");
    let requested = candidate_path(&root, "nested/new.txt");
    let (parent, name) = write_target_parts(&requested).unwrap();
    assert_eq!(parent, "/ws/nested");
    assert_eq!(name, "new.txt");
    let target = resolve_new_write_target(&root, Ok(parent), &name).unwrap();
    assert_eq!(target.as_path(), "/ws/nested/new.txt");
}

#[test]
fn write_rejects_targets_outside_workspace() {
    let root = path("/ws");
    let requested = candidate_path(&root, "/tmp/tool-plane-outside-write.txt");
    let (parent, name) = write_target_parts(&requested).unwrap();
    assert!(matches!(
        resolve_new_write_target(&root, Ok(parent), &name),
        Err(AuthorizationError::OutsideWorkspace)
    ));
    let no_name = write_target_parts("/ws/..");
    assert_eq!(
        no_name.unwrap_err().denied_reason(),
        Some("write target must include a file name")
    );
}

#[test]
fn write_target_parts_refuse_missing_name_or_parent() {
    for target in ["", "/", ".."] {
        assert_eq!(
            write_target_parts(target).unwrap_err().denied_reason(),
            Some("write target must include a file name")
        );
    }
    let no_parent = write_target_from_parts(Some("a.txt".to_string()), None);
    assert_eq!(
        no_parent.unwrap_err().denied_reason(),
        Some("write target must have an authorized parent directory")
    );
    let no_name = write_target_from_parts(None, Some("/ws".to_string()));
    assert_eq!(no_name.unwrap_err().denied_reason(), Some("write target must include a file name"));
    let (parent, name) =
        write_target_from_parts(Some("a.txt".to_string()), Some("/ws".to_string())).unwrap();
    assert_eq!((parent.as_str(), name.as_str()), ("/ws", "a.txt"));
}

#[test]
fn write_plans_canonicalize_the_target_or_its_parent() {
    let root = path("/ws");
    let existing = plan_write_target("/ws/old.txt", true).unwrap();
    assert!(matches!(&existing, WriteTargetPlan::Existing { requested } if requested == "/ws/old.txt"));
    assert_eq!(existing.to_canonicalize(), "/ws/old.txt");
    let resolved = resolve_write_target(&root, &existing, Ok("/ws/real/old.txt".to_string())).unwrap();
    assert_eq!(resolved.as_path(), "/ws/real/old.txt");
    assert!(matches!(
        resolve_write_target(&root, &existing, Ok("/etc/passwd".to_string())),
        Err(AuthorizationError::OutsideWorkspace)
    ));

    let fresh = plan_write_target("/ws/nested/new.txt", false).unwrap();
    assert_eq!(fresh.to_canonicalize(), "/ws/nested");
    let resolved = resolve_write_target(&root, &fresh, Ok("/ws/nested".to_string())).unwrap();
    assert_eq!(resolved.as_path(), "/ws/nested/new.txt");
    assert!(matches!(
        resolve_write_target(&root, &fresh, Err(io_error())),
        Err(AuthorizationError::Io(_))
    ));
    assert!(plan_write_target("/ws/..", false).is_err());
}
