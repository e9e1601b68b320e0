//! Canonical paths and the containment rules that policies and grants use.
//!
//! Paths are held as strings in Unix form. Canonicalization itself touches
//! the filesystem and happens outside this crate; the functions here take its
//! result and decide.
use vstd::prelude::*;
use vstd::string::*;

use crate::error::{AuthorizationDeny, AuthorizationError, CapabilityError};
use crate::text::{is_prefix, owned, starts_with};

verus! {

/// The path is absolute.
pub open spec fn is_absolute(p: Seq<char>) -> bool {
    p.len() > 0 && p[0] == '/'
}

/// `root` joined with `p`: `p` itself when absolute, else `p` appended to
/// `root` with one separator between them.
pub open spec fn join(root: Seq<char>, p: Seq<char>) -> Seq<char> {
    if is_absolute(p) {
        p
    } else if root.len() == 0 {
        p
    } else if root.last() == '/' {
        root + p
    } else {
        root + seq!['/'] + p
    }
}

/// `p` lies at or under `root`, comparing whole components.
pub open spec fn path_within(root: Seq<char>, p: Seq<char>) -> bool {
    ||| root.len() == 0
    ||| p == root
    ||| {
        &&& is_prefix(root, p)
        &&& root.len() < p.len()
        &&& (root.last() == '/' || p[root.len() as int] == '/')
    }
}

/// Containment of paths is reflexive and transitive.
pub proof fn law_path_within_order(a: Seq<char>, b: Seq<char>, c: Seq<char>)
    ensures
        path_within(a, a),
        path_within(a, b) && path_within(b, c) ==> path_within(a, c),
{
    if path_within(a, b) && path_within(b, c) && a.len() != 0 && c != a {
        if b == a {
        } else if c == b {
        } else {
            assert(c.take(a.len() as int) =~= a) by {
                assert(c.take(b.len() as int) == b);
                assert(b.take(a.len() as int) == a);
                assert forall|i: int| 0 <= i < a.len() implies c.take(a.len() as int)[i] == a[i] by {
                    assert(c[i] == c.take(b.len() as int)[i]);
                    assert(b[i] == b.take(a.len() as int)[i]);
                }
            }
            if a.last() != '/' {
                assert(b[a.len() as int] == '/');
                assert(c[a.len() as int] == c.take(b.len() as int)[a.len() as int]);
            }
        }
    }
}

/// Whole-component containment, character by character: `p` lies at or under
/// `d` exactly when `d` is empty, or `p` starts with the characters of `d` and
/// either ends there, or `d` ends with `/`, or `p` continues with `/`.
pub proof fn lemma_path_within_chars(d: Seq<char>, p: Seq<char>)
    ensures
        path_within(d, p) <==> (d.len() == 0 || (d.len() <= p.len() && (forall|i: int|
            0 <= i < d.len() ==> #[trigger] p[i] == d[i]) && (p.len() == d.len() || d[d.len() - 1]
            == '/' || p[d.len() as int] == '/'))),
{
    if d.len() <= p.len() && (forall|i: int| 0 <= i < d.len() ==> #[trigger] p[i] == d[i]) {
        assert(p.take(d.len() as int) =~= d);
        if p.len() == d.len() {
            assert(p =~= d);
        }
    }
    if path_within(d, p) && d.len() != 0 && p != d {
        assert forall|i: int| 0 <= i < d.len() implies #[trigger] p[i] == d[i] by {
            assert(p.take(d.len() as int)[i] == p[i]);
        }
    }
}

/// A path produced by canonicalization: absolute, with symlinks and `.`/`..`
/// resolved.
#[derive(Debug)]
pub struct CanonicalPath {
    path: String,
}

impl View for CanonicalPath {
    type V = Seq<char>;

    closed spec fn view(&self) -> Seq<char> {
        self.path@
    }
}

impl Clone for CanonicalPath {
    fn clone(&self) -> (r: Self)
        ensures
            r@ == self@,
    {
        CanonicalPath { path: self.path.clone() }
    }
}

impl CanonicalPath {
    /// Wraps a path that the filesystem returned from canonicalization.
    pub fn from_canonicalized(path: String) -> (r: Self)
        ensures
            r@ == path@,
    {
        CanonicalPath { path }
    }

    pub fn as_path(&self) -> (r: &str)
        ensures
            r@ == self@,
    {
        self.path.as_str()
    }

    /// This path lies at or under `root`.
    pub fn starts_with(&self, root: &CanonicalPath) -> (r: bool)
        ensures
            r == path_within(root@, self@),
    {
        within(root.as_path(), self.as_path())
    }

    /// `self` joined with a relative component.
    pub fn join(&self, component: &str) -> (r: CanonicalPath)
        ensures
            r@ == join(self@, component@),
    {
        CanonicalPath { path: candidate_path(self, component) }
    }
}

/// Whether `p` lies at or under `root`.
pub fn within(root: &str, p: &str) -> (r: bool)
    ensures
        r == path_within(root@, p@),
{
    let n = root.unicode_len();
    let m = p.unicode_len();
    if n == 0 {
        return true;
    }
    if !starts_with(p, root) {
        proof {
            if p@ == root@ {
                assert(p@.take(p@.len() as int) =~= p@);
            }
        }
        return false;
    }
    if m == n {
        proof {
            assert(p@ =~= p@.take(n as int));
        }
        return true;
    }
    if root.get_char(n - 1) == '/' {
        return true;
    }
    let r = p.get_char(n) == '/';
    proof {
        if !r {
            assert(p@ != root@) by {
                assert(p@.len() != root@.len());
            }
        }
    }
    r
}

/// The path a request names: `path` when absolute, else `path` under `root`.
pub fn candidate_path(root: &CanonicalPath, path: &str) -> (r: String)
    ensures
        r@ == join(root@, path@),
{
    let absolute = path.unicode_len() > 0 && path.get_char(0) == '/';
    if absolute {
        return owned(path);
    }
    let base = root.as_path();
    let n = base.unicode_len();
    if n == 0 {
        owned(path)
    } else if base.get_char(n - 1) == '/' {
        owned(base).concat(path)
    } else {
        proof {
            reveal_strlit("/");
        }
        let with_sep = owned(base).concat("/");
        proof {
            assert(with_sep@ =~= root@ + seq!['/']);
        }
        with_sep.concat(path)
    }
}

/// Accepts `candidate` when it lies under `root`.
pub fn ensure_under_root(root: &CanonicalPath, candidate: &CanonicalPath) -> (r: Result<
    (),
    AuthorizationError,
>)
    ensures
        r is Ok <==> path_within(root@, candidate@),
        r matches Err(e) ==> e is OutsideWorkspace,
{
    if candidate.starts_with(root) {
        Ok(())
    } else {
        Err(AuthorizationError::OutsideWorkspace)
    }
}

/// Resolves a read target from its canonicalization: an I/O failure stays an
/// I/O error, a path outside `root` is refused.
pub fn resolve_under_authorization(
    root: &CanonicalPath,
    canonicalized: Result<String, std::io::Error>,
) -> (r: Result<CanonicalPath, AuthorizationError>)
    ensures
        match canonicalized {
            Ok(c) => match r {
                Ok(p) => p@ == c@ && path_within(root@, c@),
                Err(e) => e is OutsideWorkspace && !path_within(root@, c@),
            },
            Err(_) => r matches Err(e) && e is Io,
        },
{
    match canonicalized {
        Ok(c) => {
            let p = CanonicalPath::from_canonicalized(c);
            match ensure_under_root(root, &p) {
                Ok(()) => Ok(p),
                Err(e) => Err(e),
            }
        },
        Err(e) => Err(AuthorizationError::Io(e)),
    }
}

/// Resolves a path under a grant's scope from its canonicalization: a path
/// outside the scope is a grant mismatch.
pub fn resolve_under_capability(
    root: &CanonicalPath,
    canonicalized: Result<String, std::io::Error>,
) -> (r: Result<CanonicalPath, CapabilityError>)
    ensures
        match canonicalized {
            Ok(c) => match r {
                Ok(p) => p@ == c@ && path_within(root@, c@),
                Err(e) => e is GrantMismatch && !path_within(root@, c@),
            },
            Err(_) => r matches Err(e) && e is Io,
        },
{
    match canonicalized {
        Ok(c) => {
            let p = CanonicalPath::from_canonicalized(c);
            if p.starts_with(root) {
                Ok(p)
            } else {
                Err(CapabilityError::GrantMismatch)
            }
        },
        Err(e) => Err(CapabilityError::Io(e)),
    }
}

/// What `std::path::Path::file_name` returns for a path.
pub uninterp spec fn std_file_name(p: Seq<char>) -> Option<Seq<char>>;

/// What `std::path::Path::parent` returns for a path.
pub uninterp spec fn std_parent(p: Seq<char>) -> Option<Seq<char>>;

/// The path ends in a `..` component: it is `..` or ends with `/..`.
pub open spec fn ends_in_parent_dir(p: Seq<char>) -> bool {
    ||| p == seq!['.', '.']
    ||| (p.len() >= 3 && p.subrange(p.len() - 3, p.len() as int) == seq!['/', '.', '.'])
}

/// Calls `std::path::Path::file_name` on `p`.
///
/// Trusted: the result is named. Of std's documented rules only these are
/// restated: no file name for an empty path, for `/`, or for a path that
/// terminates in `..`. How components are split otherwise (trailing
/// separators, `.` components) is left to the name.
#[verifier::external_body]
fn path_file_name(p: &str) -> (r: Option<String>)
    ensures
        opt_string_view(r) == std_file_name(p@),
        p@.len() == 0 ==> r is None,
        p@ == seq!['/'] ==> r is None,
        ends_in_parent_dir(p@) ==> r is None,
{
    std::path::Path::new(p).file_name().map(|n| n.to_string_lossy().into_owned())
}

/// Calls `std::path::Path::parent` on `p`.
///
/// Trusted: the result is named. Of std's documented rules only these are
/// restated: no parent for the empty path or for the root `/`. The parent of
/// other paths is left to the name.
#[verifier::external_body]
fn path_parent(p: &str) -> (r: Option<String>)
    ensures
        opt_string_view(r) == std_parent(p@),
        p@.len() == 0 ==> r is None,
        p@ == seq!['/'] ==> r is None,
{
    std::path::Path::new(p).parent().map(|d| d.to_string_lossy().into_owned())
}

pub open spec fn opt_string_view(o: Option<String>) -> Option<Seq<char>> {
    match o {
        Some(s) => Some(s@),
        None => None,
    }
}

/// The parent directory and file name of a write target, from what std's
/// `file_name` and `parent` gave for it: a target without a file name, or
/// without a parent, is refused.
pub fn write_target_from_parts(file_name: Option<String>, parent: Option<String>) -> (r: Result<
    (String, String),
    AuthorizationError,
>)
    ensures
        match (opt_string_view(file_name), opt_string_view(parent)) {
            (Some(name), Some(dir)) => r matches Ok((p, n)) && p@ == dir && n@ == name,
            (None, _) => r matches Err(AuthorizationError::Denied(d)) && d@.reason
                == "write target must include a file name"@ && d@.record is None,
            (Some(_), None) => r matches Err(AuthorizationError::Denied(d)) && d@.reason
                == "write target must have an authorized parent directory"@ && d@.record is None,
        },
{
    let file_name = match file_name {
        Some(n) => n,
        None => {
            return Err(
                AuthorizationError::Denied(
                    AuthorizationDeny::new(owned("write target must include a file name")),
                ),
            );
        },
    };
    let parent = match parent {
        Some(p) => p,
        None => {
            return Err(
                AuthorizationError::Denied(
                    AuthorizationDeny::new(
                        owned("write target must have an authorized parent directory"),
                    ),
                ),
            );
        },
    };
    Ok((parent, file_name))
}

/// Splits a write target that does not exist yet into its parent directory
/// and its file name; a target without either is refused.
pub fn write_target_parts(requested: &str) -> (r: Result<(String, String), AuthorizationError>)
    ensures
        match (std_file_name(requested@), std_parent(requested@)) {
            (Some(name), Some(parent)) => r matches Ok((p, n)) && p@ == parent && n@ == name,
            (None, _) => r matches Err(AuthorizationError::Denied(d)) && d@.reason
                == "write target must include a file name"@ && d@.record is None,
            (Some(_), None) => r matches Err(AuthorizationError::Denied(d)) && d@.reason
                == "write target must have an authorized parent directory"@ && d@.record is None,
        },
        requested@.len() == 0 || requested@ == seq!['/'] || ends_in_parent_dir(requested@) ==> (
        r matches Err(AuthorizationError::Denied(d)) && d@.reason
            == "write target must include a file name"@),
{
    write_target_from_parts(path_file_name(requested), path_parent(requested))
}

/// Resolves a new write target from the canonicalization of its parent: the
/// parent must lie under `root`, and the target is the parent joined with the
/// file name.
pub fn resolve_new_write_target(
    root: &CanonicalPath,
    canonical_parent: Result<String, std::io::Error>,
    file_name: &str,
) -> (r: Result<CanonicalPath, AuthorizationError>)
    ensures
        match canonical_parent {
            Ok(c) => match r {
                Ok(p) => path_within(root@, c@) && p@ == join(c@, file_name@),
                Err(e) => e is OutsideWorkspace && !path_within(root@, c@),
            },
            Err(_) => r matches Err(e) && e is Io,
        },
{
    let parent = resolve_under_authorization(root, canonical_parent)?;
    Ok(parent.join(file_name))
}

/// Where a write goes, before the filesystem has canonicalized it.
#[derive(Debug)]
pub enum WriteTargetPlan {
    /// The target exists: it is canonicalized as a whole.
    Existing { requested: String },
    /// The target does not exist yet: its parent is canonicalized, and the
    /// file name is joined to the result.
    New { parent: String, file_name: String },
}

impl WriteTargetPlan {
    /// The path to canonicalize next.
    pub fn to_canonicalize(&self) -> (r: &str)
        ensures
            r@ == (match self {
                WriteTargetPlan::Existing { requested } => requested@,
                WriteTargetPlan::New { parent, .. } => parent@,
            }),
    {
        match self {
            WriteTargetPlan::Existing { requested } => requested.as_str(),
            WriteTargetPlan::New { parent, .. } => parent.as_str(),
        }
    }
}

/// Plans a write to `requested` (already joined to the workspace root):
/// an existing target is canonicalized as a whole; a new one is split into
/// its parent and file name, and refused when it has neither.
pub fn plan_write_target(requested: &str, exists: bool) -> (r: Result<
    WriteTargetPlan,
    AuthorizationError,
>)
    ensures
        exists ==> (r matches Ok(WriteTargetPlan::Existing { requested: q }) && q@ == requested@),
        !exists ==> match (std_file_name(requested@), std_parent(requested@)) {
            (Some(name), Some(dir)) => r matches Ok(WriteTargetPlan::New { parent, file_name })
                && parent@ == dir && file_name@ == name,
            (None, _) => r matches Err(AuthorizationError::Denied(d)) && d@.reason
                == "write target must include a file name"@ && d@.record is None,
            (Some(_), None) => r matches Err(AuthorizationError::Denied(d)) && d@.reason
                == "write target must have an authorized parent directory"@ && d@.record is None,
        },
{
    if exists {
        return Ok(WriteTargetPlan::Existing { requested: owned(requested) });
    }
    let (parent, file_name) = write_target_parts(requested)?;
    Ok(WriteTargetPlan::New { parent, file_name })
}

/// Resolves a planned write from the canonicalization of the path the plan
/// names: the canonical path must lie under `root`; for a new target the file
/// name is joined to its canonical parent.
pub fn resolve_write_target(
    root: &CanonicalPath,
    plan: &WriteTargetPlan,
    canonicalized: Result<String, std::io::Error>,
) -> (r: Result<CanonicalPath, AuthorizationError>)
    ensures
        match canonicalized {
            Ok(c) => match r {
                Ok(p) => path_within(root@, c@) && p@ == (match plan {
                    WriteTargetPlan::Existing { .. } => c@,
                    WriteTargetPlan::New { file_name, .. } => join(c@, file_name@),
                }),
                Err(e) => e is OutsideWorkspace && !path_within(root@, c@),
            },
            Err(_) => r matches Err(e) && e is Io,
        },
{
    match plan {
        WriteTargetPlan::Existing { .. } => resolve_under_authorization(root, canonicalized),
        WriteTargetPlan::New { file_name, .. } => resolve_new_write_target(
            root,
            canonicalized,
            file_name.as_str(),
        ),
    }
}

/// The canonical form of a planned write target, from the canonicalization of
/// the path the plan names: an existing target is its canonical path; a new
/// one is its canonical parent joined with its file name. A failed
/// canonicalization is handed back.
pub fn canonical_write_target(
    plan: &WriteTargetPlan,
    canonicalized: Result<String, std::io::Error>,
) -> (r: Result<CanonicalPath, std::io::Error>)
    ensures
        match canonicalized {
            Ok(c) => r matches Ok(p) && p@ == (match plan {
                WriteTargetPlan::Existing { .. } => c@,
                WriteTargetPlan::New { file_name, .. } => join(c@, file_name@),
            }),
            Err(_) => r is Err,
        },
{
    match canonicalized {
        Ok(c) => {
            let p = CanonicalPath::from_canonicalized(c);
            match plan {
                WriteTargetPlan::Existing { .. } => Ok(p),
                WriteTargetPlan::New { file_name, .. } => Ok(p.join(file_name.as_str())),
            }
        },
        Err(e) => Err(e),
    }
}

} // verus!
