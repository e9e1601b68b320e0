//! Scoped grants: opaque tokens that carry the path or URL they authorize,
//! issued after a declared-capability check and narrowed by downgrades.
//!
//! A grant stores its scope, so consuming it takes no second path that could
//! disagree with it; a path used under a directory or workspace grant must
//! lie inside the grant's scope.
use vstd::prelude::*;

use crate::capability::{Capabilities, Capability};
use crate::contract::GrantId;
use crate::error::{AuthorizationError, CapabilityError};
use crate::grant::{next_raw, GrantIdAllocator};
use crate::network::{lookup_last, StaticNetworkBackend};
use crate::path::{
    path_within, resolve_under_authorization, resolve_under_capability, CanonicalPath,
};
use crate::text::owned;

verus! {

/// What a read grant covers.
#[derive(Debug, Clone)]
pub enum ReadGrantScope {
    File { path: String },
    Directory { directory: String },
    Workspace { root: String },
}

/// Grant for one precise file.
#[derive(Debug)]
pub struct FileReadGrant {
    id: GrantId,
    path: CanonicalPath,
}

impl FileReadGrant {
    pub closed spec fn spec_id(&self) -> GrantId {
        self.id
    }

    pub closed spec fn spec_path(&self) -> Seq<char> {
        self.path@
    }

    fn issue(ids: &mut GrantIdAllocator, path: CanonicalPath) -> (r: Self)
        ensures
            r.spec_id()@ == old(ids).peek(),
            r.spec_path() == path@,
            final(ids).peek() == next_raw(old(ids).peek()),
    {
        FileReadGrant { id: ids.issue(), path }
    }

    pub fn id(&self) -> (r: GrantId)
        ensures
            r == self.spec_id(),
    {
        self.id
    }

    /// The file the grant authorizes.
    pub fn path(&self) -> (r: &CanonicalPath)
        ensures
            r@ == self.spec_path(),
    {
        &self.path
    }

    pub fn scope(&self) -> (r: ReadGrantScope)
        ensures
            r matches ReadGrantScope::File { path } && path@ == self.spec_path(),
    {
        ReadGrantScope::File { path: owned(self.path.as_path()) }
    }
}

/// Grant for all reads under one precise directory.
#[derive(Debug)]
pub struct DirectoryReadGrant {
    id: GrantId,
    directory: CanonicalPath,
}

impl DirectoryReadGrant {
    pub closed spec fn spec_id(&self) -> GrantId {
        self.id
    }

    pub closed spec fn spec_directory(&self) -> Seq<char> {
        self.directory@
    }

    fn issue(ids: &mut GrantIdAllocator, directory: CanonicalPath) -> (r: Self)
        ensures
            r.spec_id()@ == old(ids).peek(),
            r.spec_directory() == directory@,
            final(ids).peek() == next_raw(old(ids).peek()),
    {
        DirectoryReadGrant { id: ids.issue(), directory }
    }

    pub fn id(&self) -> (r: GrantId)
        ensures
            r == self.spec_id(),
    {
        self.id
    }

    /// The directory the grant covers.
    pub fn directory(&self) -> (r: &CanonicalPath)
        ensures
            r@ == self.spec_directory(),
    {
        &self.directory
    }

    pub fn scope(&self) -> (r: ReadGrantScope)
        ensures
            r matches ReadGrantScope::Directory { directory } && directory@
                == self.spec_directory(),
    {
        ReadGrantScope::Directory { directory: owned(self.directory.as_path()) }
    }
}

/// Grant for all reads under the invocation workspace root.
#[derive(Debug)]
pub struct WorkspaceReadGrant {
    id: GrantId,
    root: CanonicalPath,
}

impl WorkspaceReadGrant {
    pub closed spec fn spec_id(&self) -> GrantId {
        self.id
    }

    pub closed spec fn spec_root(&self) -> Seq<char> {
        self.root@
    }

    fn issue(ids: &mut GrantIdAllocator, root: CanonicalPath) -> (r: Self)
        ensures
            r.spec_id()@ == old(ids).peek(),
            r.spec_root() == root@,
            final(ids).peek() == next_raw(old(ids).peek()),
    {
        WorkspaceReadGrant { id: ids.issue(), root }
    }

    pub fn id(&self) -> (r: GrantId)
        ensures
            r == self.spec_id(),
    {
        self.id
    }

    /// The workspace root the grant covers.
    pub fn root(&self) -> (r: &CanonicalPath)
        ensures
            r@ == self.spec_root(),
    {
        &self.root
    }

    pub fn scope(&self) -> (r: ReadGrantScope)
        ensures
            r matches ReadGrantScope::Workspace { root } && root@ == self.spec_root(),
    {
        ReadGrantScope::Workspace { root: owned(self.root.as_path()) }
    }
}

/// The context of one tool invocation in the tool plane: the tool's declared
/// capabilities, the canonical workspace root, and the network it may reach.
#[derive(Debug)]
pub struct ToolPlaneContext {
    declared: Capabilities,
    workspace_root: CanonicalPath,
    network: NetworkAccess,
}

impl ToolPlaneContext {
    pub closed spec fn spec_declared(&self) -> Capabilities {
        self.declared
    }

    pub closed spec fn spec_root(&self) -> Seq<char> {
        self.workspace_root@
    }

    pub closed spec fn spec_network(&self) -> NetworkAccess {
        self.network
    }

    /// The context of a tool that declared `declared`, working under the
    /// canonical `workspace_root`.
    pub fn new(declared: Capabilities, network: NetworkAccess, workspace_root: CanonicalPath) -> (r:
        Self)
        ensures
            r.spec_declared() == declared,
            r.spec_root() == workspace_root@,
            r.spec_network() == network,
    {
        ToolPlaneContext { declared, workspace_root, network }
    }

    /// The filesystem sub-context.
    pub fn fs(&self) -> (r: FsContext<'_>)
        ensures
            r.spec_declared() == self.spec_declared(),
            r.spec_root() == self.spec_root(),
    {
        FsContext { parent: self }
    }

    /// The network sub-context.
    pub fn network(&self) -> (r: NetworkContext<'_>)
        ensures
            r.spec_declared() == self.spec_declared(),
            r.spec_network() == self.spec_network(),
    {
        NetworkContext { parent: self }
    }
}

/// The filesystem sub-context of a tool invocation: it issues read grants
/// and checks the paths used under them. Canonicalizing a path touches the
/// filesystem and happens before these calls; they take its result.
#[derive(Debug)]
pub struct FsContext<'a> {
    parent: &'a ToolPlaneContext,
}

impl<'a> FsContext<'a> {
    pub closed spec fn spec_declared(&self) -> Capabilities {
        self.parent.declared
    }

    pub closed spec fn spec_root(&self) -> Seq<char> {
        self.parent.workspace_root@
    }

    /// Refuses unless the tool declared `FsRead`.
    pub fn ensure_fs_read_capability(&self) -> (r: Result<(), AuthorizationError>)
        ensures
            r is Ok <==> self.spec_declared().has(Capability::FsRead),
            r matches Err(e) ==> e == AuthorizationError::MissingCapability(Capability::FsRead),
    {
        if !self.parent.declared.allows(Capability::FsRead) {
            return Err(AuthorizationError::MissingCapability(Capability::FsRead));
        }
        Ok(())
    }

    /// Authorizes reading one exact file, given the canonicalization of the
    /// requested path, and issues a file-scoped grant.
    pub fn grant_file_read(
        &self,
        ids: &mut GrantIdAllocator,
        canonicalized: Result<String, std::io::Error>,
    ) -> (r: Result<FileReadGrant, AuthorizationError>)
        ensures
            !self.spec_declared().has(Capability::FsRead) ==> (r matches Err(e) && e
                == AuthorizationError::MissingCapability(Capability::FsRead)),
            self.spec_declared().has(Capability::FsRead) ==> match canonicalized {
                Ok(c) => if path_within(self.spec_root(), c@) {
                    r matches Ok(g) && g.spec_path() == c@ && g.spec_id()@ == old(ids).peek()
                } else {
                    r matches Err(e) && e is OutsideWorkspace
                },
                Err(_) => r matches Err(e) && e is Io,
            },
            r is Ok ==> final(ids).peek() == next_raw(old(ids).peek()),
            r is Err ==> final(ids).peek() == old(ids).peek(),
    {
        self.ensure_fs_read_capability()?;
        let path = resolve_under_authorization(&self.parent.workspace_root, canonicalized)?;
        Ok(FileReadGrant::issue(ids, path))
    }

    /// Authorizes reads under a directory, given the canonicalization of the
    /// requested directory, and issues a directory-scoped grant.
    pub fn grant_directory_read(
        &self,
        ids: &mut GrantIdAllocator,
        canonicalized: Result<String, std::io::Error>,
    ) -> (r: Result<DirectoryReadGrant, AuthorizationError>)
        ensures
            !self.spec_declared().has(Capability::FsRead) ==> (r matches Err(e) && e
                == AuthorizationError::MissingCapability(Capability::FsRead)),
            self.spec_declared().has(Capability::FsRead) ==> match canonicalized {
                Ok(c) => if path_within(self.spec_root(), c@) {
                    r matches Ok(g) && g.spec_directory() == c@ && g.spec_id()@ == old(ids).peek()
                } else {
                    r matches Err(e) && e is OutsideWorkspace
                },
                Err(_) => r matches Err(e) && e is Io,
            },
            r is Ok ==> final(ids).peek() == next_raw(old(ids).peek()),
            r is Err ==> final(ids).peek() == old(ids).peek(),
    {
        self.ensure_fs_read_capability()?;
        let directory = resolve_under_authorization(&self.parent.workspace_root, canonicalized)?;
        Ok(DirectoryReadGrant::issue(ids, directory))
    }

    /// Authorizes reads under the whole workspace root.
    pub fn grant_workspace_read(&self, ids: &mut GrantIdAllocator) -> (r: Result<
        WorkspaceReadGrant,
        AuthorizationError,
    >)
        ensures
            !self.spec_declared().has(Capability::FsRead) ==> (r matches Err(e) && e
                == AuthorizationError::MissingCapability(Capability::FsRead)),
            self.spec_declared().has(Capability::FsRead) ==> (r matches Ok(g) && g.spec_root()
                == self.spec_root() && g.spec_id()@ == old(ids).peek()),
            r is Ok ==> final(ids).peek() == next_raw(old(ids).peek()),
            r is Err ==> final(ids).peek() == old(ids).peek(),
    {
        self.ensure_fs_read_capability()?;
        Ok(WorkspaceReadGrant::issue(ids, self.parent.workspace_root.clone()))
    }

    /// Narrows a directory grant to one file under the same directory.
    pub fn downgrade_directory_to_file(
        &self,
        ids: &mut GrantIdAllocator,
        grant: &DirectoryReadGrant,
        canonicalized: Result<String, std::io::Error>,
    ) -> (r: Result<FileReadGrant, CapabilityError>)
        ensures
            match canonicalized {
                Ok(c) => if path_within(grant.spec_directory(), c@) {
                    r matches Ok(g) && g.spec_path() == c@ && g.spec_id()@ == old(ids).peek()
                } else {
                    r matches Err(e) && e is GrantMismatch
                },
                Err(_) => r matches Err(e) && e is Io,
            },
            r is Ok ==> final(ids).peek() == next_raw(old(ids).peek()),
            r is Err ==> final(ids).peek() == old(ids).peek(),
    {
        let path = resolve_under_capability(grant.directory(), canonicalized)?;
        Ok(FileReadGrant::issue(ids, path))
    }

    /// Narrows a workspace grant to one directory under the workspace root.
    pub fn downgrade_workspace_to_directory(
        &self,
        ids: &mut GrantIdAllocator,
        grant: &WorkspaceReadGrant,
        canonicalized: Result<String, std::io::Error>,
    ) -> (r: Result<DirectoryReadGrant, CapabilityError>)
        ensures
            match canonicalized {
                Ok(c) => if path_within(grant.spec_root(), c@) {
                    r matches Ok(g) && g.spec_directory() == c@ && g.spec_id()@ == old(ids).peek()
                } else {
                    r matches Err(e) && e is GrantMismatch
                },
                Err(_) => r matches Err(e) && e is Io,
            },
            r is Ok ==> final(ids).peek() == next_raw(old(ids).peek()),
            r is Err ==> final(ids).peek() == old(ids).peek(),
    {
        let directory = resolve_under_capability(grant.root(), canonicalized)?;
        Ok(DirectoryReadGrant::issue(ids, directory))
    }

    /// Narrows a workspace grant to one file under the workspace root.
    pub fn downgrade_workspace_to_file(
        &self,
        ids: &mut GrantIdAllocator,
        grant: &WorkspaceReadGrant,
        canonicalized: Result<String, std::io::Error>,
    ) -> (r: Result<FileReadGrant, CapabilityError>)
        ensures
            match canonicalized {
                Ok(c) => if path_within(grant.spec_root(), c@) {
                    r matches Ok(g) && g.spec_path() == c@ && g.spec_id()@ == old(ids).peek()
                } else {
                    r matches Err(e) && e is GrantMismatch
                },
                Err(_) => r matches Err(e) && e is Io,
            },
            r is Ok ==> final(ids).peek() == next_raw(old(ids).peek()),
            r is Err ==> final(ids).peek() == old(ids).peek(),
    {
        let path = resolve_under_capability(grant.root(), canonicalized)?;
        Ok(FileReadGrant::issue(ids, path))
    }

    /// The file a read under a directory grant touches: the canonical path,
    /// which must lie under the grant's directory.
    pub fn read_target_in_directory(
        &self,
        grant: &DirectoryReadGrant,
        canonicalized: Result<String, std::io::Error>,
    ) -> (r: Result<CanonicalPath, CapabilityError>)
        ensures
            match canonicalized {
                Ok(c) => match r {
                    Ok(p) => p@ == c@ && path_within(grant.spec_directory(), c@),
                    Err(e) => e is GrantMismatch && !path_within(grant.spec_directory(), c@),
                },
                Err(_) => r matches Err(e) && e is Io,
            },
    {
        resolve_under_capability(grant.directory(), canonicalized)
    }

    /// The file a read under a workspace grant touches: the canonical path,
    /// which must lie under the grant's root.
    pub fn read_target_in_workspace(
        &self,
        grant: &WorkspaceReadGrant,
        canonicalized: Result<String, std::io::Error>,
    ) -> (r: Result<CanonicalPath, CapabilityError>)
        ensures
            match canonicalized {
                Ok(c) => match r {
                    Ok(p) => p@ == c@ && path_within(grant.spec_root(), c@),
                    Err(e) => e is GrantMismatch && !path_within(grant.spec_root(), c@),
                },
                Err(_) => r matches Err(e) && e is Io,
            },
    {
        resolve_under_capability(grant.root(), canonicalized)
    }
}

/// Downgrades never widen a grant: a file reached from a workspace grant
/// through a directory grant lies under the workspace root.
pub proof fn law_downgrade_confined(root: Seq<char>, directory: Seq<char>, file: Seq<char>)
    ensures
        path_within(root, directory) && path_within(directory, file) ==> path_within(root, file),
{
    crate::path::law_path_within_order(root, directory, file);
}

// ---------------------------------------------------------------------------
// Network grants
// ---------------------------------------------------------------------------
/// What a network grant covers.
#[derive(Debug, Clone)]
pub enum NetworkGrantScope {
    Url { url: String },
    AnyUrl,
}

/// Grant for fetching one precise URL.
#[derive(Debug)]
pub struct UrlFetchGrant {
    id: GrantId,
    url: String,
}

impl UrlFetchGrant {
    pub closed spec fn spec_id(&self) -> GrantId {
        self.id
    }

    pub closed spec fn spec_url(&self) -> Seq<char> {
        self.url@
    }

    fn issue(ids: &mut GrantIdAllocator, url: String) -> (r: Self)
        ensures
            r.spec_id()@ == old(ids).peek(),
            r.spec_url() == url@,
            final(ids).peek() == next_raw(old(ids).peek()),
    {
        UrlFetchGrant { id: ids.issue(), url }
    }

    pub fn id(&self) -> (r: GrantId)
        ensures
            r == self.spec_id(),
    {
        self.id
    }

    pub fn url(&self) -> (r: &str)
        ensures
            r@ == self.spec_url(),
    {
        self.url.as_str()
    }

    pub fn scope(&self) -> (r: NetworkGrantScope)
        ensures
            r matches NetworkGrantScope::Url { url } && url@ == self.spec_url(),
    {
        NetworkGrantScope::Url { url: self.url.clone() }
    }
}

/// Grant for fetching any URL.
#[derive(Debug)]
pub struct AnyUrlFetchGrant {
    id: GrantId,
}

impl AnyUrlFetchGrant {
    pub closed spec fn spec_id(&self) -> GrantId {
        self.id
    }

    fn issue(ids: &mut GrantIdAllocator) -> (r: Self)
        ensures
            r.spec_id()@ == old(ids).peek(),
            final(ids).peek() == next_raw(old(ids).peek()),
    {
        AnyUrlFetchGrant { id: ids.issue() }
    }

    pub fn id(&self) -> (r: GrantId)
        ensures
            r == self.spec_id(),
    {
        self.id
    }

    pub fn scope(&self) -> (r: NetworkGrantScope)
        ensures
            r is AnyUrl,
    {
        NetworkGrantScope::AnyUrl
    }
}

/// Network access that denies every fetch.
#[derive(Debug, Clone, Copy)]
pub struct DenyNetwork;

impl DenyNetwork {
    pub fn fetch_url(&self, url: &str) -> (r: Result<Vec<u8>, CapabilityError>)
        ensures
            r matches Err(CapabilityError::Denied),
    {
        Err(CapabilityError::Denied)
    }
}

/// In-memory network access for deterministic runs.
#[derive(Debug)]
pub struct StaticNetwork {
    table: StaticNetworkBackend,
}

impl StaticNetwork {
    pub closed spec fn table(&self) -> Seq<(Seq<char>, Seq<u8>)> {
        self.table.table()
    }

    /// Answers from `responses`; when a URL appears twice, the later entry wins.
    pub fn new(responses: Vec<(String, Vec<u8>)>) -> (r: Self)
        ensures
            r.table() == responses@.map_values(|e: (String, Vec<u8>)| (e.0@, e.1@)),
    {
        StaticNetwork { table: StaticNetworkBackend::new(responses) }
    }

    pub fn fetch_url(&self, url: &str) -> (r: Result<Vec<u8>, CapabilityError>)
        ensures
            match lookup_last(self.table(), url@) {
                Some(body) => r matches Ok(b) && b@ == body,
                None => r matches Err(CapabilityError::Denied),
            },
    {
        self.table.fetch_raw(url)
    }
}

/// Which network the tool plane talks to.
#[derive(Debug)]
pub enum NetworkAccess {
    Deny(DenyNetwork),
    Static(StaticNetwork),
}

impl NetworkAccess {
    pub open spec fn answer(&self, url: Seq<char>) -> Option<Seq<u8>> {
        match self {
            NetworkAccess::Deny(_) => None,
            NetworkAccess::Static(s) => lookup_last(s.table(), url),
        }
    }

    pub fn fetch_url(&self, url: &str) -> (r: Result<Vec<u8>, CapabilityError>)
        ensures
            match self.answer(url@) {
                Some(body) => r matches Ok(b) && b@ == body,
                None => r matches Err(CapabilityError::Denied),
            },
    {
        match self {
            NetworkAccess::Deny(d) => d.fetch_url(url),
            NetworkAccess::Static(s) => s.fetch_url(url),
        }
    }
}

/// The network sub-context of a tool invocation: it issues URL grants to
/// tools that declared `NetworkFetch` and fetches only through them.
#[derive(Debug)]
pub struct NetworkContext<'a> {
    parent: &'a ToolPlaneContext,
}

impl<'a> NetworkContext<'a> {
    pub closed spec fn spec_declared(&self) -> Capabilities {
        self.parent.declared
    }

    pub closed spec fn spec_network(&self) -> NetworkAccess {
        self.parent.network
    }

    /// Refuses unless the tool declared `NetworkFetch`.
    pub fn ensure_network_capability(&self) -> (r: Result<(), AuthorizationError>)
        ensures
            r is Ok <==> self.spec_declared().has(Capability::NetworkFetch),
            r matches Err(e) ==> e == AuthorizationError::MissingCapability(
                Capability::NetworkFetch,
            ),
    {
        if !self.parent.declared.allows(Capability::NetworkFetch) {
            return Err(AuthorizationError::MissingCapability(Capability::NetworkFetch));
        }
        Ok(())
    }

    /// Authorizes fetching one exact URL.
    pub fn grant_url_fetch(&self, ids: &mut GrantIdAllocator, url: &str) -> (r: Result<
        UrlFetchGrant,
        AuthorizationError,
    >)
        ensures
            self.spec_declared().has(Capability::NetworkFetch) ==> (r matches Ok(g) && g.spec_url()
                == url@ && g.spec_id()@ == old(ids).peek() && final(ids).peek() == next_raw(old(ids).peek())),
            !self.spec_declared().has(Capability::NetworkFetch) ==> (r matches Err(e) && e
                == AuthorizationError::MissingCapability(Capability::NetworkFetch) && final(ids).peek() == old(ids).peek()),
    {
        self.ensure_network_capability()?;
        Ok(UrlFetchGrant::issue(ids, owned(url)))
    }

    /// Authorizes generic network fetches.
    pub fn grant_any_url_fetch(&self, ids: &mut GrantIdAllocator) -> (r: Result<
        AnyUrlFetchGrant,
        AuthorizationError,
    >)
        ensures
            self.spec_declared().has(Capability::NetworkFetch) ==> (r matches Ok(g)
                && g.spec_id()@ == old(ids).peek() && final(ids).peek() == next_raw(old(ids).peek())),
            !self.spec_declared().has(Capability::NetworkFetch) ==> (r matches Err(e) && e
                == AuthorizationError::MissingCapability(Capability::NetworkFetch) && final(ids).peek() == old(ids).peek()),
    {
        self.ensure_network_capability()?;
        Ok(AnyUrlFetchGrant::issue(ids))
    }

    /// Narrows a generic network grant to one URL.
    pub fn downgrade_any_url_to_url(
        &self,
        ids: &mut GrantIdAllocator,
        grant: &AnyUrlFetchGrant,
        url: &str,
    ) -> (r: Result<UrlFetchGrant, CapabilityError>)
        ensures
            r matches Ok(g) && g.spec_url() == url@ && g.spec_id()@ == old(ids).peek(),
            final(ids).peek() == next_raw(old(ids).peek()),
    {
        Ok(UrlFetchGrant::issue(ids, owned(url)))
    }

    /// Consumes a URL grant; the URL is the one the grant carries.
    pub fn fetch_url(&self, grant: &UrlFetchGrant) -> (r: Result<Vec<u8>, CapabilityError>)
        ensures
            match self.spec_network().answer(grant.spec_url()) {
                Some(body) => r matches Ok(b) && b@ == body,
                None => r matches Err(CapabilityError::Denied),
            },
    {
        self.parent.network.fetch_url(grant.url())
    }

    /// Consumes a generic grant for one URL.
    pub fn fetch_any_url(&self, grant: &AnyUrlFetchGrant, url: &str) -> (r: Result<
        Vec<u8>,
        CapabilityError,
    >)
        ensures
            match self.spec_network().answer(url@) {
                Some(body) => r matches Ok(b) && b@ == body,
                None => r matches Err(CapabilityError::Denied),
            },
    {
        self.parent.network.fetch_url(url)
    }
}

} // verus!
