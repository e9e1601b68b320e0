//! Actions: the semantic units that policy understands.
//!
//! Access facades construct an action, ask the policy pipeline for a grant,
//! and only a granted action is executed.
use vstd::prelude::*;
use vstd::string::*;

use crate::capability::{Capabilities, Capability};
use crate::contract::{AuditResource, ResourceView};
use crate::path::CanonicalPath;
use crate::text::owned;

verus! {

/// Which kind of action a value is; action-specific policies are registered
/// per kind.
#[derive(Clone, Copy, Debug, PartialEq, Eq, Structural)]
pub enum ActionKind {
    FsRead,
    FsWrite,
    Fs,
    NetworkFetch,
    MontySessionLoad,
    MontySessionSave,
}

/// An action by its contents.
pub enum ActionView {
    FsRead { path: Seq<char> },
    FsWrite { path: Seq<char>, content: Seq<char> },
    Fs { path: Seq<char> },
    NetworkFetch { url: Seq<char> },
    MontySessionLoad { workspace_root: Seq<char>, session_id: Seq<char> },
    MontySessionSave { workspace_root: Seq<char>, session_id: Seq<char>, bytes: Seq<u8> },
}

/// The audit text of a Monty session key.
pub open spec fn session_key_text(workspace_root: Seq<char>, session_id: Seq<char>) -> Seq<char> {
    workspace_root + "#"@ + session_id
}

impl ActionView {
    pub open spec fn kind(self) -> ActionKind {
        match self {
            ActionView::FsRead { .. } => ActionKind::FsRead,
            ActionView::FsWrite { .. } => ActionKind::FsWrite,
            ActionView::Fs { .. } => ActionKind::Fs,
            ActionView::NetworkFetch { .. } => ActionKind::NetworkFetch,
            ActionView::MontySessionLoad { .. } => ActionKind::MontySessionLoad,
            ActionView::MontySessionSave { .. } => ActionKind::MontySessionSave,
        }
    }

    /// The capability bits the action needs.
    pub open spec fn capability_bits(self) -> u64 {
        match self {
            ActionView::FsRead { .. } => Capability::FsRead.spec_bit(),
            ActionView::FsWrite { .. } => Capability::FsWrite.spec_bit(),
            ActionView::NetworkFetch { .. } => Capability::NetworkFetch.spec_bit(),
            _ => 0,
        }
    }

    /// The stable audit kind of the action.
    pub open spec fn audit_kind(self) -> &'static str {
        match self {
            ActionView::FsRead { .. } => "fs.read",
            ActionView::FsWrite { .. } => "fs.write",
            ActionView::Fs { .. } => "fs.path",
            ActionView::NetworkFetch { .. } => "network.fetch",
            ActionView::MontySessionLoad { .. } => "monty.session.load",
            ActionView::MontySessionSave { .. } => "monty.session.save",
        }
    }

    /// The resource recorded for the action.
    pub open spec fn audit_resource(self) -> ResourceView {
        match self {
            ActionView::FsRead { path } => ResourceView::Path(path),
            ActionView::FsWrite { path, .. } => ResourceView::Path(path),
            ActionView::Fs { path } => ResourceView::Path(path),
            ActionView::NetworkFetch { url } => ResourceView::Value(url),
            ActionView::MontySessionLoad { workspace_root, session_id } => ResourceView::Value(
                session_key_text(workspace_root, session_id),
            ),
            ActionView::MontySessionSave { workspace_root, session_id, .. } => ResourceView::Value(
                session_key_text(workspace_root, session_id),
            ),
        }
    }
}

/// An action of any kind, as the policy pipeline evaluates it.
#[derive(Debug)]
pub enum PolicyAction {
    FsRead(FsReadAction),
    FsWrite(FsWriteAction),
    Fs(FsAction),
    NetworkFetch(NetworkFetchAction),
    MontySessionLoad(MontySessionLoadAction),
    MontySessionSave(MontySessionSaveAction),
}

/// A primitive authority-bearing action.
///
/// Its view says what it is; `policy_action` hands the pipeline a copy.
pub trait Action: Sized {
    spec fn spec_view(&self) -> ActionView;

    fn policy_action(&self) -> (r: PolicyAction)
        ensures
            r@ == self.spec_view(),
    ;

    fn capabilities(&self) -> (r: Capabilities)
        ensures
            r@ == self.spec_view().capability_bits(),
    ;

    /// Stable audit kind for grant and execute records.
    fn audit_kind(&self) -> (r: &'static str)
        ensures
            r == self.spec_view().audit_kind(),
    ;

    /// Audit resource attached to grant and execute records.
    fn audit_resource(&self) -> (r: AuditResource)
        ensures
            r@ == self.spec_view().audit_resource(),
    ;
}

impl View for PolicyAction {
    type V = ActionView;

    open spec fn view(&self) -> ActionView {
        match self {
            PolicyAction::FsRead(a) => a.action_view(),
            PolicyAction::FsWrite(a) => a.action_view(),
            PolicyAction::Fs(a) => a.action_view(),
            PolicyAction::NetworkFetch(a) => a.action_view(),
            PolicyAction::MontySessionLoad(a) => a.action_view(),
            PolicyAction::MontySessionSave(a) => a.action_view(),
        }
    }
}

impl PolicyAction {
    pub fn kind(&self) -> (r: ActionKind)
        ensures
            r == self@.kind(),
    {
        match self {
            PolicyAction::FsRead(_) => ActionKind::FsRead,
            PolicyAction::FsWrite(_) => ActionKind::FsWrite,
            PolicyAction::Fs(_) => ActionKind::Fs,
            PolicyAction::NetworkFetch(_) => ActionKind::NetworkFetch,
            PolicyAction::MontySessionLoad(_) => ActionKind::MontySessionLoad,
            PolicyAction::MontySessionSave(_) => ActionKind::MontySessionSave,
        }
    }
}

impl Action for PolicyAction {
    open spec fn spec_view(&self) -> ActionView {
        self@
    }

    fn policy_action(&self) -> (r: PolicyAction) {
        match self {
            PolicyAction::FsRead(a) => a.policy_action(),
            PolicyAction::FsWrite(a) => a.policy_action(),
            PolicyAction::Fs(a) => a.policy_action(),
            PolicyAction::NetworkFetch(a) => a.policy_action(),
            PolicyAction::MontySessionLoad(a) => a.policy_action(),
            PolicyAction::MontySessionSave(a) => a.policy_action(),
        }
    }

    fn capabilities(&self) -> (r: Capabilities) {
        match self {
            PolicyAction::FsRead(a) => a.capabilities(),
            PolicyAction::FsWrite(a) => a.capabilities(),
            PolicyAction::Fs(a) => a.capabilities(),
            PolicyAction::NetworkFetch(a) => a.capabilities(),
            PolicyAction::MontySessionLoad(a) => a.capabilities(),
            PolicyAction::MontySessionSave(a) => a.capabilities(),
        }
    }

    fn audit_kind(&self) -> (r: &'static str) {
        match self {
            PolicyAction::FsRead(a) => a.audit_kind(),
            PolicyAction::FsWrite(a) => a.audit_kind(),
            PolicyAction::Fs(a) => a.audit_kind(),
            PolicyAction::NetworkFetch(a) => a.audit_kind(),
            PolicyAction::MontySessionLoad(a) => a.audit_kind(),
            PolicyAction::MontySessionSave(a) => a.audit_kind(),
        }
    }

    fn audit_resource(&self) -> (r: AuditResource) {
        match self {
            PolicyAction::FsRead(a) => a.audit_resource(),
            PolicyAction::FsWrite(a) => a.audit_resource(),
            PolicyAction::Fs(a) => a.audit_resource(),
            PolicyAction::NetworkFetch(a) => a.audit_resource(),
            PolicyAction::MontySessionLoad(a) => a.audit_resource(),
            PolicyAction::MontySessionSave(a) => a.audit_resource(),
        }
    }
}

fn path_resource(path: &CanonicalPath) -> (r: AuditResource)
    ensures
        r@ == ResourceView::Path(path@),
{
    AuditResource::Path(owned(path.as_path()))
}

/// Read one canonical file.
#[derive(Debug)]
pub struct FsReadAction {
    path: CanonicalPath,
}

impl FsReadAction {
    pub fn new(path: CanonicalPath) -> (r: Self)
        ensures
            r.spec_view() == (ActionView::FsRead { path: path@ }),
    {
        FsReadAction { path }
    }

    pub fn path(&self) -> (r: &CanonicalPath)
        ensures
            self.spec_view() == (ActionView::FsRead { path: r@ }),
    {
        &self.path
    }
}

impl FsReadAction {
    /// What the action is.
    pub closed spec fn spec_path(&self) -> Seq<char> {
        self.path@
    }

    pub open spec fn action_view(&self) -> ActionView {
        ActionView::FsRead { path: self.spec_path() }
    }
}

impl Action for FsReadAction {
    open spec fn spec_view(&self) -> ActionView {
        self.action_view()
    }

    fn policy_action(&self) -> (r: PolicyAction) {
        PolicyAction::FsRead(FsReadAction { path: self.path.clone() })
    }

    fn capabilities(&self) -> (r: Capabilities) {
        Capabilities::from_capability(Capability::FsRead)
    }

    fn audit_kind(&self) -> (r: &'static str) {
        "fs.read"
    }

    fn audit_resource(&self) -> (r: AuditResource) {
        path_resource(&self.path)
    }
}

/// Write `content` to one canonical file.
#[derive(Debug)]
pub struct FsWriteAction {
    path: CanonicalPath,
    content: String,
}

impl FsWriteAction {
    pub fn new(path: CanonicalPath, content: String) -> (r: Self)
        ensures
            r.spec_view() == (ActionView::FsWrite { path: path@, content: content@ }),
    {
        FsWriteAction { path, content }
    }

    pub fn path(&self) -> (r: &CanonicalPath)
        ensures
            self.spec_view()->FsWrite_path == r@,
            self.spec_view() is FsWrite,
    {
        &self.path
    }

    pub fn content(&self) -> (r: &str)
        ensures
            self.spec_view()->FsWrite_content == r@,
    {
        self.content.as_str()
    }
}

impl FsWriteAction {
    /// What the action is.
    pub closed spec fn spec_path(&self) -> Seq<char> {
        self.path@
    }

    pub closed spec fn spec_content(&self) -> Seq<char> {
        self.content@
    }

    pub open spec fn action_view(&self) -> ActionView {
        ActionView::FsWrite { path: self.spec_path(), content: self.spec_content() }
    }
}

impl Action for FsWriteAction {
    open spec fn spec_view(&self) -> ActionView {
        self.action_view()
    }

    fn policy_action(&self) -> (r: PolicyAction) {
        PolicyAction::FsWrite(
            FsWriteAction { path: self.path.clone(), content: self.content.clone() },
        )
    }

    fn capabilities(&self) -> (r: Capabilities) {
        Capabilities::from_capability(Capability::FsWrite)
    }

    fn audit_kind(&self) -> (r: &'static str) {
        "fs.write"
    }

    fn audit_resource(&self) -> (r: AuditResource) {
        path_resource(&self.path)
    }
}

/// The shared filesystem parent action: any access to one canonical path.
#[derive(Debug)]
pub struct FsAction {
    path: CanonicalPath,
}

impl FsAction {
    pub fn new(path: CanonicalPath) -> (r: Self)
        ensures
            r.spec_view() == (ActionView::Fs { path: path@ }),
    {
        FsAction { path }
    }

    pub fn path(&self) -> (r: &CanonicalPath)
        ensures
            self.spec_view() == (ActionView::Fs { path: r@ }),
    {
        &self.path
    }
}

impl FsAction {
    /// What the action is.
    pub closed spec fn spec_path(&self) -> Seq<char> {
        self.path@
    }

    pub open spec fn action_view(&self) -> ActionView {
        ActionView::Fs { path: self.spec_path() }
    }
}

impl Action for FsAction {
    open spec fn spec_view(&self) -> ActionView {
        self.action_view()
    }

    fn policy_action(&self) -> (r: PolicyAction) {
        PolicyAction::Fs(FsAction { path: self.path.clone() })
    }

    fn capabilities(&self) -> (r: Capabilities) {
        Capabilities::empty()
    }

    fn audit_kind(&self) -> (r: &'static str) {
        "fs.path"
    }

    fn audit_resource(&self) -> (r: AuditResource) {
        path_resource(&self.path)
    }
}

/// Fetch one URL.
#[derive(Debug)]
pub struct NetworkFetchAction {
    url: String,
}

impl NetworkFetchAction {
    pub fn new(url: String) -> (r: Self)
        ensures
            r.spec_view() == (ActionView::NetworkFetch { url: url@ }),
    {
        NetworkFetchAction { url }
    }

    pub fn url(&self) -> (r: &str)
        ensures
            self.spec_view() == (ActionView::NetworkFetch { url: r@ }),
    {
        self.url.as_str()
    }
}

impl NetworkFetchAction {
    /// What the action is.
    pub closed spec fn spec_url(&self) -> Seq<char> {
        self.url@
    }

    pub open spec fn action_view(&self) -> ActionView {
        ActionView::NetworkFetch { url: self.spec_url() }
    }
}

impl Action for NetworkFetchAction {
    open spec fn spec_view(&self) -> ActionView {
        self.action_view()
    }

    fn policy_action(&self) -> (r: PolicyAction) {
        PolicyAction::NetworkFetch(NetworkFetchAction { url: self.url.clone() })
    }

    fn capabilities(&self) -> (r: Capabilities) {
        Capabilities::from_capability(Capability::NetworkFetch)
    }

    fn audit_kind(&self) -> (r: &'static str) {
        "network.fetch"
    }

    fn audit_resource(&self) -> (r: AuditResource) {
        AuditResource::Value(self.url.clone())
    }
}

/// Names one Monty REPL session of one workspace.
#[derive(Debug)]
pub struct MontySessionKey {
    workspace_root: String,
    session_id: String,
}

impl MontySessionKey {
    pub closed spec fn workspace_root(&self) -> Seq<char> {
        self.workspace_root@
    }

    pub closed spec fn session_id(&self) -> Seq<char> {
        self.session_id@
    }

    pub fn new(workspace_root: &str, session_id: &str) -> (r: Self)
        ensures
            r.workspace_root() == workspace_root@,
            r.session_id() == session_id@,
    {
        MontySessionKey { workspace_root: owned(workspace_root), session_id: owned(session_id) }
    }

    /// The key as audit text: the workspace root, `#`, the session id.
    pub fn audit_resource(&self) -> (r: String)
        ensures
            r@ == session_key_text(self.workspace_root(), self.session_id()),
    {
        proof {
            reveal_strlit("#");
        }
        owned(self.workspace_root.as_str()).concat("#").concat(self.session_id.as_str())
    }

    fn duplicate(&self) -> (r: Self)
        ensures
            r.workspace_root() == self.workspace_root(),
            r.session_id() == self.session_id(),
    {
        MontySessionKey {
            workspace_root: self.workspace_root.clone(),
            session_id: self.session_id.clone(),
        }
    }
}

/// Load the saved state of a Monty session.
#[derive(Debug)]
pub struct MontySessionLoadAction {
    key: MontySessionKey,
}

impl MontySessionLoadAction {
    pub fn new(key: MontySessionKey) -> (r: Self)
        ensures
            r.spec_view() == (ActionView::MontySessionLoad {
                workspace_root: key.workspace_root(),
                session_id: key.session_id(),
            }),
    {
        MontySessionLoadAction { key }
    }
}

impl MontySessionLoadAction {
    /// What the action is.
    pub closed spec fn key(&self) -> MontySessionKey {
        self.key
    }

    pub open spec fn action_view(&self) -> ActionView {
        ActionView::MontySessionLoad {
            workspace_root: self.key().workspace_root(),
            session_id: self.key().session_id(),
        }
    }
}

impl Action for MontySessionLoadAction {
    open spec fn spec_view(&self) -> ActionView {
        self.action_view()
    }

    fn policy_action(&self) -> (r: PolicyAction) {
        PolicyAction::MontySessionLoad(MontySessionLoadAction { key: self.key.duplicate() })
    }

    fn capabilities(&self) -> (r: Capabilities) {
        Capabilities::empty()
    }

    fn audit_kind(&self) -> (r: &'static str) {
        "monty.session.load"
    }

    fn audit_resource(&self) -> (r: AuditResource) {
        AuditResource::Value(self.key.audit_resource())
    }
}

/// Persist the state of a Monty session.
#[derive(Debug)]
pub struct MontySessionSaveAction {
    key: MontySessionKey,
    bytes: Vec<u8>,
}

impl MontySessionSaveAction {
    pub fn new(key: MontySessionKey, bytes: Vec<u8>) -> (r: Self)
        ensures
            r.spec_view() == (ActionView::MontySessionSave {
                workspace_root: key.workspace_root(),
                session_id: key.session_id(),
                bytes: bytes@,
            }),
    {
        MontySessionSaveAction { key, bytes }
    }
}

impl MontySessionSaveAction {
    /// What the action is.
    pub closed spec fn key(&self) -> MontySessionKey {
        self.key
    }

    pub closed spec fn spec_bytes(&self) -> Seq<u8> {
        self.bytes@
    }

    pub open spec fn action_view(&self) -> ActionView {
        ActionView::MontySessionSave {
            workspace_root: self.key().workspace_root(),
            session_id: self.key().session_id(),
            bytes: self.spec_bytes(),
        }
    }
}

impl Action for MontySessionSaveAction {
    open spec fn spec_view(&self) -> ActionView {
        self.action_view()
    }

    fn policy_action(&self) -> (r: PolicyAction) {
        PolicyAction::MontySessionSave(
            MontySessionSaveAction { key: self.key.duplicate(), bytes: self.bytes.clone() },
        )
    }

    fn capabilities(&self) -> (r: Capabilities) {
        Capabilities::empty()
    }

    fn audit_kind(&self) -> (r: &'static str) {
        "monty.session.save"
    }

    fn audit_resource(&self) -> (r: AuditResource) {
        AuditResource::Value(self.key.audit_resource())
    }
}

} // verus!
