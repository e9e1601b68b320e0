//! Built-in policies and the context they are evaluated in.
//!
//! Action policies apply to one kind of action; global policies see every
//! action. Each policy answers with a `PolicyGrant`: a decision, a reason and
//! the predicate it evaluated.
use vstd::prelude::*;
use vstd::string::*;

use crate::action::{Action, ActionKind, ActionView, PolicyAction};
use crate::capability::Capabilities;
use crate::contract::{GrantView, PolicyDecision, PolicyGrant};
use crate::path::{
    canonical_write_target, join, lemma_path_within_chars, path_within, within, CanonicalPath,
    WriteTargetPlan,
};
use crate::text::{
    decimal, ends_with, find_char_from, first_index_from, is_suffix, lemma_first_index_from,
    owned, str_equal, u64_to_decimal,
};

verus! {

/// The view of a policy context.
pub struct ContextView {
    pub capabilities: u64,
    pub workspace_root: Seq<char>,
}

/// What policies see of an invocation: its effective capability envelope and
/// its canonical workspace root.
#[derive(Debug)]
pub struct KernelPolicyContext {
    capabilities: Capabilities,
    workspace_root: CanonicalPath,
}

impl View for KernelPolicyContext {
    type V = ContextView;

    closed spec fn view(&self) -> ContextView {
        ContextView { capabilities: self.capabilities@, workspace_root: self.workspace_root@ }
    }
}

impl KernelPolicyContext {
    pub fn new(capabilities: Capabilities, workspace_root: CanonicalPath) -> (r: Self)
        ensures
            r@ == (ContextView { capabilities: capabilities@, workspace_root: workspace_root@ }),
    {
        KernelPolicyContext { capabilities, workspace_root }
    }

    pub fn capabilities(&self) -> (r: Capabilities)
        ensures
            r@ == self@.capabilities,
    {
        self.capabilities
    }

    pub fn workspace_root(&self) -> (r: &CanonicalPath)
        ensures
            r@ == self@.workspace_root,
    {
        &self.workspace_root
    }
}

/// A grant view with a predicate.
pub open spec fn grant_view(
    decision: PolicyDecision,
    reason: Seq<char>,
    predicate: Seq<char>,
) -> GrantView {
    GrantView { decision, reason: Some(reason), predicate: Some(predicate) }
}

fn make_grant(decision: PolicyDecision, reason: &str, predicate: String) -> (r: PolicyGrant)
    ensures
        r@ == grant_view(decision, reason@, predicate@),
{
    let reason = Some(owned(reason));
    let g = match decision {
        PolicyDecision::Allow => PolicyGrant::allow(reason),
        PolicyDecision::Deny => PolicyGrant::deny(reason),
        PolicyDecision::Abstain => PolicyGrant::abstain(reason),
    };
    g.with_predicate(predicate)
}

// ---------------------------------------------------------------------------
// Global policies
// ---------------------------------------------------------------------------
/// Built-in coarse capability gate.
///
/// It only vetoes actions that exceed the current effective capability
/// envelope. Inside the envelope it abstains and lets more specific policies
/// decide.
#[derive(Debug, Clone, Copy)]
pub struct CapabilityEnvelopePolicy;

/// The predicate the capability gate reports.
pub open spec fn envelope_predicate(effective: u64, requested: u64) -> Seq<char> {
    "effective_capabilities contains action_capabilities: "@ + decimal(effective as nat)
        + " contains "@ + decimal(requested as nat)
}

impl CapabilityEnvelopePolicy {
    pub open spec fn grant_spec(ctx: ContextView, action: ActionView) -> GrantView {
        let p = envelope_predicate(ctx.capabilities, action.capability_bits());
        if (ctx.capabilities & action.capability_bits()) == action.capability_bits() {
            grant_view(PolicyDecision::Abstain, "action is within declared capability envelope"@, p)
        } else {
            grant_view(PolicyDecision::Deny, "action exceeds declared capability envelope"@, p)
        }
    }

    pub fn name(&self) -> (r: &'static str)
        ensures
            r == "policy.capability_envelope",
    {
        "policy.capability_envelope"
    }

    pub fn grant(&self, ctx: &KernelPolicyContext, action: &PolicyAction) -> (r: PolicyGrant)
        ensures
            r@ == Self::grant_spec(ctx@, action@),
    {
        let effective = ctx.capabilities();
        let requested = action.capabilities();
        let predicate = owned("effective_capabilities contains action_capabilities: ").concat(
            u64_to_decimal(effective.bits()).as_str(),
        ).concat(" contains ").concat(u64_to_decimal(requested.bits()).as_str());
        if effective.contains(requested) {
            make_grant(
                PolicyDecision::Abstain,
                "action is within declared capability envelope",
                predicate,
            )
        } else {
            make_grant(PolicyDecision::Deny, "action exceeds declared capability envelope", predicate)
        }
    }
}

/// Permissive fallback: allows every action.
#[derive(Debug, Clone, Copy)]
pub struct AllowAllPolicy;

impl AllowAllPolicy {
    pub open spec fn grant_spec() -> GrantView {
        grant_view(PolicyDecision::Allow, "default allow policy granted action"@, "default allow"@)
    }

    pub fn name(&self) -> (r: &'static str)
        ensures
            r == "policy.default_allow",
    {
        "policy.default_allow"
    }

    pub fn grant(&self) -> (r: PolicyGrant)
        ensures
            r@ == Self::grant_spec(),
    {
        make_grant(PolicyDecision::Allow, "default allow policy granted action", owned("default allow"))
    }
}

/// Minimal permissive fallback that allows every action without explanation.
#[derive(Debug, Clone, Copy)]
pub struct DefaultAllowPolicy;

impl DefaultAllowPolicy {
    pub open spec fn grant_spec() -> GrantView {
        GrantView { decision: PolicyDecision::Allow, reason: None, predicate: None }
    }

    pub fn name(&self) -> (r: &'static str)
        ensures
            r == "policy.default_allow",
    {
        "policy.default_allow"
    }

    pub fn grant(&self) -> (r: PolicyGrant)
        ensures
            r@ == Self::grant_spec(),
    {
        PolicyGrant::allow(None)
    }
}

// ---------------------------------------------------------------------------
// Filesystem policies
// ---------------------------------------------------------------------------
pub open spec fn exact_predicate(path: Seq<char>, allowed: Seq<char>) -> Seq<char> {
    "path == allowed: "@ + path + " == "@ + allowed
}

pub open spec fn prefix_predicate(path: Seq<char>, prefix: Seq<char>) -> Seq<char> {
    "path starts_with prefix: "@ + path + " starts_with "@ + prefix
}

pub open spec fn workspace_predicate(path: Seq<char>, root: Seq<char>) -> Seq<char> {
    "path starts_with workspace_root: "@ + path + " starts_with "@ + root
}

fn exact_predicate_text(path: &CanonicalPath, allowed: &CanonicalPath) -> (r: String)
    ensures
        r@ == exact_predicate(path@, allowed@),
{
    owned("path == allowed: ").concat(path.as_path()).concat(" == ").concat(allowed.as_path())
}

fn prefix_predicate_text(path: &CanonicalPath, prefix: &CanonicalPath) -> (r: String)
    ensures
        r@ == prefix_predicate(path@, prefix@),
{
    owned("path starts_with prefix: ").concat(path.as_path()).concat(" starts_with ").concat(
        prefix.as_path(),
    )
}

fn workspace_predicate_text(path: &CanonicalPath, root: &CanonicalPath) -> (r: String)
    ensures
        r@ == workspace_predicate(path@, root@),
{
    owned("path starts_with workspace_root: ").concat(path.as_path()).concat(
        " starts_with ",
    ).concat(root.as_path())
}

/// The decision of a policy that allows on a match and abstains otherwise.
pub open spec fn allow_or_abstain(
    matched: bool,
    allow_reason: Seq<char>,
    abstain_reason: Seq<char>,
    predicate: Seq<char>,
) -> GrantView {
    if matched {
        grant_view(PolicyDecision::Allow, allow_reason, predicate)
    } else {
        grant_view(PolicyDecision::Abstain, abstain_reason, predicate)
    }
}

fn allow_or_abstain_grant(
    matched: bool,
    allow_reason: &str,
    abstain_reason: &str,
    predicate: String,
) -> (r: PolicyGrant)
    ensures
        r@ == allow_or_abstain(matched, allow_reason@, abstain_reason@, predicate@),
{
    if matched {
        make_grant(PolicyDecision::Allow, allow_reason, predicate)
    } else {
        make_grant(PolicyDecision::Abstain, abstain_reason, predicate)
    }
}

/// Allows the shared filesystem action on paths inside the workspace and
/// denies it everywhere else.
#[derive(Debug, Clone, Copy)]
pub struct AllowWorkspaceFsPolicy;

impl AllowWorkspaceFsPolicy {
    pub open spec fn grant_spec(ctx: ContextView, path: Seq<char>) -> GrantView {
        let p = workspace_predicate(path, ctx.workspace_root);
        if path_within(ctx.workspace_root, path) {
            grant_view(PolicyDecision::Allow, "filesystem path is under workspace root"@, p)
        } else {
            grant_view(PolicyDecision::Deny, "filesystem path is outside workspace root"@, p)
        }
    }

    pub fn name(&self) -> (r: &'static str)
        ensures
            r == "fs.allow_path",
    {
        "fs.allow_path"
    }

    pub fn grant(&self, ctx: &KernelPolicyContext, path: &CanonicalPath) -> (r: PolicyGrant)
        ensures
            r@ == Self::grant_spec(ctx@, path@),
    {
        let root = ctx.workspace_root();
        let predicate = workspace_predicate_text(path, root);
        if path.starts_with(root) {
            make_grant(PolicyDecision::Allow, "filesystem path is under workspace root", predicate)
        } else {
            make_grant(PolicyDecision::Deny, "filesystem path is outside workspace root", predicate)
        }
    }
}

/// Allows reading one exact file.
#[derive(Debug, Clone)]
pub struct AllowExactFileReadPolicy {
    allowed: CanonicalPath,
}

impl AllowExactFileReadPolicy {
    pub closed spec fn allowed(&self) -> Seq<char> {
        self.allowed@
    }

    pub open spec fn grant_spec(&self, path: Seq<char>) -> GrantView {
        allow_or_abstain(
            path == self.allowed(),
            "read path matches exact allowed file"@,
            "read path does not match exact allowed file"@,
            exact_predicate(path, self.allowed()),
        )
    }

    /// The policy for the canonical file `path`.
    pub fn new(path: CanonicalPath) -> (r: Self)
        ensures
            r.allowed() == path@,
    {
        AllowExactFileReadPolicy { allowed: path }
    }

    pub fn name(&self) -> (r: &'static str)
        ensures
            r == "fs.allow_exact_file_read",
    {
        "fs.allow_exact_file_read"
    }

    pub fn grant(&self, path: &CanonicalPath) -> (r: PolicyGrant)
        ensures
            r@ == self.grant_spec(path@),
    {
        let matched = str_equal(path.as_path(), self.allowed.as_path());
        allow_or_abstain_grant(
            matched,
            "read path matches exact allowed file",
            "read path does not match exact allowed file",
            exact_predicate_text(path, &self.allowed),
        )
    }
}

/// Allows reading files under one directory.
#[derive(Debug, Clone)]
pub struct AllowFileReadPrefixPolicy {
    prefix: CanonicalPath,
}

impl AllowFileReadPrefixPolicy {
    pub closed spec fn prefix(&self) -> Seq<char> {
        self.prefix@
    }

    pub open spec fn grant_spec(&self, path: Seq<char>) -> GrantView {
        allow_or_abstain(
            path_within(self.prefix(), path),
            "read path is under allowed prefix"@,
            "read path is outside allowed prefix"@,
            prefix_predicate(path, self.prefix()),
        )
    }

    /// The policy for the canonical directory `prefix`.
    pub fn new(prefix: CanonicalPath) -> (r: Self)
        ensures
            r.prefix() == prefix@,
    {
        AllowFileReadPrefixPolicy { prefix }
    }

    pub fn name(&self) -> (r: &'static str)
        ensures
            r == "fs.allow_file_read_prefix",
    {
        "fs.allow_file_read_prefix"
    }

    pub fn grant(&self, path: &CanonicalPath) -> (r: PolicyGrant)
        ensures
            r@ == self.grant_spec(path@),
    {
        allow_or_abstain_grant(
            path.starts_with(&self.prefix),
            "read path is under allowed prefix",
            "read path is outside allowed prefix",
            prefix_predicate_text(path, &self.prefix),
        )
    }
}

/// Allows reading files under the invocation's workspace root.
#[derive(Debug, Clone, Copy)]
pub struct AllowWorkspaceReadPolicy;

impl AllowWorkspaceReadPolicy {
    pub open spec fn grant_spec(ctx: ContextView, path: Seq<char>) -> GrantView {
        allow_or_abstain(
            path_within(ctx.workspace_root, path),
            "read path is under workspace root"@,
            "read path is outside workspace root"@,
            workspace_predicate(path, ctx.workspace_root),
        )
    }

    pub fn name(&self) -> (r: &'static str)
        ensures
            r == "fs.allow_workspace_read",
    {
        "fs.allow_workspace_read"
    }

    pub fn grant(&self, ctx: &KernelPolicyContext, path: &CanonicalPath) -> (r: PolicyGrant)
        ensures
            r@ == Self::grant_spec(ctx@, path@),
    {
        let root = ctx.workspace_root();
        allow_or_abstain_grant(
            path.starts_with(root),
            "read path is under workspace root",
            "read path is outside workspace root",
            workspace_predicate_text(path, root),
        )
    }
}

/// Allows writing one exact file.
#[derive(Debug, Clone)]
pub struct AllowExactFileWritePolicy {
    allowed: CanonicalPath,
}

impl AllowExactFileWritePolicy {
    pub closed spec fn allowed(&self) -> Seq<char> {
        self.allowed@
    }

    pub open spec fn grant_spec(&self, path: Seq<char>) -> GrantView {
        allow_or_abstain(
            path == self.allowed(),
            "write path matches exact allowed file"@,
            "write path does not match exact allowed file"@,
            exact_predicate(path, self.allowed()),
        )
    }

    /// The policy for the canonical file `path`, which need not exist yet.
    pub fn new(path: CanonicalPath) -> (r: Self)
        ensures
            r.allowed() == path@,
    {
        AllowExactFileWritePolicy { allowed: path }
    }

    /// The policy for a file given by a write-target plan and the
    /// canonicalization of the path the plan names: the file itself when it
    /// exists, else its canonical parent joined with its file name. A failed
    /// canonicalization is handed back.
    pub fn existing_or_parent(
        plan: &WriteTargetPlan,
        canonicalized: Result<String, std::io::Error>,
    ) -> (r: Result<Self, std::io::Error>)
        ensures
            match canonicalized {
                Ok(c) => r matches Ok(policy) && policy.allowed() == (match plan {
                    WriteTargetPlan::Existing { .. } => c@,
                    WriteTargetPlan::New { file_name, .. } => join(c@, file_name@),
                }),
                Err(_) => r is Err,
            },
    {
        match canonical_write_target(plan, canonicalized) {
            Ok(path) => Ok(AllowExactFileWritePolicy::new(path)),
            Err(e) => Err(e),
        }
    }

    pub fn name(&self) -> (r: &'static str)
        ensures
            r == "fs.allow_exact_file_write",
    {
        "fs.allow_exact_file_write"
    }

    pub fn grant(&self, path: &CanonicalPath) -> (r: PolicyGrant)
        ensures
            r@ == self.grant_spec(path@),
    {
        let matched = str_equal(path.as_path(), self.allowed.as_path());
        allow_or_abstain_grant(
            matched,
            "write path matches exact allowed file",
            "write path does not match exact allowed file",
            exact_predicate_text(path, &self.allowed),
        )
    }
}

/// Allows writing files under one directory.
#[derive(Debug, Clone)]
pub struct AllowFileWritePrefixPolicy {
    prefix: CanonicalPath,
}

impl AllowFileWritePrefixPolicy {
    pub closed spec fn prefix(&self) -> Seq<char> {
        self.prefix@
    }

    pub open spec fn grant_spec(&self, path: Seq<char>) -> GrantView {
        allow_or_abstain(
            path_within(self.prefix(), path),
            "write path is under allowed prefix"@,
            "write path is outside allowed prefix"@,
            prefix_predicate(path, self.prefix()),
        )
    }

    /// The policy for the canonical directory `prefix`.
    pub fn new(prefix: CanonicalPath) -> (r: Self)
        ensures
            r.prefix() == prefix@,
    {
        AllowFileWritePrefixPolicy { prefix }
    }

    pub fn name(&self) -> (r: &'static str)
        ensures
            r == "fs.allow_file_write_prefix",
    {
        "fs.allow_file_write_prefix"
    }

    pub fn grant(&self, path: &CanonicalPath) -> (r: PolicyGrant)
        ensures
            r@ == self.grant_spec(path@),
    {
        allow_or_abstain_grant(
            path.starts_with(&self.prefix),
            "write path is under allowed prefix",
            "write path is outside allowed prefix",
            prefix_predicate_text(path, &self.prefix),
        )
    }
}

/// Allows writing files under the invocation's workspace root.
#[derive(Debug, Clone, Copy)]
pub struct AllowWorkspaceWritePolicy;

impl AllowWorkspaceWritePolicy {
    pub open spec fn grant_spec(ctx: ContextView, path: Seq<char>) -> GrantView {
        allow_or_abstain(
            path_within(ctx.workspace_root, path),
            "write path is under workspace root"@,
            "write path is outside workspace root"@,
            workspace_predicate(path, ctx.workspace_root),
        )
    }

    pub fn name(&self) -> (r: &'static str)
        ensures
            r == "fs.allow_workspace_write",
    {
        "fs.allow_workspace_write"
    }

    pub fn grant(&self, ctx: &KernelPolicyContext, path: &CanonicalPath) -> (r: PolicyGrant)
        ensures
            r@ == Self::grant_spec(ctx@, path@),
    {
        let root = ctx.workspace_root();
        allow_or_abstain_grant(
            path.starts_with(root),
            "write path is under workspace root",
            "write path is outside workspace root",
            workspace_predicate_text(path, root),
        )
    }
}

// ---------------------------------------------------------------------------
// Network policies
// ---------------------------------------------------------------------------
/// Allows fetching one exact URL.
#[derive(Debug, Clone)]
pub struct AllowExactUrlFetchPolicy {
    url: String,
}

pub open spec fn url_predicate(url: Seq<char>, allowed: Seq<char>) -> Seq<char> {
    "url == allowed_url: "@ + url + " == "@ + allowed
}

impl AllowExactUrlFetchPolicy {
    pub closed spec fn url(&self) -> Seq<char> {
        self.url@
    }

    pub open spec fn grant_spec(&self, url: Seq<char>) -> GrantView {
        allow_or_abstain(
            url == self.url(),
            "URL matches exact allowed URL"@,
            "URL does not match exact allowed URL"@,
            url_predicate(url, self.url()),
        )
    }

    pub fn new(url: String) -> (r: Self)
        ensures
            r.url() == url@,
    {
        AllowExactUrlFetchPolicy { url }
    }

    pub fn name(&self) -> (r: &'static str)
        ensures
            r == "network.allow_exact_url_fetch",
    {
        "network.allow_exact_url_fetch"
    }

    pub fn grant(&self, url: &str) -> (r: PolicyGrant)
        ensures
            r@ == self.grant_spec(url@),
    {
        let predicate = owned("url == allowed_url: ").concat(url).concat(" == ").concat(
            self.url.as_str(),
        );
        allow_or_abstain_grant(
            str_equal(url, self.url.as_str()),
            "URL matches exact allowed URL",
            "URL does not match exact allowed URL",
            predicate,
        )
    }
}

/// The index of the first `://` in `s` at or after `from`.
pub open spec fn first_scheme_sep(s: Seq<char>, from: int) -> Option<int>
    decreases s.len() - from,
{
    if from < 0 || from + 3 > s.len() {
        None
    } else if s[from] == ':' && s[from + 1] == '/' && s[from + 2] == '/' {
        Some(from)
    } else {
        first_scheme_sep(s, from + 1)
    }
}

pub proof fn lemma_first_scheme_sep(s: Seq<char>, from: int)
    requires
        0 <= from,
    ensures
        first_scheme_sep(s, from) matches Some(i) ==> from <= i && i + 3 <= s.len(),
    decreases s.len() - from,
{
    if from + 3 <= s.len() && !(s[from] == ':' && s[from + 1] == '/' && s[from + 2] == '/') {
        lemma_first_scheme_sep(s, from + 1);
    }
}

/// The part of `s` before the first `c`, or all of `s`.
pub open spec fn before_char(s: Seq<char>, c: char) -> Seq<char> {
    match first_index_from(s, c, 0) {
        Some(i) => s.take(i),
        None => s,
    }
}

/// The host of a URL: after the first `://`, up to the first `/`, then up to
/// the first `:`; no host when there is no `://` or the host is empty.
pub open spec fn spec_extract_host(url: Seq<char>) -> Option<Seq<char>> {
    match first_scheme_sep(url, 0) {
        None => None,
        Some(i) => {
            let host = before_char(before_char(url.skip(i + 3), '/'), ':');
            if host.len() == 0 {
                None
            } else {
                Some(host)
            }
        },
    }
}

fn prefix_before_char(s: &str, c: char) -> (r: &str)
    ensures
        r@ == before_char(s@, c),
{
    let n = s.unicode_len();
    proof {
        lemma_first_index_from(s@, c, 0);
    }
    match find_char_from(s, c, 0) {
        Some(i) => s.substring_char(0, i),
        None => {
            proof {
                assert(s@.subrange(0, n as int) =~= s@);
            }
            s.substring_char(0, n)
        },
    }
}

fn find_scheme_sep(url: &str) -> (r: Option<usize>)
    ensures
        match r {
            Some(i) => first_scheme_sep(url@, 0) == Some(i as int),
            None => first_scheme_sep(url@, 0) is None,
        },
{
    let n = url.unicode_len();
    let mut i: usize = 0;
    while i < n && n - i >= 3
        invariant
            n == url@.len(),
            i <= n,
            first_scheme_sep(url@, 0) == first_scheme_sep(url@, i as int),
        decreases n - i,
    {
        if url.get_char(i) == ':' && url.get_char(i + 1) == '/' && url.get_char(i + 2) == '/' {
            return Some(i);
        }
        i = i + 1;
    }
    None
}

/// Extracts the host of a URL.
pub fn extract_host(url: &str) -> (r: Option<&str>)
    ensures
        match r {
            Some(h) => spec_extract_host(url@) == Some(h@),
            None => spec_extract_host(url@) is None,
        },
{
    let n = url.unicode_len();
    proof {
        lemma_first_scheme_sep(url@, 0);
    }
    let start = match find_scheme_sep(url) {
        Some(k) => k + 3,
        None => {
            return None;
        },
    };
    proof {
        lemma_first_scheme_sep(url@, 0);
    }
    let rest = url.substring_char(start, n);
    proof {
        assert(rest@ =~= url@.skip(start as int));
    }
    let host_port = prefix_before_char(rest, '/');
    let host = prefix_before_char(host_port, ':');
    if host.unicode_len() == 0 {
        None
    } else {
        Some(host)
    }
}

/// Allows fetching URLs whose host is the domain or one of its subdomains.
#[derive(Debug, Clone)]
pub struct AllowDomainFetchPolicy {
    domain: String,
}

/// The host matches the domain itself or ends with `.` and the domain.
pub open spec fn host_in_domain(host: Seq<char>, domain: Seq<char>) -> bool {
    host == domain || is_suffix("."@ + domain, host)
}

pub open spec fn domain_predicate(host: Option<Seq<char>>, domain: Seq<char>) -> Seq<char> {
    let h = match host {
        Some(h) => h,
        None => "<none>"@,
    };
    "host == domain || host ends_with .domain: "@ + h + " == "@ + domain + " || "@ + h
        + " ends_with ."@ + domain
}

impl AllowDomainFetchPolicy {
    pub closed spec fn domain(&self) -> Seq<char> {
        self.domain@
    }

    pub open spec fn grant_spec(&self, url: Seq<char>) -> GrantView {
        let host = spec_extract_host(url);
        allow_or_abstain(
            host matches Some(h) && host_in_domain(h, self.domain()),
            "URL host is under allowed domain"@,
            "URL host is outside allowed domain"@,
            domain_predicate(host, self.domain()),
        )
    }

    pub fn new(domain: String) -> (r: Self)
        ensures
            r.domain() == domain@,
    {
        AllowDomainFetchPolicy { domain }
    }

    pub fn name(&self) -> (r: &'static str)
        ensures
            r == "network.allow_domain_fetch",
    {
        "network.allow_domain_fetch"
    }

    pub fn grant(&self, url: &str) -> (r: PolicyGrant)
        ensures
            r@ == self.grant_spec(url@),
    {
        let host = extract_host(url);
        let d = self.domain.as_str();
        let h = match host {
            Some(h) => h,
            None => "<none>",
        };
        let predicate = owned("host == domain || host ends_with .domain: ").concat(h).concat(
            " == ",
        ).concat(d).concat(" || ").concat(h).concat(" ends_with .").concat(d);
        let matched = match host {
            Some(h) => {
                let dotted = owned(".").concat(d);
                str_equal(h, d) || ends_with(h, dotted.as_str())
            },
            None => false,
        };
        allow_or_abstain_grant(
            matched,
            "URL host is under allowed domain",
            "URL host is outside allowed domain",
            predicate,
        )
    }
}

// ---------------------------------------------------------------------------
// Registered forms
// ---------------------------------------------------------------------------
/// A policy for one kind of action.
#[derive(Debug, Clone)]
pub enum ActionPolicy {
    ExactFileRead(AllowExactFileReadPolicy),
    FileReadPrefix(AllowFileReadPrefixPolicy),
    WorkspaceRead(AllowWorkspaceReadPolicy),
    ExactFileWrite(AllowExactFileWritePolicy),
    FileWritePrefix(AllowFileWritePrefixPolicy),
    WorkspaceWrite(AllowWorkspaceWritePolicy),
    WorkspaceFs(AllowWorkspaceFsPolicy),
    ExactUrlFetch(AllowExactUrlFetchPolicy),
    DomainFetch(AllowDomainFetchPolicy),
}

impl ActionPolicy {
    /// The kind of action the policy applies to.
    pub open spec fn kind(self) -> ActionKind {
        match self {
            ActionPolicy::ExactFileRead(_) => ActionKind::FsRead,
            ActionPolicy::FileReadPrefix(_) => ActionKind::FsRead,
            ActionPolicy::WorkspaceRead(_) => ActionKind::FsRead,
            ActionPolicy::ExactFileWrite(_) => ActionKind::FsWrite,
            ActionPolicy::FileWritePrefix(_) => ActionKind::FsWrite,
            ActionPolicy::WorkspaceWrite(_) => ActionKind::FsWrite,
            ActionPolicy::WorkspaceFs(_) => ActionKind::Fs,
            ActionPolicy::ExactUrlFetch(_) => ActionKind::NetworkFetch,
            ActionPolicy::DomainFetch(_) => ActionKind::NetworkFetch,
        }
    }

    pub open spec fn spec_name(self) -> &'static str {
        match self {
            ActionPolicy::ExactFileRead(_) => "fs.allow_exact_file_read",
            ActionPolicy::FileReadPrefix(_) => "fs.allow_file_read_prefix",
            ActionPolicy::WorkspaceRead(_) => "fs.allow_workspace_read",
            ActionPolicy::ExactFileWrite(_) => "fs.allow_exact_file_write",
            ActionPolicy::FileWritePrefix(_) => "fs.allow_file_write_prefix",
            ActionPolicy::WorkspaceWrite(_) => "fs.allow_workspace_write",
            ActionPolicy::WorkspaceFs(_) => "fs.allow_path",
            ActionPolicy::ExactUrlFetch(_) => "network.allow_exact_url_fetch",
            ActionPolicy::DomainFetch(_) => "network.allow_domain_fetch",
        }
    }

    /// The grant of the policy for an action of its kind.
    #[verifier::opaque]
    pub open spec fn grant_spec(self, ctx: ContextView, action: ActionView) -> GrantView {
        match (self, action) {
            (ActionPolicy::ExactFileRead(p), ActionView::FsRead { path }) => p.grant_spec(path),
            (ActionPolicy::FileReadPrefix(p), ActionView::FsRead { path }) => p.grant_spec(path),
            (ActionPolicy::WorkspaceRead(_), ActionView::FsRead { path }) =>
                AllowWorkspaceReadPolicy::grant_spec(ctx, path),
            (ActionPolicy::ExactFileWrite(p), ActionView::FsWrite { path, .. }) => p.grant_spec(path),
            (ActionPolicy::FileWritePrefix(p), ActionView::FsWrite { path, .. }) => p.grant_spec(
                path,
            ),
            (ActionPolicy::WorkspaceWrite(_), ActionView::FsWrite { path, .. }) =>
                AllowWorkspaceWritePolicy::grant_spec(ctx, path),
            (ActionPolicy::WorkspaceFs(_), ActionView::Fs { path }) =>
                AllowWorkspaceFsPolicy::grant_spec(ctx, path),
            (ActionPolicy::ExactUrlFetch(p), ActionView::NetworkFetch { url }) => p.grant_spec(url),
            (ActionPolicy::DomainFetch(p), ActionView::NetworkFetch { url }) => p.grant_spec(url),
            _ => GrantView { decision: PolicyDecision::Abstain, reason: None, predicate: None },
        }
    }

    pub fn kind_of(&self) -> (r: ActionKind)
        ensures
            r == self.kind(),
    {
        match self {
            ActionPolicy::ExactFileRead(_) => ActionKind::FsRead,
            ActionPolicy::FileReadPrefix(_) => ActionKind::FsRead,
            ActionPolicy::WorkspaceRead(_) => ActionKind::FsRead,
            ActionPolicy::ExactFileWrite(_) => ActionKind::FsWrite,
            ActionPolicy::FileWritePrefix(_) => ActionKind::FsWrite,
            ActionPolicy::WorkspaceWrite(_) => ActionKind::FsWrite,
            ActionPolicy::WorkspaceFs(_) => ActionKind::Fs,
            ActionPolicy::ExactUrlFetch(_) => ActionKind::NetworkFetch,
            ActionPolicy::DomainFetch(_) => ActionKind::NetworkFetch,
        }
    }

    pub fn name(&self) -> (r: &'static str)
        ensures
            r == self.spec_name(),
    {
        match self {
            ActionPolicy::ExactFileRead(p) => p.name(),
            ActionPolicy::FileReadPrefix(p) => p.name(),
            ActionPolicy::WorkspaceRead(p) => p.name(),
            ActionPolicy::ExactFileWrite(p) => p.name(),
            ActionPolicy::FileWritePrefix(p) => p.name(),
            ActionPolicy::WorkspaceWrite(p) => p.name(),
            ActionPolicy::WorkspaceFs(p) => p.name(),
            ActionPolicy::ExactUrlFetch(p) => p.name(),
            ActionPolicy::DomainFetch(p) => p.name(),
        }
    }

    /// Evaluates the policy on an action of its kind.
    pub fn grant(&self, ctx: &KernelPolicyContext, action: &PolicyAction) -> (r: PolicyGrant)
        requires
            action@.kind() == self.kind(),
        ensures
            r@ == self.grant_spec(ctx@, action@),
    {
        reveal(ActionPolicy::grant_spec);
        match (self, action) {
            (ActionPolicy::ExactFileRead(p), PolicyAction::FsRead(a)) => p.grant(a.path()),
            (ActionPolicy::FileReadPrefix(p), PolicyAction::FsRead(a)) => p.grant(a.path()),
            (ActionPolicy::WorkspaceRead(p), PolicyAction::FsRead(a)) => p.grant(ctx, a.path()),
            (ActionPolicy::ExactFileWrite(p), PolicyAction::FsWrite(a)) => p.grant(a.path()),
            (ActionPolicy::FileWritePrefix(p), PolicyAction::FsWrite(a)) => p.grant(a.path()),
            (ActionPolicy::WorkspaceWrite(p), PolicyAction::FsWrite(a)) => p.grant(ctx, a.path()),
            (ActionPolicy::WorkspaceFs(p), PolicyAction::Fs(a)) => p.grant(ctx, a.path()),
            (ActionPolicy::ExactUrlFetch(p), PolicyAction::NetworkFetch(a)) => p.grant(a.url()),
            (ActionPolicy::DomainFetch(p), PolicyAction::NetworkFetch(a)) => p.grant(a.url()),
            _ => PolicyGrant::abstain(None),
        }
    }
}

/// The full type name of the action type of a kind.
pub open spec fn action_type_name(kind: ActionKind) -> &'static str {
    match kind {
        ActionKind::FsRead => "mvp_kernel::action::FsReadAction",
        ActionKind::FsWrite => "mvp_kernel::action::FsWriteAction",
        ActionKind::Fs => "mvp_kernel::action::FsAction",
        ActionKind::NetworkFetch => "mvp_kernel::action::NetworkFetchAction",
        ActionKind::MontySessionLoad => "mvp_kernel::action::MontySessionLoadAction",
        ActionKind::MontySessionSave => "mvp_kernel::action::MontySessionSaveAction",
    }
}

fn type_name_of(kind: ActionKind) -> (r: &'static str)
    ensures
        r == action_type_name(kind),
{
    match kind {
        ActionKind::FsRead => "mvp_kernel::action::FsReadAction",
        ActionKind::FsWrite => "mvp_kernel::action::FsWriteAction",
        ActionKind::Fs => "mvp_kernel::action::FsAction",
        ActionKind::NetworkFetch => "mvp_kernel::action::NetworkFetchAction",
        ActionKind::MontySessionLoad => "mvp_kernel::action::MontySessionLoadAction",
        ActionKind::MontySessionSave => "mvp_kernel::action::MontySessionSaveAction",
    }
}

/// An action policy that sees every action: it applies the inner policy to
/// actions of its kind and abstains on all others.
#[derive(Debug, Clone)]
pub struct PolicyAnyWrapper {
    inner: ActionPolicy,
}

impl PolicyAnyWrapper {
    pub closed spec fn inner(&self) -> ActionPolicy {
        self.inner
    }

    pub open spec fn grant_spec(&self, ctx: ContextView, action: ActionView) -> GrantView {
        if action.kind() == self.inner().kind() {
            self.inner().grant_spec(ctx, action)
        } else {
            grant_view(
                PolicyDecision::Abstain,
                "policy does not apply to this action type"@,
                "action downcasts to policy action type: "@ + action_type_name(self.inner().kind())@,
            )
        }
    }

    pub fn new(inner: ActionPolicy) -> (r: Self)
        ensures
            r.inner() == inner,
    {
        PolicyAnyWrapper { inner }
    }

    pub fn name(&self) -> (r: &'static str)
        ensures
            r == self.inner().spec_name(),
    {
        self.inner.name()
    }

    pub fn grant(&self, ctx: &KernelPolicyContext, action: &PolicyAction) -> (r: PolicyGrant)
        ensures
            r@ == self.grant_spec(ctx@, action@),
    {
        reveal(ActionPolicy::grant_spec);
        let kind = self.inner.kind_of();
        if action.kind() == kind {
            self.inner.grant(ctx, action)
        } else {
            make_grant(
                PolicyDecision::Abstain,
                "policy does not apply to this action type",
                owned("action downcasts to policy action type: ").concat(type_name_of(kind)),
            )
        }
    }
}

/// A policy that sees every action.
#[derive(Debug, Clone)]
pub enum GlobalPolicy {
    CapabilityEnvelope(CapabilityEnvelopePolicy),
    AllowAll(AllowAllPolicy),
    DefaultAllow(DefaultAllowPolicy),
    Scoped(PolicyAnyWrapper),
}

impl GlobalPolicy {
    pub open spec fn spec_name(self) -> &'static str {
        match self {
            GlobalPolicy::CapabilityEnvelope(_) => "policy.capability_envelope",
            GlobalPolicy::AllowAll(_) => "policy.default_allow",
            GlobalPolicy::DefaultAllow(_) => "policy.default_allow",
            GlobalPolicy::Scoped(w) => w.inner().spec_name(),
        }
    }

    #[verifier::opaque]
    pub open spec fn grant_spec(self, ctx: ContextView, action: ActionView) -> GrantView {
        match self {
            GlobalPolicy::CapabilityEnvelope(_) => CapabilityEnvelopePolicy::grant_spec(ctx, action),
            GlobalPolicy::AllowAll(_) => AllowAllPolicy::grant_spec(),
            GlobalPolicy::DefaultAllow(_) => DefaultAllowPolicy::grant_spec(),
            GlobalPolicy::Scoped(w) => w.grant_spec(ctx, action),
        }
    }

    pub fn name(&self) -> (r: &'static str)
        ensures
            r == self.spec_name(),
    {
        match self {
            GlobalPolicy::CapabilityEnvelope(p) => p.name(),
            GlobalPolicy::AllowAll(p) => p.name(),
            GlobalPolicy::DefaultAllow(p) => p.name(),
            GlobalPolicy::Scoped(w) => w.name(),
        }
    }

    pub fn grant(&self, ctx: &KernelPolicyContext, action: &PolicyAction) -> (r: PolicyGrant)
        ensures
            r@ == self.grant_spec(ctx@, action@),
    {
        reveal(GlobalPolicy::grant_spec);
        match self {
            GlobalPolicy::CapabilityEnvelope(p) => p.grant(ctx, action),
            GlobalPolicy::AllowAll(p) => p.grant(),
            GlobalPolicy::DefaultAllow(p) => p.grant(),
            GlobalPolicy::Scoped(w) => w.grant(ctx, action),
        }
    }
}

// ---------------------------------------------------------------------------
// Laws of the built-in policies
// ---------------------------------------------------------------------------
/// The workspace-read policy allows a read exactly when the path lies at or
/// under the workspace root by whole components: it starts with the root's
/// characters, then ends, or continues with `/` (or the root ends with `/`).
/// A sibling such as `/wsx/a` next to the root `/ws` is not allowed. It never
/// denies.
pub proof fn law_workspace_read_within_root(ctx: ContextView, p: Seq<char>)
    ensures
        AllowWorkspaceReadPolicy::grant_spec(ctx, p).decision != PolicyDecision::Deny,
        AllowWorkspaceReadPolicy::grant_spec(ctx, p).decision == PolicyDecision::Allow <==> (ctx.workspace_root.len() == 0 || (ctx.workspace_root.len() <= p.len() && (forall|i: int|
                0 <= i < ctx.workspace_root.len() ==> #[trigger] p[i] == ctx.workspace_root[i]) && (p.len() == ctx.workspace_root.len()
                || ctx.workspace_root[ctx.workspace_root.len() - 1] == '/' || p[ctx.workspace_root.len() as int] == '/'))),
{
    lemma_path_within_chars(ctx.workspace_root, p);
}

/// The workspace-write policy allows a write exactly when the path lies at or
/// under the workspace root by whole components. It never denies.
pub proof fn law_workspace_write_within_root(ctx: ContextView, p: Seq<char>)
    ensures
        AllowWorkspaceWritePolicy::grant_spec(ctx, p).decision != PolicyDecision::Deny,
        AllowWorkspaceWritePolicy::grant_spec(ctx, p).decision == PolicyDecision::Allow <==> (ctx.workspace_root.len() == 0 || (ctx.workspace_root.len() <= p.len() && (forall|i: int|
                0 <= i < ctx.workspace_root.len() ==> #[trigger] p[i] == ctx.workspace_root[i]) && (p.len() == ctx.workspace_root.len()
                || ctx.workspace_root[ctx.workspace_root.len() - 1] == '/' || p[ctx.workspace_root.len() as int] == '/'))),
{
    lemma_path_within_chars(ctx.workspace_root, p);
}

/// The shared filesystem policy allows a path at or under the workspace root,
/// by whole components, and denies every other path.
pub proof fn law_workspace_fs_within_root(ctx: ContextView, p: Seq<char>)
    ensures
        AllowWorkspaceFsPolicy::grant_spec(ctx, p).decision != PolicyDecision::Abstain,
        AllowWorkspaceFsPolicy::grant_spec(ctx, p).decision == PolicyDecision::Allow <==> (ctx.workspace_root.len() == 0 || (ctx.workspace_root.len() <= p.len() && (forall|i: int|
                0 <= i < ctx.workspace_root.len() ==> #[trigger] p[i] == ctx.workspace_root[i]) && (p.len() == ctx.workspace_root.len()
                || ctx.workspace_root[ctx.workspace_root.len() - 1] == '/' || p[ctx.workspace_root.len() as int] == '/'))),
{
    lemma_path_within_chars(ctx.workspace_root, p);
}

/// The read-prefix policy allows a read exactly when the path lies at or
/// under its directory by whole components: for the directory `/ws/out`,
/// neither `/ws/output.txt` nor `/ws/outx/a` is allowed. It never denies.
pub proof fn law_read_prefix_within_directory(policy: AllowFileReadPrefixPolicy, p: Seq<char>)
    ensures
        policy.grant_spec(p).decision != PolicyDecision::Deny,
        policy.grant_spec(p).decision == PolicyDecision::Allow <==> (policy.prefix().len() == 0 || (policy.prefix().len() <= p.len() && (forall|i: int|
                0 <= i < policy.prefix().len() ==> #[trigger] p[i] == policy.prefix()[i]) && (p.len() == policy.prefix().len()
                || policy.prefix()[policy.prefix().len() - 1] == '/' || p[policy.prefix().len() as int] == '/'))),
{
    lemma_path_within_chars(policy.prefix(), p);
}

/// The write-prefix policy allows a write exactly when the path lies at or
/// under its directory by whole components: for the directory `/ws/out`,
/// neither `/ws/output.txt` nor `/ws/outx/a` is allowed. It never denies.
pub proof fn law_write_prefix_within_directory(policy: AllowFileWritePrefixPolicy, p: Seq<char>)
    ensures
        policy.grant_spec(p).decision != PolicyDecision::Deny,
        policy.grant_spec(p).decision == PolicyDecision::Allow <==> (policy.prefix().len() == 0 || (policy.prefix().len() <= p.len() && (forall|i: int|
                0 <= i < policy.prefix().len() ==> #[trigger] p[i] == policy.prefix()[i]) && (p.len() == policy.prefix().len()
                || policy.prefix()[policy.prefix().len() - 1] == '/' || p[policy.prefix().len() as int] == '/'))),
{
    lemma_path_within_chars(policy.prefix(), p);
}

/// The exact-read policy allows exactly its own file: same length, same
/// characters. It never denies.
pub proof fn law_exact_read_only_its_file(policy: AllowExactFileReadPolicy, p: Seq<char>)
    ensures
        policy.grant_spec(p).decision != PolicyDecision::Deny,
        policy.grant_spec(p).decision == PolicyDecision::Allow <==> (p.len() == policy.allowed().len() && (forall|i: int| 0 <= i < p.len() ==> #[trigger] p[i] == policy.allowed()[i])),
{
    if (p.len() == policy.allowed().len() && (forall|i: int| 0 <= i < p.len() ==> #[trigger] p[i] == policy.allowed()[i])) {
        assert(p =~= policy.allowed());
    }
}

/// The exact-write policy allows exactly its own file: same length, same
/// characters. It never denies.
pub proof fn law_exact_write_only_its_file(policy: AllowExactFileWritePolicy, p: Seq<char>)
    ensures
        policy.grant_spec(p).decision != PolicyDecision::Deny,
        policy.grant_spec(p).decision == PolicyDecision::Allow <==> (p.len() == policy.allowed().len() && (forall|i: int| 0 <= i < p.len() ==> #[trigger] p[i] == policy.allowed()[i])),
{
    if (p.len() == policy.allowed().len() && (forall|i: int| 0 <= i < p.len() ==> #[trigger] p[i] == policy.allowed()[i])) {
        assert(p =~= policy.allowed());
    }
}

/// The exact-URL policy allows exactly its own URL: same length, same
/// characters; a longer URL that starts with it is not allowed. It never
/// denies.
pub proof fn law_exact_url_only_its_url(policy: AllowExactUrlFetchPolicy, url: Seq<char>)
    ensures
        policy.grant_spec(url).decision != PolicyDecision::Deny,
        policy.grant_spec(url).decision == PolicyDecision::Allow <==> (url.len() == policy.url().len() && (forall|i: int| 0 <= i < url.len() ==> #[trigger] url[i] == policy.url()[i])),
{
    if (url.len() == policy.url().len() && (forall|i: int| 0 <= i < url.len() ==> #[trigger] url[i] == policy.url()[i])) {
        assert(url =~= policy.url());
    }
}

/// The domain policy allows a URL exactly when the URL has a host and the
/// host is the domain itself, or ends with `.` followed by the domain,
/// however many labels come before it (`api.docs.example.test` is under
/// `example.test`; `badexample.test` is not). It never denies.
pub proof fn law_domain_allows_host_and_subdomains(policy: AllowDomainFetchPolicy, url: Seq<char>)
    ensures
        policy.grant_spec(url).decision != PolicyDecision::Deny,
        policy.grant_spec(url).decision == PolicyDecision::Allow <==> (spec_extract_host(url) matches Some(
            h,
        ) && ((h.len() == policy.domain().len() && (forall|i: int| 0 <= i < h.len() ==> #[trigger] h[i] == policy.domain()[i])) || (h.len() > policy.domain().len() && h[h.len()
            - policy.domain().len() - 1] == '.' && (forall|i: int|
            0 <= i < policy.domain().len() ==> #[trigger] h[h.len() - policy.domain().len() + i]
                == policy.domain()[i])))),
{
    let d = policy.domain();
    if let Some(h) = spec_extract_host(url) {
        let dotted = seq!['.'] + d;
        assert("."@ =~= seq!['.']) by {
            reveal_strlit(".");
        }
        if (h.len() == d.len() && (forall|i: int| 0 <= i < h.len() ==> #[trigger] h[i] == d[i])) {
            assert(h =~= d);
        }
        if h.len() > d.len() && h[h.len() - d.len() - 1] == '.' && (forall|i: int|
            0 <= i < d.len() ==> #[trigger] h[h.len() - d.len() + i] == d[i]) {
            assert(h.skip(h.len() - dotted.len()) =~= dotted) by {
                assert forall|i: int| 0 <= i < dotted.len() implies h.skip(h.len() - dotted.len())[i]
                    == dotted[i] by {
                    if i > 0 {
                        assert(h[h.len() - d.len() + (i - 1)] == d[i - 1]);
                    }
                }
            }
        }
        if is_suffix("."@ + d, h) && h != d {
            let t = h.skip(h.len() - dotted.len());
            assert(t == dotted);
            assert(h[h.len() - d.len() - 1] == t[0]);
            assert forall|i: int| 0 <= i < d.len() implies #[trigger] h[h.len() - d.len() + i]
                == d[i] by {
                assert(t[i + 1] == h[h.len() - d.len() + i]);
            }
        }
    }
}

/// `://` stands at position `i` of `s`.
pub open spec fn scheme_sep_at(s: Seq<char>, i: int) -> bool {
    0 <= i && i + 3 <= s.len() && s[i] == ':' && s[i + 1] == '/' && s[i + 2] == '/'
}

proof fn lemma_first_scheme_sep_exact(s: Seq<char>, from: int)
    requires
        0 <= from,
    ensures
        first_scheme_sep(s, from) matches Some(i) ==> from <= i && scheme_sep_at(s, i) && (forall|t: int|
            from <= t < i ==> !#[trigger] scheme_sep_at(s, t)),
        first_scheme_sep(s, from) is None ==> forall|t: int| from <= t ==> !#[trigger] scheme_sep_at(s, t),
    decreases s.len() - from,
{
    if from + 3 <= s.len() && !scheme_sep_at(s, from) {
        lemma_first_scheme_sep_exact(s, from + 1);
        assert forall|t: int| from <= t && !(first_scheme_sep(s, from + 1) matches Some(i) && t >= i) implies !#[trigger] scheme_sep_at(s, t) by {
            if t > from {
            }
        }
    }
}

proof fn lemma_first_index_is(x: Seq<char>, c: char, n: int)
    requires
        0 <= n < x.len(),
        x[n] == c,
        forall|j: int| 0 <= j < n ==> x[j] != c,
    ensures
        first_index_from(x, c, 0) == Some(n),
{
    lemma_first_index_from(x, c, 0);
}

proof fn lemma_first_index_none(x: Seq<char>, c: char)
    requires
        forall|j: int| 0 <= j < x.len() ==> x[j] != c,
    ensures
        first_index_from(x, c, 0) is None,
{
    lemma_first_index_from(x, c, 0);
}

/// The host of a URL is the run of characters after its first `://` up to
/// the next `/` or `:` (or the end): when `s` is the first `://` and the run
/// after it has length `n`, the host is that run if it is not empty, and
/// there is no host if it is. A URL without `://` has no host.
pub proof fn law_host_after_scheme(url: Seq<char>, s: int, n: int)
    ensures
        (forall|t: int| 0 <= t ==> !#[trigger] scheme_sep_at(url, t)) ==> spec_extract_host(url)
            is None,
        scheme_sep_at(url, s) && (forall|t: int| 0 <= t < s ==> !#[trigger] scheme_sep_at(url, t))
            && 0 <= n && s + 3 + n <= url.len() && (forall|k: int|
            0 <= k < n ==> #[trigger] url[s + 3 + k] != '/' && url[s + 3 + k] != ':') && (s + 3 + n
            == url.len() || url[s + 3 + n] == '/' || url[s + 3 + n] == ':') ==> spec_extract_host(url)
            == (if n > 0 {
            Some(url.subrange(s + 3, s + 3 + n))
        } else {
            None
        }),
{
    lemma_first_scheme_sep_exact(url, 0);
    if (forall|t: int| 0 <= t ==> !#[trigger] scheme_sep_at(url, t)) {
        match first_scheme_sep(url, 0) {
            Some(i) => {
                assert(scheme_sep_at(url, i));
            },
            None => {},
        }
    }
    if scheme_sep_at(url, s) && (forall|t: int| 0 <= t < s ==> !#[trigger] scheme_sep_at(url, t))
        && 0 <= n && s + 3 + n <= url.len() && (forall|k: int|
        0 <= k < n ==> #[trigger] url[s + 3 + k] != '/' && url[s + 3 + k] != ':') && (s + 3 + n
        == url.len() || url[s + 3 + n] == '/' || url[s + 3 + n] == ':') {
        assert(first_scheme_sep(url, 0) == Some(s)) by {
            match first_scheme_sep(url, 0) {
                Some(i) => {
                    if i < s {
                        assert(scheme_sep_at(url, i));
                    }
                    if i > s {
                        assert(!scheme_sep_at(url, s));
                    }
                },
                None => {
                    assert(!scheme_sep_at(url, s));
                },
            }
        }
        let rest = url.skip(s + 3);
        assert forall|k: int| 0 <= k < n implies #[trigger] rest[k] != '/' && rest[k] != ':' by {
            assert(rest[k] == url[s + 3 + k]);
        }
        let host_port = before_char(rest, '/');
        let run = rest.take(n);
        if s + 3 + n == url.len() {
            lemma_first_index_none(rest, '/');
            assert(host_port == rest);
            lemma_first_index_none(rest, ':');
            assert(before_char(host_port, ':') == rest);
            assert(rest =~= run);
        } else if url[s + 3 + n] == '/' {
            assert(rest[n] == '/');
            lemma_first_index_is(rest, '/', n);
            assert(host_port == run);
            assert forall|j: int| 0 <= j < run.len() implies run[j] != ':' by {
                assert(run[j] == rest[j]);
            }
            lemma_first_index_none(run, ':');
        } else {
            assert(rest[n] == ':');
            lemma_first_index_from(rest, '/', 0);
            let m = match first_index_from(rest, '/', 0) {
                Some(i) => i,
                None => rest.len() as int,
            };
            assert(m > n) by {
                if m <= n && m < rest.len() {
                    assert(rest[m] == '/');
                }
            }
            assert(host_port =~= rest.take(m));
            assert(host_port[n] == ':');
            assert forall|j: int| 0 <= j < n implies host_port[j] != ':' by {
                assert(host_port[j] == rest[j]);
            }
            lemma_first_index_is(host_port, ':', n);
            assert(before_char(host_port, ':') =~= run);
        }
        assert(run =~= url.subrange(s + 3, s + 3 + n));
    }
}

} // verus!
