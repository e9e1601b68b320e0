//! Tools: JSON payloads, registrations, the catalog of registered tools, the
//! capability envelope of an invocation, and the built-in tools' input and
//! output handling.
use vstd::prelude::*;

use crate::capability::{Capabilities, Capability};
use crate::contract::{OutputClassification, ToolSpec};
use crate::error::{AuthorizationDeny, AuthorizationError, InputError, ToolError};
use crate::text::{debug_format_str, debug_quoted, owned, str_equal};

verus! {

// ---------------------------------------------------------------------------
// Payloads
// ---------------------------------------------------------------------------
/// A JSON value. Numbers keep their source text.
#[derive(Debug)]
pub enum JsonValue {
    Null,
    Bool(bool),
    Number(String),
    String(String),
    Array(Vec<JsonValue>),
    Object(Vec<(String, JsonValue)>),
}

/// The index of the first entry named `key` at or after `from`.
pub open spec fn first_key_from(entries: Seq<(String, JsonValue)>, key: Seq<char>, from: int) -> Option<
    int,
>
    decreases entries.len() - from,
{
    if from < 0 || from >= entries.len() {
        None
    } else if entries[from].0@ == key {
        Some(from)
    } else {
        first_key_from(entries, key, from + 1)
    }
}

pub proof fn lemma_first_key_from(entries: Seq<(String, JsonValue)>, key: Seq<char>, from: int)
    requires
        0 <= from,
    ensures
        first_key_from(entries, key, from) matches Some(i) ==> from <= i < entries.len()
            && entries[i].0@ == key,
    decreases entries.len() - from,
{
    if from < entries.len() && entries[from].0@ != key {
        lemma_first_key_from(entries, key, from + 1);
    }
}

impl JsonValue {
    /// The field named `key` of an object (its first entry of that name);
    /// `None` for other values.
    pub open spec fn spec_field(self, key: Seq<char>) -> Option<JsonValue> {
        match self {
            JsonValue::Object(entries) => match first_key_from(entries@, key, 0) {
                Some(i) => Some(entries@[i].1),
                None => None,
            },
            _ => None,
        }
    }

    /// The text of a string value.
    pub open spec fn spec_as_str(self) -> Option<Seq<char>> {
        match self {
            JsonValue::String(s) => Some(s@),
            _ => None,
        }
    }

    /// The text of the string field `key`, if the field exists and is a string.
    pub open spec fn str_field(self, key: Seq<char>) -> Option<Seq<char>> {
        match self.spec_field(key) {
            Some(v) => v.spec_as_str(),
            None => None,
        }
    }

    fn find_key(entries: &Vec<(String, JsonValue)>, key: &str) -> (r: Option<usize>)
        ensures
            match r {
                Some(i) => first_key_from(entries@, key@, 0) == Some(i as int),
                None => first_key_from(entries@, key@, 0) is None,
            },
    {
        let n = entries.len();
        let mut i: usize = 0;
        while i < n
            invariant
                n == entries@.len(),
                i <= n,
                first_key_from(entries@, key@, 0) == first_key_from(entries@, key@, i as int),
            decreases n - i,
        {
            if str_equal(entries[i].0.as_str(), key) {
                return Some(i);
            }
            i = i + 1;
        }
        None
    }

    /// The field named `key` of an object.
    pub fn get(&self, key: &str) -> (r: Option<&JsonValue>)
        ensures
            match r {
                Some(v) => self.spec_field(key@) == Some(*v),
                None => self.spec_field(key@) is None,
            },
    {
        match self {
            JsonValue::Object(entries) => {
                proof {
                    lemma_first_key_from(entries@, key@, 0);
                }
                match JsonValue::find_key(entries, key) {
                    Some(i) => Some(&entries[i].1),
                    None => None,
                }
            },
            _ => None,
        }
    }

    /// The text of a string value.
    pub fn as_str(&self) -> (r: Option<&str>)
        ensures
            match r {
                Some(s) => self.spec_as_str() == Some(s@),
                None => self.spec_as_str() is None,
            },
    {
        match self {
            JsonValue::String(s) => Some(s.as_str()),
            _ => None,
        }
    }

    /// Takes the field named `key` out of an object.
    pub fn take_field(self, key: &str) -> (r: Option<JsonValue>)
        ensures
            r == self.spec_field(key@),
    {
        match self {
            JsonValue::Object(entries) => {
                proof {
                    lemma_first_key_from(entries@, key@, 0);
                }
                match JsonValue::find_key(&entries, key) {
                    Some(i) => {
                        let mut entries = entries;
                        let (_, v) = entries.remove(i);
                        Some(v)
                    },
                    None => None,
                }
            },
            _ => None,
        }
    }

    /// The text of the string field `key`, owned.
    pub fn get_str(&self, key: &str) -> (r: Option<String>)
        ensures
            match r {
                Some(s) => self.str_field(key@) == Some(s@),
                None => self.str_field(key@) is None,
            },
    {
        match self.get(key) {
            Some(v) => match v.as_str() {
                Some(s) => Some(owned(s)),
                None => None,
            },
            None => None,
        }
    }
}

/// What a tool returns: a JSON payload and how sensitive it is.
#[derive(Debug)]
pub struct ToolOutcome {
    pub payload: JsonValue,
    pub classification: OutputClassification,
}

// ---------------------------------------------------------------------------
// Registrations
// ---------------------------------------------------------------------------
/// std's wall-clock time.
#[verifier::external_type_specification]
#[verifier::external_body]
pub struct ExSystemTime(std::time::SystemTime);

/// Reads the wall clock (`std::time::SystemTime::now`).
///
/// Trusted: nothing is stated of the time it returns.
#[verifier::external_body]
fn system_time_now() -> (r: std::time::SystemTime) {
    std::time::SystemTime::now()
}

/// A tool spec by its views.
pub struct ToolSpecView {
    pub name: Seq<char>,
    pub description: Seq<char>,
    pub capabilities: u64,
}

pub open spec fn spec_view_of(spec: ToolSpec) -> ToolSpecView {
    ToolSpecView {
        name: spec.name@,
        description: spec.description@,
        capabilities: spec.capabilities@,
    }
}

/// A validated tool spec and when it was registered.
#[derive(Debug)]
pub struct ToolRegistration {
    spec: ToolSpec,
    registered_at: std::time::SystemTime,
}

impl ToolRegistration {
    /// The registered spec.
    pub closed spec fn spec_of(&self) -> ToolSpec {
        self.spec
    }

    /// The wall-clock time read when the registration was made.
    pub closed spec fn spec_registered_at(&self) -> std::time::SystemTime {
        self.registered_at
    }

    /// Validates a spec: a tool must have a name.
    pub fn new(spec: ToolSpec) -> (r: Result<Self, ToolError>)
        ensures
            spec.name@.len() == 0 ==> r matches Err(ToolError::InvalidSpec),
            spec.name@.len() != 0 ==> (r matches Ok(reg) && spec_view_of(reg.spec_of()) == spec_view_of(
                spec,
            )),
    {
        if spec.name.as_str().unicode_len() == 0 {
            return Err(ToolError::InvalidSpec);
        }
        Ok(ToolRegistration { spec, registered_at: system_time_now() })
    }

    pub fn spec(&self) -> (r: &ToolSpec)
        ensures
            *r == self.spec_of(),
    {
        &self.spec
    }

    /// When the registration was made: the time it recorded then, the same on
    /// every call.
    pub fn registered_at(&self) -> (r: std::time::SystemTime)
        ensures
            r == self.spec_registered_at(),
    {
        self.registered_at
    }
}

/// The registered tools of a host, by path.
#[derive(Debug)]
pub struct ToolCatalog {
    entries: Vec<(String, ToolRegistration)>,
}

impl ToolCatalog {
    /// The registered paths, in registration order.
    pub closed spec fn paths(&self) -> Seq<Seq<char>> {
        self.entries@.map_values(|e: (String, ToolRegistration)| e.0@)
    }

    /// The registered specs, in registration order.
    pub closed spec fn specs(&self) -> Seq<ToolSpecView> {
        self.entries@.map_values(|e: (String, ToolRegistration)| spec_view_of(e.1.spec_of()))
    }

    /// No path is registered twice.
    pub open spec fn wf(&self) -> bool {
        &&& self.paths().len() == self.specs().len()
        &&& self.paths().no_duplicates()
    }

    pub fn new() -> (r: Self)
        ensures
            r.wf(),
            r.paths().len() == 0,
    {
        let r = ToolCatalog { entries: Vec::new() };
        proof {
            assert(r.paths() =~= Seq::<Seq<char>>::empty());
        }
        r
    }

    fn find(&self, path: &str) -> (r: Option<usize>)
        ensures
            self.paths().len() == self.entries@.len(),
            match r {
                Some(i) => i < self.paths().len() && self.paths()[i as int] == path@,
                None => !self.paths().contains(path@),
            },
    {
        let n = self.entries.len();
        let mut i: usize = 0;
        while i < n
            invariant
                n == self.entries@.len(),
                self.paths().len() == n,
                i <= n,
                forall|j: int| 0 <= j < i ==> self.paths()[j] != path@,
            decreases n - i,
        {
            if str_equal(self.entries[i].0.as_str(), path) {
                return Some(i);
            }
            i = i + 1;
        }
        None
    }

    /// Whether a tool is registered at `path`.
    pub fn contains_key(&self, path: &str) -> (r: bool)
        ensures
            r == self.paths().contains(path@),
    {
        match self.find(path) {
            Some(i) => {
                proof {
                    assert(self.paths()[i as int] == path@);
                }
                true
            },
            None => false,
        }
    }

    /// Registers a tool at `path`. A path already taken is refused with its
    /// `{:?}` form; a spec without a name is refused as invalid.
    pub fn register(&mut self, path: String, spec: ToolSpec) -> (r: Result<(), ToolError>)
        requires
            old(self).wf(),
        ensures
            final(self).wf(),
            old(self).paths().contains(path@) ==> (r matches Err(ToolError::DuplicateTool(p)) && p@
                == debug_quoted(path@)),
            old(self).paths().contains(path@) ==> final(self).paths() == old(self).paths()
                && final(self).specs() == old(self).specs(),
            !old(self).paths().contains(path@) && spec.name@.len() == 0 ==> r is Err && r->Err_0
                is InvalidSpec && final(self).paths() == old(self).paths() && final(self).specs()
                == old(self).specs(),
            !old(self).paths().contains(path@) && spec.name@.len() != 0 ==> r is Ok && final(self).paths() == old(self).paths().push(path@) && final(self).specs() == old(self).specs().push(spec_view_of(spec)),
    {
        if self.contains_key(path.as_str()) {
            return Err(ToolError::DuplicateTool(debug_format_str(path.as_str())));
        }
        let registration = ToolRegistration::new(spec)?;
        let ghost p = path@;
        let ghost sv = spec_view_of(registration.spec_of());
        self.entries.push((path, registration));
        proof {
            assert(self.paths() =~= old(self).paths().push(p));
            assert(self.specs() =~= old(self).specs().push(sv));
            assert forall|i: int, j: int|
                0 <= i < j < self.paths().len() implies self.paths()[i] != self.paths()[j] by {
                if j < old(self).paths().len() {
                    assert(old(self).paths()[i] != old(self).paths()[j]);
                } else {
                    assert(self.paths()[i] == old(self).paths()[i]);
                }
            }
        }
        Ok(())
    }

    /// The registration at `path`; an unknown path is refused with its `{:?}`
    /// form.
    pub fn lookup(&self, path: &str) -> (r: Result<&ToolRegistration, ToolError>)
        requires
            self.wf(),
        ensures
            match r {
                Ok(reg) => exists|i: int|
                    0 <= i < self.paths().len() && self.paths()[i] == path@ && #[trigger] self.specs()[i]
                        == spec_view_of(reg.spec_of()),
                Err(e) => !self.paths().contains(path@) && (e matches ToolError::UnknownTool(p)
                    && p@ == debug_quoted(path@)),
            },
    {
        match self.find(path) {
            Some(i) => {
                let reg = &self.entries[i].1;
                proof {
                    assert(self.specs()[i as int] == spec_view_of(reg.spec_of()));
                }
                Ok(reg)
            },
            None => Err(ToolError::UnknownTool(debug_format_str(path))),
        }
    }
}

/// A lookup gives back what a registration stored: once `path` is registered
/// with `spec` in a catalog where it was free, every entry under `path` holds
/// that spec, so `lookup(path)` returns it; the entries of other paths stay.
pub proof fn law_lookup_after_register(
    before: &ToolCatalog,
    after: &ToolCatalog,
    path: Seq<char>,
    spec: ToolSpec,
)
    requires
        before.wf(),
        !before.paths().contains(path),
        after.paths() == before.paths().push(path),
        after.specs() == before.specs().push(spec_view_of(spec)),
    ensures
        after.paths().contains(path),
        forall|i: int|
            0 <= i < after.paths().len() && #[trigger] after.paths()[i] == path ==> after.specs()[i]
                == spec_view_of(spec),
        forall|i: int|
            0 <= i < before.paths().len() ==> #[trigger] after.paths()[i] == before.paths()[i]
                && after.specs()[i] == before.specs()[i],
{
    assert(after.paths()[before.paths().len() as int] == path);
    assert forall|i: int|
        0 <= i < after.paths().len() && #[trigger] after.paths()[i] == path implies after.specs()[i]
        == spec_view_of(spec) by {
        if i < before.paths().len() {
            assert(before.paths()[i] == path);
        }
    }
}

// ---------------------------------------------------------------------------
// Capability envelopes of invocations
// ---------------------------------------------------------------------------
/// A top-level invocation runs with its override when it gives one, else with
/// the tool's declared capabilities.
pub fn effective_capabilities(declared: Capabilities, capabilities_override: Option<Capabilities>) -> (r:
    Capabilities)
    ensures
        r == (match capabilities_override {
            Some(c) => c,
            None => declared,
        }),
{
    match capabilities_override {
        Some(c) => c,
        None => declared,
    }
}

/// The envelope of a nested invocation: the parent's when no override is
/// given, the override when the parent's envelope contains it; an override
/// that would add capabilities is refused.
pub fn nested_capabilities(parent: Capabilities, capabilities_override: Option<Capabilities>) -> (r:
    Result<Capabilities, ToolError>)
    ensures
        match capabilities_override {
            None => r == Ok::<Capabilities, ToolError>(parent),
            Some(c) => if parent.spec_contains(c) {
                r == Ok::<Capabilities, ToolError>(c)
            } else {
                r matches Err(ToolError::Authorization(AuthorizationError::Denied(d))) && d@.reason
                    == "nested invocation attempted to expand capabilities"@ && d@.record is None
            },
        },
{
    match capabilities_override {
        Some(c) => {
            if !parent.contains(c) {
                return Err(
                    ToolError::Authorization(
                        AuthorizationError::Denied(
                            AuthorizationDeny::new(
                                owned("nested invocation attempted to expand capabilities"),
                            ),
                        ),
                    ),
                );
            }
            Ok(c)
        },
        None => Ok(parent),
    }
}

/// A nested invocation never runs with a capability its parent lacks, however
/// deep the nesting: what a chain of accepted nested overrides reaches is
/// contained in the envelope the chain started from.
pub proof fn law_nested_never_expands(parent: Capabilities, child: Capabilities, grandchild: Capabilities)
    ensures
        parent.spec_contains(child) && child.spec_contains(grandchild) ==> parent.spec_contains(
            grandchild,
        ),
{
    crate::capability::law_contains_order(parent, child, grandchild, Capability::FsRead);
}

// ---------------------------------------------------------------------------
// Built-in tools
// ---------------------------------------------------------------------------
fn tool_spec(name: &str, description: &str, capabilities: Capabilities) -> (r: ToolSpec)
    ensures
        r.name@ == name@,
        r.description@ == description@,
        r.capabilities == capabilities,
{
    ToolSpec { name: owned(name), description: owned(description), capabilities }
}

/// Reads a file of the workspace.
#[derive(Debug, Clone, Copy)]
pub struct ReadFileTool;

/// The input of `read_file`.
#[derive(Debug)]
pub struct ReadFileInput {
    pub path: String,
}

/// The output of `read_file`.
#[derive(Debug)]
pub struct ReadFileOutput {
    pub content: String,
}

impl ReadFileTool {
    pub fn spec(&self) -> (r: ToolSpec)
        ensures
            r.name@ == "read_file"@,
            r.description@ == "Read a file"@,
            r.capabilities@ == Capability::FsRead.spec_bit(),
    {
        tool_spec("read_file", "Read a file", Capabilities::from_capability(Capability::FsRead))
    }

    /// Takes the string field `path`.
    pub fn parse_input(&self, payload: JsonValue) -> (r: Result<ReadFileInput, InputError>)
        ensures
            match payload.str_field("path"@) {
                Some(p) => r matches Ok(i) && i.path@ == p,
                None => r matches Err(InputError::MissingField(f)) && f@ == "path"@,
            },
    {
        match payload.get_str("path") {
            Some(path) => Ok(ReadFileInput { path }),
            None => Err(InputError::MissingField("path")),
        }
    }
}

impl ReadFileOutput {
    /// `{"content": <content>}`, local to the workspace.
    pub fn into_outcome(self) -> (r: ToolOutcome)
        ensures
            r.classification == OutputClassification::WorkspaceLocal,
            r.payload matches JsonValue::Object(entries) && entries@.len() == 1 && entries@[0].0@
                == "content"@ && entries@[0].1.spec_as_str() == Some(self.content@),
    {
        let mut entries: Vec<(String, JsonValue)> = Vec::new();
        entries.push((owned("content"), JsonValue::String(self.content)));
        ToolOutcome {
            payload: JsonValue::Object(entries),
            classification: OutputClassification::WorkspaceLocal,
        }
    }
}

/// Writes a file of the workspace.
#[derive(Debug, Clone, Copy)]
pub struct WriteFileTool;

/// The input of `write_file`.
#[derive(Debug)]
pub struct WriteFileInput {
    pub path: String,
    pub content: String,
}

/// The output of `write_file`.
#[derive(Debug)]
pub struct WriteFileOutput;

impl WriteFileTool {
    pub fn spec(&self) -> (r: ToolSpec)
        ensures
            r.name@ == "write_file"@,
            r.description@ == "Write a file"@,
            r.capabilities@ == Capability::FsWrite.spec_bit(),
    {
        tool_spec("write_file", "Write a file", Capabilities::from_capability(Capability::FsWrite))
    }

    /// Takes the string fields `path` and `content`, in that order.
    pub fn parse_input(&self, payload: JsonValue) -> (r: Result<WriteFileInput, InputError>)
        ensures
            match (payload.str_field("path"@), payload.str_field("content"@)) {
                (Some(p), Some(c)) => r matches Ok(i) && i.path@ == p && i.content@ == c,
                (None, _) => r matches Err(InputError::MissingField(f)) && f@ == "path"@,
                (Some(_), None) => r matches Err(InputError::MissingField(f)) && f@ == "content"@,
            },
    {
        let path = match payload.get_str("path") {
            Some(p) => p,
            None => {
                return Err(InputError::MissingField("path"));
            },
        };
        let content = match payload.get_str("content") {
            Some(c) => c,
            None => {
                return Err(InputError::MissingField("content"));
            },
        };
        Ok(WriteFileInput { path, content })
    }
}

impl WriteFileOutput {
    /// `{"ok": true}`, public.
    pub fn into_outcome(self) -> (r: ToolOutcome)
        ensures
            r.classification == OutputClassification::Public,
            r.payload matches JsonValue::Object(entries) && entries@.len() == 1 && entries@[0].0@
                == "ok"@ && entries@[0].1 == JsonValue::Bool(true),
    {
        let mut entries: Vec<(String, JsonValue)> = Vec::new();
        entries.push((owned("ok"), JsonValue::Bool(true)));
        ToolOutcome { payload: JsonValue::Object(entries), classification: OutputClassification::Public }
    }
}

/// A request to invoke a tool by name with a payload.
#[derive(Debug)]
pub struct ToolRequest {
    pub name: String,
    pub payload: JsonValue,
}

/// Invokes a tool twice and keeps the latter outcome.
#[derive(Debug, Clone, Copy)]
pub struct Double;

impl Double {
    pub fn spec(&self) -> (r: ToolSpec)
        ensures
            r.name@ == "double"@,
            r.description@ == "Invoke a tool twice, picking the latter outcome."@,
            r.capabilities@ == 0,
    {
        tool_spec(
            "double",
            "Invoke a tool twice, picking the latter outcome.",
            Capabilities::empty(),
        )
    }

    /// Takes the string field `name` and the field `payload`, in that order.
    pub fn parse_input(&self, payload: JsonValue) -> (r: Result<ToolRequest, InputError>)
        ensures
            match (payload.str_field("name"@), payload.spec_field("payload"@)) {
                (Some(n), Some(p)) => r matches Ok(req) && req.name@ == n && req.payload == p,
                (None, _) => r matches Err(InputError::MissingField(f)) && f@ == "name"@,
                (Some(_), None) => r matches Err(InputError::MissingField(f)) && f@ == "payload"@,
            },
    {
        let name = match payload.get_str("name") {
            Some(n) => n,
            None => {
                return Err(InputError::MissingField("name"));
            },
        };
        match payload.take_field("payload") {
            Some(p) => Ok(ToolRequest { name, payload: p }),
            None => Err(InputError::MissingField("payload")),
        }
    }
}

} // verus!
