//! Error types of authorization, execution and tool invocation.
use vstd::prelude::*;

use crate::capability::Capability;
use crate::contract::{opt_str_view, GrantRecord, RecordView};
use crate::text::owned;

verus! {

/// std's I/O error, carried through unchanged from the operation that failed.
#[verifier::external_type_specification]
#[verifier::external_body]
pub struct ExIoError(std::io::Error);

/// The view of a denial.
pub struct DenyView {
    pub reason: Seq<char>,
    pub record: Option<RecordView>,
}

/// A denial: the reason, and the grant record when one was written.
#[derive(Debug)]
pub struct AuthorizationDeny {
    reason: String,
    record: Option<GrantRecord>,
}

impl View for AuthorizationDeny {
    type V = DenyView;

    closed spec fn view(&self) -> DenyView {
        DenyView {
            reason: self.reason@,
            record: match self.record {
                Some(r) => Some(r@),
                None => None,
            },
        }
    }
}

/// The reason a denial takes from a record: the record's own, or the default.
pub open spec fn record_deny_reason(record: RecordView) -> Seq<char> {
    match record.reason {
        Some(r) => r,
        None => "policy denied action"@,
    }
}

impl AuthorizationDeny {
    pub fn new(reason: String) -> (r: Self)
        ensures
            r@ == (DenyView { reason: reason@, record: None }),
    {
        AuthorizationDeny { reason, record: None }
    }

    /// A denial backed by a record; its reason is the record's, or
    /// "policy denied action" when the record gives none.
    pub fn from_record(record: GrantRecord) -> (r: Self)
        ensures
            r@ == (DenyView { reason: record_deny_reason(record@), record: Some(record@) }),
    {
        let reason = match record.reason() {
            Some(s) => owned(s),
            None => owned("policy denied action"),
        };
        AuthorizationDeny { reason, record: Some(record) }
    }

    pub fn reason(&self) -> (r: &str)
        ensures
            r@ == self@.reason,
    {
        self.reason.as_str()
    }

    pub fn record(&self) -> (r: Option<&GrantRecord>)
        ensures
            match r {
                Some(rec) => self@.record == Some(rec@),
                None => self@.record is None,
            },
    {
        match &self.record {
            Some(rec) => Some(rec),
            None => None,
        }
    }
}

/// Why an action was not authorized.
#[derive(Debug)]
pub enum AuthorizationError {
    MissingCapability(Capability),
    Denied(AuthorizationDeny),
    OutsideWorkspace,
    Io(std::io::Error),
}

impl AuthorizationError {
    /// The reason of a denial; `None` for the other errors.
    pub fn denied_reason(&self) -> (r: Option<&str>)
        ensures
            opt_str_view(r) == (match self {
                AuthorizationError::Denied(d) => Some(d@.reason),
                _ => None::<Seq<char>>,
            }),
    {
        match self {
            AuthorizationError::Denied(deny) => Some(deny.reason()),
            _ => None,
        }
    }

    /// The record of a denial, when it has one.
    pub fn deny_record(&self) -> (r: Option<&GrantRecord>)
        ensures
            match r {
                Some(rec) => self is Denied && self->Denied_0@.record == Some(rec@),
                None => !(self is Denied) || self->Denied_0@.record is None,
            },
    {
        match self {
            AuthorizationError::Denied(deny) => deny.record(),
            _ => None,
        }
    }
}

/// Why a capability-bearing operation failed.
#[derive(Debug)]
pub enum CapabilityError {
    GrantMismatch,
    Denied,
    Io(std::io::Error),
}

/// Why executing an action failed.
#[derive(Debug)]
pub enum ExecutionError {
    Authorization(AuthorizationError),
    Capability(CapabilityError),
    Other(String),
}

/// Why a tool input could not be parsed.
#[derive(Debug, Clone, Copy)]
pub enum InputError {
    MissingField(&'static str),
    InvalidField(&'static str),
}

/// Why a tool operation failed.
#[derive(Debug)]
pub enum ToolError {
    UnknownTool(String),
    DuplicateTool(String),
    InvalidSpec,
    InvalidInput(InputError),
    Authorization(AuthorizationError),
    Execution(ExecutionError),
}

} // verus!
