use crate::events::DiagnosticEvent;
use vstd::prelude::*;
use vstd::string::*;

verus! {

/// The domain in which a fault was raised.
#[derive(Clone, Copy, Debug, PartialEq, Eq, Structural)]
pub enum ScErrorType {
    Contract,
    WasmVm,
    Context,
    Storage,
    Object,
    Crypto,
    Events,
    Budget,
    Value,
    Auth,
}

/// What went wrong, independent of the domain.
#[derive(Clone, Copy, Debug, PartialEq, Eq, Structural)]
pub enum ScErrorCode {
    ArithDomain,
    IndexBounds,
    InvalidInput,
    MissingValue,
    ExistingValue,
    ExceededLimit,
    InvalidAction,
    InternalError,
    UnexpectedType,
    UnexpectedSize,
}

/// A classified fault: a stable (domain, code) pair.
#[derive(Clone, Copy, Debug, PartialEq, Eq, Structural)]
pub struct Error {
    pub type_: ScErrorType,
    pub code: ScErrorCode,
}

impl Error {
    pub fn from_type_and_code(type_: ScErrorType, code: ScErrorCode) -> (r: Error)
        ensures
            r.type_ == type_,
            r.code == code,
    {
        Error { type_, code }
    }

    pub fn is_type(&self, type_: ScErrorType) -> (r: bool)
        ensures
            r == (self.type_ == type_),
    {
        self.type_ == type_
    }

    pub fn is_code(&self, code: ScErrorCode) -> (r: bool)
        ensures
            r == (self.code == code),
    {
        self.code == code
    }
}

/// The name of a domain.
pub open spec fn domain_text(x: ScErrorType) -> Seq<char> {
    match x {
            ScErrorType::Contract => "Contract"@,
            ScErrorType::WasmVm => "WasmVm"@,
            ScErrorType::Context => "Context"@,
            ScErrorType::Storage => "Storage"@,
            ScErrorType::Object => "Object"@,
            ScErrorType::Crypto => "Crypto"@,
            ScErrorType::Events => "Events"@,
            ScErrorType::Budget => "Budget"@,
            ScErrorType::Value => "Value"@,
            ScErrorType::Auth => "Auth"@,
    }
}

pub fn domain_name(x: ScErrorType) -> (r: &'static str)
    ensures
        r@ == domain_text(x),
{
    match x {
            ScErrorType::Contract => "Contract",
            ScErrorType::WasmVm => "WasmVm",
            ScErrorType::Context => "Context",
            ScErrorType::Storage => "Storage",
            ScErrorType::Object => "Object",
            ScErrorType::Crypto => "Crypto",
            ScErrorType::Events => "Events",
            ScErrorType::Budget => "Budget",
            ScErrorType::Value => "Value",
            ScErrorType::Auth => "Auth",
    }
}

/// The name of a code.
pub open spec fn code_text(x: ScErrorCode) -> Seq<char> {
    match x {
            ScErrorCode::ArithDomain => "ArithDomain"@,
            ScErrorCode::IndexBounds => "IndexBounds"@,
            ScErrorCode::InvalidInput => "InvalidInput"@,
            ScErrorCode::MissingValue => "MissingValue"@,
            ScErrorCode::ExistingValue => "ExistingValue"@,
            ScErrorCode::ExceededLimit => "ExceededLimit"@,
            ScErrorCode::InvalidAction => "InvalidAction"@,
            ScErrorCode::InternalError => "InternalError"@,
            ScErrorCode::UnexpectedType => "UnexpectedType"@,
            ScErrorCode::UnexpectedSize => "UnexpectedSize"@,
    }
}

pub fn code_name(x: ScErrorCode) -> (r: &'static str)
    ensures
        r@ == code_text(x),
{
    match x {
            ScErrorCode::ArithDomain => "ArithDomain",
            ScErrorCode::IndexBounds => "IndexBounds",
            ScErrorCode::InvalidInput => "InvalidInput",
            ScErrorCode::MissingValue => "MissingValue",
            ScErrorCode::ExistingValue => "ExistingValue",
            ScErrorCode::ExceededLimit => "ExceededLimit",
            ScErrorCode::InvalidAction => "InvalidAction",
            ScErrorCode::InternalError => "InternalError",
            ScErrorCode::UnexpectedType => "UnexpectedType",
            ScErrorCode::UnexpectedSize => "UnexpectedSize",
    }
}

/// How a fault is written in diagnostics: `Error(<domain>, <code>)`.
pub open spec fn error_text(e: Error) -> Seq<char> {
    "Error("@ + domain_text(e.type_) + ", "@ + code_text(e.code) + ")"@
}

impl Error {
    pub fn debug_text(&self) -> (r: String)
        ensures
            r@ == error_text(*self),
    {
        let mut r = String::from_str("Error(");
        r.append(domain_name(self.type_));
        r.append(", ");
        r.append(code_name(self.code));
        r.append(")");
        r
    }
}

/// The fault raised when a real or shadow limit has been passed.
pub open spec fn budget_exceeded_error() -> Error {
    Error { type_: ScErrorType::Budget, code: ScErrorCode::ExceededLimit }
}

/// The fault raised when exclusive access to shared host state is refused.
pub open spec fn access_conflict_error() -> Error {
    Error { type_: ScErrorType::Context, code: ScErrorCode::InternalError }
}

/// The placeholder left where a diagnostic argument could not be rendered.
pub open spec fn diagnostic_placeholder_error() -> Error {
    Error { type_: ScErrorType::Events, code: ScErrorCode::InternalError }
}

/// Whether a fault may be caught and turned into a contract-visible outcome.
/// Host-internal errors (outside the contract domain) and exhaustion of the
/// budget or of the storage footprint unwind the whole execution.
pub open spec fn recoverable(e: Error) -> bool {
    !((e.type_ != ScErrorType::Contract && e.code == ScErrorCode::InternalError) || (
    e.code == ScErrorCode::ExceededLimit && (e.type_ == ScErrorType::Storage || e.type_
        == ScErrorType::Budget)))
}

/// A point-in-time diagnostic snapshot attached to a fault: the event log
/// and the call history (one entry per frame, each the frame's symbol names).
#[derive(Clone, Debug)]
pub struct DebugInfo {
    pub events: Vec<DiagnosticEvent>,
    pub backtrace: Vec<Vec<Option<String>>>,
}

/// A classified fault with an optional diagnostic payload.
#[derive(Clone, Debug)]
pub struct HostError {
    pub error: Error,
    pub info: Option<DebugInfo>,
}

/// Whether `res` failed with exactly the fault `code`.
pub open spec fn matches_err<T>(res: Result<T, HostError>, code: Error) -> bool {
    match res {
        Ok(_) => false,
        Err(he) => he.error == code,
    }
}

impl HostError {
    pub fn result_matches_err<T>(res: Result<T, HostError>, code: Error) -> (r: bool)
        ensures
            r == matches_err(res, code),
    {
        match res {
            Ok(_) => false,
            Err(he) => he.error == code,
        }
    }

    /// Identifies whether the error can be meaningfully recovered from.
    pub fn is_recoverable(&self) -> (r: bool)
        ensures
            r == recoverable(self.error),
    {
        if !self.error.is_type(ScErrorType::Contract) && self.error.is_code(
            ScErrorCode::InternalError,
        ) {
            return false;
        }
        if self.error.is_code(ScErrorCode::ExceededLimit) && (self.error.is_type(
            ScErrorType::Storage,
        ) || self.error.is_type(ScErrorType::Budget)) {
            return false;
        }
        true
    }

    pub fn has_debug_info(&self) -> (r: bool)
        ensures
            r == self.info.is_some(),
    {
        self.info.is_some()
    }
}

impl From<Error> for HostError {
    fn from(error: Error) -> (r: HostError) {
        HostError { error, info: None }
    }
}

impl vstd::std_specs::convert::FromSpecImpl<Error> for HostError {
    open spec fn obeys_from_spec() -> bool {
        true
    }

    open spec fn from_spec(error: Error) -> HostError {
        HostError { error, info: None }
    }
}

impl From<HostError> for Error {
    fn from(e: HostError) -> (r: Error) {
        e.error
    }
}

impl vstd::std_specs::convert::FromSpecImpl<HostError> for Error {
    open spec fn obeys_from_spec() -> bool {
        true
    }

    open spec fn from_spec(e: HostError) -> Error {
        e.error
    }
}

/// Two faults are the same when their classifications are; the diagnostic
/// payload takes no part.
impl PartialEq for HostError {
    fn eq(&self, o: &HostError) -> (r: bool) {
        self.error == o.error
    }
}

impl vstd::std_specs::cmp::PartialEqSpecImpl for HostError {
    open spec fn obeys_eq_spec() -> bool {
        true
    }

    open spec fn eq_spec(&self, o: &HostError) -> bool {
        self.error == o.error
    }
}

/// A fault with no diagnostic payload.
pub open spec fn bare(error: Error) -> HostError {
    HostError { error, info: None }
}

} // verus!
