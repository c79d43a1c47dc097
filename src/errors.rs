use vstd::prelude::*;
use vstd::string::StringExecFns;

use crate::text::decimal_string;
use crate::text::decimal;

verus! {

/// A value could not be converted between its host and native forms.
#[derive(Debug, PartialEq, Eq)]
pub enum MarshalError {
    /// The host value has another runtime type than the one expected.
    TypeMismatch,
    /// The host text is not well-formed UTF-8.
    InvalidEncoding,
    /// A record lacks the named required field.
    MissingField(String),
    /// The element at this index of a sequence could not be converted.
    InvalidElement(usize),
}

/// A call into a host function failed.
#[derive(Debug, PartialEq, Eq)]
pub enum CallError {
    /// The host function threw an exception with this message.
    HostThrew(String),
    /// The host function returned a value of the wrong type.
    BadReturnType,
}

/// The arguments of a native operation are outside its domain.
#[derive(PartialEq, Eq, Structural, Clone, Copy, Debug)]
pub enum DomainError {
    /// A division whose divisor is zero.
    DivisionByZero,
    /// A sum that does not fit in a 32-bit signed integer.
    SumOverflow,
}

/// Every failure that native code can report to the host.
#[derive(Debug, PartialEq, Eq)]
pub enum Error {
    /// A value could not cross the boundary.
    Marshal(MarshalError),
    /// A host function that native code called failed.
    Call(CallError),
    /// A native operation refused its arguments.
    Domain(DomainError),
}

/// What the host sees of a native failure: its message.
#[derive(Debug, PartialEq, Eq)]
pub struct HostException {
    pub message: String,
}

pub open spec fn domain_message(e: DomainError) -> Seq<char> {
    match e {
        DomainError::DivisionByZero => "Division by zero"@,
        DomainError::SumOverflow => "Sum overflow"@,
    }
}

pub open spec fn marshal_message(e: MarshalError) -> Seq<char> {
    match e {
        MarshalError::TypeMismatch => "Type mismatch"@,
        MarshalError::InvalidEncoding => "Invalid encoding"@,
        MarshalError::MissingField(name) => "Missing field: "@ + name@,
        MarshalError::InvalidElement(i) => "Invalid element at index "@ + decimal(i as nat),
    }
}

pub open spec fn call_message(e: CallError) -> Seq<char> {
    match e {
        CallError::HostThrew(m) => m@,
        CallError::BadReturnType => "Bad return type"@,
    }
}

/// The message text that crosses the boundary for a native failure.
pub open spec fn message_of(e: Error) -> Seq<char> {
    match e {
        Error::Marshal(m) => marshal_message(m),
        Error::Call(c) => call_message(c),
        Error::Domain(d) => domain_message(d),
    }
}

impl DomainError {
    /// The message that describes this error.
    pub fn message(&self) -> (r: String)
        ensures
            r@ == domain_message(*self),
    {
        match self {
            DomainError::DivisionByZero => String::from_str("Division by zero"),
            DomainError::SumOverflow => String::from_str("Sum overflow"),
        }
    }
}

impl MarshalError {
    /// The message that describes this error.
    pub fn message(&self) -> (r: String)
        ensures
            r@ == marshal_message(*self),
    {
        match self {
            MarshalError::TypeMismatch => String::from_str("Type mismatch"),
            MarshalError::InvalidEncoding => String::from_str("Invalid encoding"),
            MarshalError::MissingField(name) => {
                let mut r = String::from_str("Missing field: ");
                r.append(name.as_str());
                r
            },
            MarshalError::InvalidElement(i) => {
                let mut r = String::from_str("Invalid element at index ");
                let d = decimal_string(*i as u64);
                r.append(d.as_str());
                r
            },
        }
    }
}

impl CallError {
    /// The message that describes this error.
    pub fn message(&self) -> (r: String)
        ensures
            r@ == call_message(*self),
    {
        match self {
            CallError::HostThrew(m) => m.clone(),
            CallError::BadReturnType => String::from_str("Bad return type"),
        }
    }
}

impl Error {
    /// The message that describes this error.
    pub fn message(&self) -> (r: String)
        ensures
            r@ == message_of(*self),
    {
        match self {
            Error::Marshal(m) => m.message(),
            Error::Call(c) => c.message(),
            Error::Domain(d) => d.message(),
        }
    }
}

/// Converts a native failure into the exception that the host observes.
pub fn to_host_error(e: &Error) -> (r: HostException)
    ensures
        r.message@ == message_of(*e),
{
    HostException { message: e.message() }
}

/// Converts an exception thrown by a host function into a native failure
/// that keeps its message.
pub fn from_host_exception(x: HostException) -> (r: Error)
    ensures
        r matches Error::Call(CallError::HostThrew(m)) && m@ == x.message@,
        message_of(r) == x.message@,
{
    Error::Call(CallError::HostThrew(x.message))
}

} // verus!
