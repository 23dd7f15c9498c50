//! The library's error values.
use vstd::prelude::*;
use crate::dispatch::{excepinfo_message, ole_excepinfo2msg};
use crate::render::{decimal, signed_decimal, push_decimal, push_signed_decimal};

verus! {

/// Which runtime step an [`OleError`] comes from.
#[derive(PartialEq, Eq, Structural, Clone, Copy, Debug)]
pub enum OleErrorType {
    Runtime,
    QueryInterface,
}

impl OleErrorType {
    /// The label under which the error is reported.
    pub fn label(&self) -> (r: &'static str)
        ensures
            r@ == ole_error_type_label(*self),
    {
        match self {
            OleErrorType::Runtime => "Win32OleRuntimeError",
            OleErrorType::QueryInterface => "Win32OleQueryInterfaceError",
        }
    }
}

pub open spec fn ole_error_type_label(t: OleErrorType) -> Seq<char> {
    match t {
        OleErrorType::Runtime => "Win32OleRuntimeError"@,
        OleErrorType::QueryInterface => "Win32OleQueryInterfaceError"@,
    }
}

/// Why a late-bound call rejected one of its arguments.
#[derive(PartialEq, Eq, Structural, Clone, Copy, Debug)]
pub enum ComArgumentErrorType {
    TypeMismatch,
    ParameterNotFound,
}

impl ComArgumentErrorType {
    /// The sentence under which the error is reported.
    pub fn message(&self) -> (r: &'static str)
        ensures
            r@ == com_argument_message(*self),
    {
        match self {
            ComArgumentErrorType::TypeMismatch => "The value's type does not match the expected type for the parameter",
            ComArgumentErrorType::ParameterNotFound => "A required parameter was missing",
        }
    }
}

pub open spec fn com_argument_message(t: ComArgumentErrorType) -> Seq<char> {
    match t {
        ComArgumentErrorType::TypeMismatch => "The value's type does not match the expected type for the parameter"@,
        ComArgumentErrorType::ParameterNotFound => "A required parameter was missing"@,
    }
}

/// A failing status of the runtime, with what was being done.
#[derive(Debug)]
pub struct OleError {
    pub error_type: OleErrorType,
    pub hresult: i32,
    pub context_message: String,
}

impl OleError {
    pub fn new(error_type: OleErrorType, hresult: i32, context_message: &str) -> (r: OleError)
        ensures
            r.error_type == error_type,
            r.hresult == hresult,
            r.context_message@ == context_message@,
    {
        OleError { error_type, hresult, context_message: context_message.to_owned() }
    }

    pub fn runtime(hresult: i32, context_message: &str) -> (r: OleError)
        ensures
            r.error_type == OleErrorType::Runtime,
            r.hresult == hresult,
            r.context_message@ == context_message@,
    {
        OleError::new(OleErrorType::Runtime, hresult, context_message)
    }

    pub fn interface(hresult: i32, context_message: &str) -> (r: OleError)
        ensures
            r.error_type == OleErrorType::QueryInterface,
            r.hresult == hresult,
            r.context_message@ == context_message@,
    {
        OleError::new(OleErrorType::QueryInterface, hresult, context_message)
    }
}

/// The exception block that a late-bound call fills when the callee raises
/// an application-level exception, after its deferred fill-in has run.
#[derive(Debug)]
pub struct ExcepInfo {
    pub code: u16,
    pub scode: i32,
    pub source: String,
    pub description: String,
    pub help_file: String,
    pub help_context: u32,
}

/// Every error of the library.
#[derive(Debug)]
pub enum Error {
    /// A failing platform status.
    Windows(i32),
    /// A named lookup found nothing, or an input broke a rule of the format.
    Custom(String),
    /// A failing runtime status, with context.
    Ole(OleError),
    /// The callee of a late-bound call raised an exception.
    Exception(ExcepInfo),
    /// A late-bound call rejected the argument at `arg_err`.
    IDispatchArgument { error_type: ComArgumentErrorType, arg_err: u32 },
    /// A wide string held no valid text.
    Utf16,
}

pub type Result<T> = core::result::Result<T, Error>;

/// The message of an error.
pub open spec fn error_message(e: Error) -> Seq<char> {
    match e {
        Error::Windows(h) => "HRESULT error code: "@ + signed_decimal(h as int),
        Error::Custom(m) => m@,
        Error::Ole(o) => ole_error_type_label(o.error_type) + ": "@ + o.context_message@
            + ". HRESULT error code: "@ + signed_decimal(o.hresult as int),
        Error::Exception(x) => excepinfo_message(x) + "\n"@,
        Error::IDispatchArgument { error_type, arg_err } => "COM argument error "@
            + com_argument_message(error_type) + " for argument "@ + decimal(arg_err as nat)
            + "\n"@,
        Error::Utf16 => "invalid UTF-16 text"@,
    }
}

impl Error {
    /// The message under which the error is reported.
    pub fn message(&self) -> (r: String)
        ensures
            r@ == error_message(*self),
    {
        match self {
            Error::Windows(h) => {
                let mut s = String::from_str("HRESULT error code: ");
                push_signed_decimal(&mut s, *h);
                s
            },
            Error::Custom(m) => m.clone(),
            Error::Ole(o) => {
                let mut s = String::from_str(o.error_type.label());
                s.append(": ");
                s.append(o.context_message.as_str());
                s.append(". HRESULT error code: ");
                push_signed_decimal(&mut s, o.hresult);
                s
            },
            Error::Exception(x) => {
                let mut s = ole_excepinfo2msg(x);
                s.append("\n");
                s
            },
            Error::IDispatchArgument { error_type, arg_err } => {
                let mut s = String::from_str("COM argument error ");
                s.append(error_type.message());
                s.append(" for argument ");
                push_decimal(&mut s, *arg_err as u64);
                s.append("\n");
                s
            },
            Error::Utf16 => String::from_str("invalid UTF-16 text"),
        }
    }
}

} // verus!
