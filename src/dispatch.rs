//! Late-bound invocation: the argument block that a call hands to the
//! platform, and the unpacking of what the call returns.
use vstd::prelude::*;
use crate::error::{Error, ExcepInfo, ComArgumentErrorType};
use crate::render::{decimal, signed_decimal, push_decimal, push_signed_decimal};

verus! {

pub const DISPATCH_METHOD: u16 = 1;
pub const DISPATCH_PROPERTYGET: u16 = 2;
pub const DISPATCH_PROPERTYPUT: u16 = 4;
pub const DISPATCH_PROPERTYPUTREF: u16 = 8;

/// The member identifier of the value argument of a property put.
pub const DISPID_PROPERTYPUT: i32 = -3;

/// The callee raised an exception; the exception block says which.
pub const DISP_E_EXCEPTION: i32 = -2147352567;
/// An argument's type does not match the parameter's.
pub const DISP_E_TYPEMISMATCH: i32 = -2147352571;
/// A required parameter is missing.
pub const DISP_E_PARAMNOTFOUND: i32 = -2147352572;

/// The argument block of a late-bound call: the positional arguments, last
/// declared first, and the member identifiers of the named ones.
#[derive(Debug)]
pub struct DispParams<T> {
    pub args: Vec<T>,
    pub named_args: Vec<i32>,
}

/// A late-bound call ready to be issued: the member's name, the operation,
/// and the argument block.
#[derive(Debug)]
pub struct InvokeRequest<T> {
    pub member: String,
    pub flags: u16,
    pub params: DispParams<T>,
}

/// The block for a property get: no arguments.
pub fn get_params<T>(name: &str) -> (r: InvokeRequest<T>)
    ensures
        r.member@ == name@,
        r.flags == DISPATCH_PROPERTYGET,
        r.params.args@.len() == 0,
        r.params.named_args@.len() == 0,
{
    InvokeRequest {
        member: name.to_owned(),
        flags: DISPATCH_PROPERTYGET,
        params: DispParams { args: Vec::new(), named_args: Vec::new() },
    }
}

/// The block for a property put: the value, named as the put value.
pub fn put_params<T>(name: &str, value: T, by_ref: bool) -> (r: InvokeRequest<T>)
    ensures
        r.member@ == name@,
        r.flags == (if by_ref {
            DISPATCH_PROPERTYPUTREF
        } else {
            DISPATCH_PROPERTYPUT
        }),
        r.params.args@ == seq![value],
        r.params.named_args@ == seq![DISPID_PROPERTYPUT],
{
    let mut args: Vec<T> = Vec::new();
    args.push(value);
    let mut named_args: Vec<i32> = Vec::new();
    named_args.push(DISPID_PROPERTYPUT);
    InvokeRequest {
        member: name.to_owned(),
        flags: if by_ref {
            DISPATCH_PROPERTYPUTREF
        } else {
            DISPATCH_PROPERTYPUT
        },
        params: DispParams { args, named_args },
    }
}

/// The block for a method call: the arguments in reverse declaration order,
/// as the platform's calling convention wants them.
pub fn call_params<T>(name: &str, args: Vec<T>) -> (r: InvokeRequest<T>)
    ensures
        r.member@ == name@,
        r.flags == DISPATCH_METHOD,
        r.params.args@ == args@.reverse(),
        r.params.named_args@.len() == 0,
{
    let ghost orig = args@;
    let mut rest = args;
    let mut rev: Vec<T> = Vec::new();
    while rest.len() > 0
        invariant
            rest@ == orig.subrange(0, rest@.len() as int),
            rev@.len() + rest@.len() == orig.len(),
            forall|k: int| 0 <= k < rev@.len() ==> rev@[k] == orig[orig.len() - 1 - k],
        decreases rest@.len(),
    {
        let x = rest.pop().unwrap();
        rev.push(x);
    }
    assert(rev@ =~= orig.reverse());
    InvokeRequest {
        member: name.to_owned(),
        flags: DISPATCH_METHOD,
        params: DispParams { args: rev, named_args: Vec::new() },
    }
}

/// What a late-bound call that ended with status `status` gives back.
pub open spec fn unpacked<T>(status: i32, result: T, excep: ExcepInfo, arg_err: u32, r: Result<T, Error>) -> bool {
    if status >= 0 {
        r == Ok::<T, Error>(result)
    } else if status == DISP_E_EXCEPTION {
        r matches Err(Error::Exception(e)) && e == excep
    } else if status == DISP_E_TYPEMISMATCH {
        r matches Err(Error::IDispatchArgument { error_type, arg_err: a }) && error_type
            == ComArgumentErrorType::TypeMismatch && a == arg_err
    } else if status == DISP_E_PARAMNOTFOUND {
        r matches Err(Error::IDispatchArgument { error_type, arg_err: a }) && error_type
            == ComArgumentErrorType::ParameterNotFound && a == arg_err
    } else {
        r matches Err(Error::Windows(h)) && h == status
    }
}

/// Unpacks what a late-bound call returned: the result on success, the
/// exception block when the callee raised one, the offending argument when
/// one was rejected, and the status otherwise.
pub fn unpack_invoke<T>(status: i32, result: T, excep: ExcepInfo, arg_err: u32) -> (r: Result<
    T,
    Error,
>)
    ensures
        unpacked(status, result, excep, arg_err, r),
{
    if status >= 0 {
        Ok(result)
    } else if status == DISP_E_EXCEPTION {
        Err(Error::Exception(excep))
    } else if status == DISP_E_TYPEMISMATCH {
        Err(Error::IDispatchArgument { error_type: ComArgumentErrorType::TypeMismatch, arg_err })
    } else if status == DISP_E_PARAMNOTFOUND {
        Err(
            Error::IDispatchArgument {
                error_type: ComArgumentErrorType::ParameterNotFound,
                arg_err,
            },
        )
    } else {
        Err(Error::Windows(status))
    }
}

/// The message of an exception block.
pub open spec fn excepinfo_message(e: ExcepInfo) -> Seq<char> {
    "\n    OLE error code: "@ + (if e.code == 0 {
        signed_decimal(e.scode as int)
    } else {
        decimal(e.code as nat)
    }) + " in "@ + (if e.source@.len() > 0 {
        e.source@
    } else {
        "<Unknown>"@
    }) + "\n      "@ + (if e.description@.len() > 0 {
        e.description@
    } else {
        "<No Description>"@
    })
}

/// The message of an exception block: its code, its source and its
/// description, with a placeholder for each that is missing.
pub fn ole_excepinfo2msg(excepinfo: &ExcepInfo) -> (r: String)
    ensures
        r@ == excepinfo_message(*excepinfo),
{
    let mut msg = String::from_str("\n    OLE error code: ");
    if excepinfo.code == 0 {
        push_signed_decimal(&mut msg, excepinfo.scode);
    } else {
        push_decimal(&mut msg, excepinfo.code as u64);
    }
    msg.append(" in ");
    if excepinfo.source.as_str().is_empty() {
        msg.append("<Unknown>");
    } else {
        msg.append(excepinfo.source.as_str());
    }
    msg.append("\n      ");
    if excepinfo.description.as_str().is_empty() {
        msg.append("<No Description>");
    } else {
        msg.append(excepinfo.description.as_str());
    }
    msg
}

/// No type information is available at the requested index.
pub const DISP_E_BADINDEX: i32 = -2147352565;

/// The receiving end of an event connection: a dispatch object that offers
/// no type information of its own.
#[derive(Debug)]
pub struct IEventSink {}

impl IEventSink {
    /// How many type descriptions the sink offers: none.
    pub fn get_type_info_count(&self) -> (r: u32)
        ensures
            r == 0,
    {
        0
    }

    /// The sink's type description at `itinfo`: there is none to give.
    pub fn get_type_info(&self, itinfo: u32, lcid: u32) -> (r: Result<usize, Error>)
        ensures
            r matches Err(Error::Windows(h)) && h == DISP_E_BADINDEX,
    {
        Err(Error::Windows(DISP_E_BADINDEX))
    }
}

} // verus!
