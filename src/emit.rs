//! Emission of language bindings for a whole type library.
use vstd::prelude::*;
use crate::error::Error;
use crate::model::{
    TypeDesc, OleTypeLibData, OleTypeData, FuncDesc, ConstValue, slot_in, PARAMFLAG_FRETVAL, Guid, TypeKind, ref_lookup,
    INVOKE_ALL, INVOKE_FUNC, INVOKE_PROPERTYGET, INVOKE_PROPERTYPUT, INVOKE_PROPERTYPUTREF,
    FUNC_STATIC, FUNC_DISPATCH, PARAMFLAG_FIN, PARAMFLAG_FOUT, IMPLTYPEFLAG_NONE,
    TYPE_E_CANTLOADLIBRARY, TYPE_E_ELEMENTNOTFOUND, VT_I2, VT_I4, VT_R4, VT_R8, VT_CY, VT_DATE, VT_BSTR, VT_DISPATCH,
    VT_ERROR, VT_BOOL, VT_VARIANT, VT_UNKNOWN, VT_DECIMAL, VT_I1, VT_UI1, VT_UI2, VT_UI4, VT_I8,
    VT_UI8, VT_INT, VT_UINT, VT_VOID, VT_HRESULT, VT_SAFEARRAY, VT_LPSTR, VT_LPWSTR, VT_BYREF,
};
use crate::inspect::{
    OleMethodData, OleParamData, MethodKey, ole_methods_from_typeinfo, all_methods, keys, func_at, param_count,
    impl_types_with,
};
use crate::render::{texts, decimal, digit_text, push_decimal, signed_decimal, push_signed_decimal};

verus! {

/// What a run of [`build`] reports besides the text.
#[derive(Debug)]
pub struct BuildResult {
    /// Referenced types that could not be found and were replaced with
    /// `__missing_type__`.
    pub num_missing_types: usize,
    /// Entries of the library that could not be loaded.
    pub num_types_not_found: usize,
    /// Dispatch interfaces skipped because their emission was not asked for.
    pub skipped_dispinterfaces: Vec<String>,
    /// Dual interfaces whose dispatch half was skipped.
    pub skipped_dispinterface_of_dual_interfaces: Vec<String>,
}

/// The binding type of a payload-free tag code, where it has one.
pub open spec fn rust_type_of(vt: u16) -> Option<Seq<char>> {
    if vt == VT_I2 {
        Some("i16"@)
    } else if vt == VT_I4 {
        Some("i32"@)
    } else if vt == VT_R4 {
        Some("f32"@)
    } else if vt == VT_R8 {
        Some("f64"@)
    } else if vt == VT_CY {
        Some("CY"@)
    } else if vt == VT_DATE {
        Some("f64"@)
    } else if vt == VT_BSTR {
        Some("::windows::core::PWSTR"@)
    } else if vt == VT_DISPATCH {
        Some("IDispatch"@)
    } else if vt == VT_ERROR {
        Some("i32"@)
    } else if vt == VT_BOOL {
        Some("VARIANT_BOOL"@)
    } else if vt == VT_VARIANT {
        Some("VARIANT"@)
    } else if vt == VT_UNKNOWN {
        Some("::windows::core::IUnknown"@)
    } else if vt == VT_DECIMAL {
        Some("DECIMAL"@)
    } else if vt == VT_I1 {
        Some("i8"@)
    } else if vt == VT_UI1 {
        Some("u8"@)
    } else if vt == VT_UI2 {
        Some("u16"@)
    } else if vt == VT_UI4 {
        Some("u32"@)
    } else if vt == VT_I8 {
        Some("i64"@)
    } else if vt == VT_UI8 {
        Some("u64"@)
    } else if vt == VT_INT {
        Some("i32"@)
    } else if vt == VT_UINT {
        Some("u32"@)
    } else if vt == VT_VOID {
        Some("c_void"@)
    } else if vt == VT_HRESULT {
        Some("::windows::core::HRESULT"@)
    } else if vt == VT_SAFEARRAY {
        Some("SAFEARRAY"@)
    } else if vt == VT_LPSTR {
        Some("::windows::core::PSTR"@)
    } else if vt == VT_LPWSTR {
        Some("::windows::core::PWSTR"@)
    } else {
        None
    }
}

/// The binding type of a payload-free tag code, where it has one.
pub fn well_known_type_to_string(vt: u16) -> (r: Option<&'static str>)
    ensures
        match r {
            Some(s) => rust_type_of(vt) == Some(s@),
            None => rust_type_of(vt) is None,
        },
{
    if vt == VT_I2 {
        Some("i16")
    } else if vt == VT_I4 {
        Some("i32")
    } else if vt == VT_R4 {
        Some("f32")
    } else if vt == VT_R8 {
        Some("f64")
    } else if vt == VT_CY {
        Some("CY")
    } else if vt == VT_DATE {
        Some("f64")
    } else if vt == VT_BSTR {
        Some("::windows::core::PWSTR")
    } else if vt == VT_DISPATCH {
        Some("IDispatch")
    } else if vt == VT_ERROR {
        Some("i32")
    } else if vt == VT_BOOL {
        Some("VARIANT_BOOL")
    } else if vt == VT_VARIANT {
        Some("VARIANT")
    } else if vt == VT_UNKNOWN {
        Some("::windows::core::IUnknown")
    } else if vt == VT_DECIMAL {
        Some("DECIMAL")
    } else if vt == VT_I1 {
        Some("i8")
    } else if vt == VT_UI1 {
        Some("u8")
    } else if vt == VT_UI2 {
        Some("u16")
    } else if vt == VT_UI4 {
        Some("u32")
    } else if vt == VT_I8 {
        Some("i64")
    } else if vt == VT_UI8 {
        Some("u64")
    } else if vt == VT_INT {
        Some("i32")
    } else if vt == VT_UINT {
        Some("u32")
    } else if vt == VT_VOID {
        Some("c_void")
    } else if vt == VT_HRESULT {
        Some("::windows::core::HRESULT")
    } else if vt == VT_SAFEARRAY {
        Some("SAFEARRAY")
    } else if vt == VT_LPSTR {
        Some("::windows::core::PSTR")
    } else if vt == VT_LPWSTR {
        Some("::windows::core::PWSTR")
    } else {
        None
    }
}

/// Why a descriptor has no binding type.
#[derive(Debug)]
pub enum RenderFault {
    /// Resolving a user-defined reference failed with this status.
    Status(i32),
    /// A payload-free tag code that bindings have no type for.
    Unsupported(u16),
}

/// Whether parameter flags mark an input-only parameter: `in` set, `out`
/// clear. Every other combination, none set included, is read-write.
pub open spec fn input_only(flags: u16) -> bool {
    (flags & PARAMFLAG_FIN) == PARAMFLAG_FIN && (flags & PARAMFLAG_FOUT) == 0
}

/// `inner` wrapped once per dimension of `dims[..k]`, the first dimension
/// innermost.
pub open spec fn wrap_dims(inner: Seq<char>, dims: Seq<u32>, k: int) -> Seq<char>
    decreases k,
{
    if k <= 0 {
        inner
    } else {
        "["@ + wrap_dims(inner, dims, k - 1) + "; "@ + decimal(dims[k - 1] as nat) + "]"@
    }
}

/// The binding type of descriptor `td` of record `owner` under parameter
/// flags `flags`.
pub open spec fn binding_type(lib: OleTypeLibData, owner: OleTypeData, td: TypeDesc, flags: u16) -> Result<
    Seq<char>,
    RenderFault,
>
    decreases td,
{
    match td {
        TypeDesc::Ptr(inner) => match binding_type(lib, owner, *inner, flags) {
            Ok(n) => Ok(
                if input_only(flags) {
                    "*const "@ + n
                } else {
                    "*mut "@ + n
                },
            ),
            Err(f) => Err(f),
        },
        TypeDesc::SafeArray(inner) => match binding_type(lib, owner, *inner, flags) {
            Ok(_) => Ok("SAFEARRAY"@),
            Err(f) => Err(f),
        },
        TypeDesc::CArray(elem, dims) => match binding_type(lib, owner, *elem, flags) {
            Ok(n) => Ok(wrap_dims(n, dims@, dims@.len() as int)),
            Err(f) => Err(f),
        },
        TypeDesc::UserDefined(href) => match ref_lookup(owner.refs@, href) {
            Ok(t) => Ok(lib.rec(t as int).name@),
            Err(e) => if e == TYPE_E_CANTLOADLIBRARY {
                Ok("__missing_type__"@)
            } else {
                Err(RenderFault::Status(e))
            },
        },
        TypeDesc::Base(vt) => match rust_type_of(vt) {
            Some(n) => Ok(n),
            None => Err(RenderFault::Unsupported(vt)),
        },
    }
}

/// How many references of `td` lead to a library that cannot be loaded.
pub open spec fn missing_refs(lib: OleTypeLibData, owner: OleTypeData, td: TypeDesc) -> nat
    decreases td,
{
    match td {
        TypeDesc::Ptr(inner) => missing_refs(lib, owner, *inner),
        TypeDesc::SafeArray(inner) => missing_refs(lib, owner, *inner),
        TypeDesc::CArray(elem, _) => missing_refs(lib, owner, *elem),
        TypeDesc::UserDefined(href) => if ref_lookup(owner.refs@, href) == Err::<
            usize,
            i32,
        >(TYPE_E_CANTLOADLIBRARY) {
            1
        } else {
            0
        },
        TypeDesc::Base(_) => 0,
    }
}

/// A count of `c` raised by `m`, held at the largest `usize`.
pub open spec fn counted(c: usize, m: nat) -> usize {
    if c + m > usize::MAX {
        usize::MAX
    } else {
        (c + m) as usize
    }
}

/// The error that a render fault becomes.
pub open spec fn fault_matches(f: RenderFault, e: Error) -> bool {
    match f {
        RenderFault::Status(s) => e matches Error::Windows(h) && h == s,
        RenderFault::Unsupported(_) => e is Custom,
    }
}

/// Renders descriptor `td` of record `owner` as a binding type. A reference
/// into a library that cannot be loaded becomes `__missing_type__` and is
/// counted in `build_result` (the count stops at the largest `usize`); any
/// other failed resolution is an error.
pub fn type_to_string(
    type_: &TypeDesc,
    param_flags: u16,
    typeinfo: &OleTypeData,
    lib: &OleTypeLibData,
    build_result: &mut BuildResult,
) -> (r: Result<String, Error>)
    requires
        lib.wf(),
        lib.holds(*typeinfo),
    ensures
        match binding_type(*lib, *typeinfo, *type_, param_flags) {
            Ok(n) => r matches Ok(s) && s@ == n,
            Err(f) => r matches Err(e) && fault_matches(f, e),
        },
        r is Ok ==> final(build_result).num_missing_types == counted(
            old(build_result).num_missing_types,
            missing_refs(*lib, *typeinfo, *type_),
        ),
        r is Err ==> final(build_result).num_missing_types == old(build_result).num_missing_types,
        final(build_result).num_types_not_found == old(build_result).num_types_not_found,
        final(build_result).skipped_dispinterfaces@ == old(build_result).skipped_dispinterfaces@,
        final(build_result).skipped_dispinterface_of_dual_interfaces@ == old(
            build_result,
        ).skipped_dispinterface_of_dual_interfaces@,
    decreases type_,
{
    match type_ {
        TypeDesc::Ptr(inner) => {
            let n = type_to_string(inner, param_flags, typeinfo, lib, build_result)?;
            let mut s = if (param_flags & PARAMFLAG_FIN) == PARAMFLAG_FIN && (param_flags
                & PARAMFLAG_FOUT) == 0 {
                String::from_str("*const ")
            } else {
                String::from_str("*mut ")
            };
            s.append(n.as_str());
            Ok(s)
        },
        TypeDesc::SafeArray(inner) => {
            let _ = type_to_string(inner, param_flags, typeinfo, lib, build_result)?;
            Ok(String::from_str("SAFEARRAY"))
        },
        TypeDesc::CArray(elem, dims) => {
            let n = type_to_string(elem, param_flags, typeinfo, lib, build_result)?;
            let ghost inner = n@;
            let mut cur = n;
            let mut i: usize = 0;
            while i < dims.len()
                invariant
                    i <= dims@.len(),
                    cur@ == wrap_dims(inner, dims@, i as int),
                decreases dims@.len() - i,
            {
                let mut next = String::from_str("[");
                next.append(cur.as_str());
                next.append("; ");
                push_decimal(&mut next, dims[i] as u64);
                next.append("]");
                cur = next;
                i = i + 1;
            }
            Ok(cur)
        },
        TypeDesc::UserDefined(href) => match typeinfo.get_ref_type_info(*href) {
            Ok(t) => Ok(lib.records[t].name.clone()),
            Err(e) => {
                if e == TYPE_E_CANTLOADLIBRARY {
                    if build_result.num_missing_types < usize::MAX {
                        build_result.num_missing_types = build_result.num_missing_types + 1;
                    }
                    Ok(String::from_str("__missing_type__"))
                } else {
                    Err(Error::Windows(e))
                }
            },
        },
        TypeDesc::Base(vt) => match well_known_type_to_string(*vt) {
            Some(n) => Ok(String::from_str(n)),
            None => Err(Error::Custom(String::from_str("type code has no binding type"))),
        },
    }
}

/// Renames a member whose name is a reserved word of the target language.
pub fn sanitize_reserved(s: &str) -> (r: String)
    ensures
        r@ == sanitized(s@),
{
    let t = s.to_owned();
    if t == String::from_str("impl") {
        String::from_str("impl_")
    } else if t == String::from_str("type") {
        String::from_str("type_")
    } else {
        t
    }
}

/// A member name as the bindings spell it.
pub open spec fn sanitized(s: Seq<char>) -> Seq<char> {
    if s == "impl"@ {
        "impl_"@
    } else if s == "type"@ {
        "type_"@
    } else {
        s
    }
}

/// The lower-case hexadecimal digit of `d`.
pub open spec fn hex_text(d: nat) -> Seq<char> {
    if d < 10 {
        digit_text(d)
    } else if d == 10 {
        "a"@
    } else if d == 11 {
        "b"@
    } else if d == 12 {
        "c"@
    } else if d == 13 {
        "d"@
    } else if d == 14 {
        "e"@
    } else {
        "f"@
    }
}

/// The last `w` hexadecimal digits of `v`, zero-padded.
pub open spec fn hex_digits(v: nat, w: nat) -> Seq<char>
    decreases w,
{
    if w == 0 {
        Seq::empty()
    } else {
        hex_digits(v / 16, (w - 1) as nat) + hex_text(v % 16)
    }
}

fn hex_str(d: u32) -> (r: &'static str)
    requires
        d < 16,
    ensures
        r@ == hex_text(d as nat),
{
    if d == 0 {
        "0"
    } else if d == 1 {
        "1"
    } else if d == 2 {
        "2"
    } else if d == 3 {
        "3"
    } else if d == 4 {
        "4"
    } else if d == 5 {
        "5"
    } else if d == 6 {
        "6"
    } else if d == 7 {
        "7"
    } else if d == 8 {
        "8"
    } else if d == 9 {
        "9"
    } else if d == 10 {
        "a"
    } else if d == 11 {
        "b"
    } else if d == 12 {
        "c"
    } else if d == 13 {
        "d"
    } else if d == 14 {
        "e"
    } else {
        "f"
    }
}

/// Appends the last `width` hexadecimal digits of `v`, zero-padded.
pub fn push_hex(s: &mut String, v: u32, width: u32)
    ensures
        final(s)@ == old(s)@ + hex_digits(v as nat, width as nat),
    decreases width,
{
    if width > 0 {
        push_hex(s, v / 16, width - 1);
        s.append(hex_str(v % 16));
    }
}

/// The literal of an identifier as one 128-bit hexadecimal number, its
/// fields separated by underscores.
pub open spec fn guid_literal(g: Guid) -> Seq<char> {
    "0x"@ + hex_digits(g.data1 as nat, 8) + "_"@ + hex_digits(g.data2 as nat, 4) + "_"@
        + hex_digits(g.data3 as nat, 4) + "_"@ + hex_digits(g.data4[0] as nat, 2) + hex_digits(
        g.data4[1] as nat,
        2,
    ) + "_"@ + hex_digits(g.data4[2] as nat, 2) + hex_digits(g.data4[3] as nat, 2) + hex_digits(
        g.data4[4] as nat,
        2,
    ) + hex_digits(g.data4[5] as nat, 2) + hex_digits(g.data4[6] as nat, 2) + hex_digits(
        g.data4[7] as nat,
        2,
    )
}

/// The literal of an identifier as one 128-bit hexadecimal number.
pub fn guid_to_literal(g: &Guid) -> (r: String)
    ensures
        r@ == guid_literal(*g),
{
    let mut s = String::from_str("0x");
    push_hex(&mut s, g.data1, 8);
    s.append("_");
    push_hex(&mut s, g.data2 as u32, 4);
    s.append("_");
    push_hex(&mut s, g.data3 as u32, 4);
    s.append("_");
    push_hex(&mut s, g.data4[0] as u32, 2);
    push_hex(&mut s, g.data4[1] as u32, 2);
    s.append("_");
    push_hex(&mut s, g.data4[2] as u32, 2);
    push_hex(&mut s, g.data4[3] as u32, 2);
    push_hex(&mut s, g.data4[4] as u32, 2);
    push_hex(&mut s, g.data4[5] as u32, 2);
    push_hex(&mut s, g.data4[6] as u32, 2);
    push_hex(&mut s, g.data4[7] as u32, 2);
    s
}

/// The declaration that binds interface or class `name` to identifier `g`.
pub open spec fn interface_impl_text(name: Seq<char>, g: Guid) -> Seq<char> {
    "unsafe impl ::windows::core::Interface for "@ + name
        + " {\n    const IID: ::windows::core::GUID = ::windows::core::GUID::from_u128("@
        + guid_literal(g) + ");\n}\n"@
}

/// Appends the declaration that binds `name` to identifier `g`.
pub fn push_interface_impl(out: &mut String, name: &str, g: &Guid)
    ensures
        final(out)@ == old(out)@ + interface_impl_text(name@, *g),
{
    out.append("unsafe impl ::windows::core::Interface for ");
    out.append(name);
    out.append(" {\n    const IID: ::windows::core::GUID = ::windows::core::GUID::from_u128(");
    let lit = guid_to_literal(g);
    out.append(lit.as_str());
    out.append(");\n}\n");
}

/// `s` without the `tag` prefix that C declarations give a type name, when
/// it has one; `s` itself otherwise.
pub open spec fn strip_tag(s: Seq<char>) -> Seq<char> {
    if s.len() >= 3 && s.subrange(0, 3) == seq!['t', 'a', 'g'] {
        s.subrange(3, s.len() as int)
    } else {
        s
    }
}

/// A type name without the `tag` prefix that C declarations give it.
pub fn strip_tag_prefix(name: &str) -> (r: String)
    ensures
        r@ == strip_tag(name@),
{
    let n = name.unicode_len();
    if n >= 3 {
        let c0 = name.get_char(0);
        let c1 = name.get_char(1);
        let c2 = name.get_char(2);
        let ghost w = name@.subrange(0, 3);
        if c0 == 't' && c1 == 'a' && c2 == 'g' {
            assert(w =~= seq!['t', 'a', 'g']);
            let rest = name.substring_char(3, n);
            return String::from_str(rest);
        }
        assert(w != seq!['t', 'a', 'g']) by {
            if w == seq!['t', 'a', 'g'] {
                assert(w[0] == 't' && w[1] == 'a' && w[2] == 'g');
            }
        }
    }
    name.to_owned()
}

/// The union member of a variant that holds a value of tag `vt`.
pub open spec fn variant_field(vt: u16) -> Option<Seq<char>> {
    if vt == VT_I2 {
        Some("iVal"@)
    } else if vt == VT_I4 {
        Some("lVal"@)
    } else if vt == VT_CY {
        Some("cyVal"@)
    } else if vt == VT_BSTR {
        Some("bstrVal"@)
    } else if vt == VT_DISPATCH {
        Some("pdispVal"@)
    } else if vt == VT_ERROR {
        Some("scode"@)
    } else if vt == VT_BOOL {
        Some("boolVal"@)
    } else if vt == VT_UNKNOWN {
        Some("punkVal"@)
    } else if vt == VT_UI2 {
        Some("uiVal"@)
    } else if vt == VT_UI4 {
        Some("ulVal"@)
    } else if vt == VT_INT {
        Some("intVal"@)
    } else if vt == VT_UINT {
        Some("uintVal"@)
    } else {
        None
    }
}

fn variant_field_str(vt: u16) -> (r: Option<&'static str>)
    ensures
        match r {
            Some(f) => variant_field(vt) == Some(f@),
            None => variant_field(vt) is None,
        },
{
    if vt == VT_I2 {
        Some("iVal")
    } else if vt == VT_I4 {
        Some("lVal")
    } else if vt == VT_CY {
        Some("cyVal")
    } else if vt == VT_BSTR {
        Some("bstrVal")
    } else if vt == VT_DISPATCH {
        Some("pdispVal")
    } else if vt == VT_ERROR {
        Some("scode")
    } else if vt == VT_BOOL {
        Some("boolVal")
    } else if vt == VT_UNKNOWN {
        Some("punkVal")
    } else if vt == VT_UI2 {
        Some("uiVal")
    } else if vt == VT_UI4 {
        Some("ulVal")
    } else if vt == VT_INT {
        Some("intVal")
    } else if vt == VT_UINT {
        Some("uintVal")
    } else {
        None
    }
}

/// The union member of a variant that holds a reference to a value of tag
/// `vt`.
pub open spec fn byref_field(vt: u16) -> Option<Seq<char>> {
    if vt == VT_I4 {
        Some("plVal"@)
    } else if vt == VT_BSTR {
        Some("pbstrVal"@)
    } else if vt == VT_DISPATCH {
        Some("ppdispVal"@)
    } else if vt == VT_BOOL {
        Some("pboolVal"@)
    } else if vt == VT_VARIANT {
        Some("pvarVal"@)
    } else {
        None
    }
}

fn byref_field_str(vt: u16) -> (r: Option<&'static str>)
    ensures
        match r {
            Some(f) => byref_field(vt) == Some(f@),
            None => byref_field(vt) is None,
        },
{
    if vt == VT_I4 {
        Some("plVal")
    } else if vt == VT_BSTR {
        Some("pbstrVal")
    } else if vt == VT_DISPATCH {
        Some("ppdispVal")
    } else if vt == VT_BOOL {
        Some("pboolVal")
    } else if vt == VT_VARIANT {
        Some("pvarVal")
    } else {
        None
    }
}

/// The statement that stores `name` in member `field` of a variant.
pub open spec fn assign_text(field: Seq<char>, name: Seq<char>) -> Seq<char> {
    ".Anonymous.Anonymous.Anonymous."@ + field + " = "@ + name
}

fn assign_string(field: &str, name: &str) -> (r: String)
    ensures
        r@ == assign_text(field@, name@),
{
    let mut s = String::from_str(".Anonymous.Anonymous.Anonymous.");
    s.append(field);
    s.append(" = ");
    s.append(name);
    s
}

/// The tag and the store statement with which a generated wrapper puts an
/// argument `name` of descriptor `td` of record `owner` into a variant.
pub open spec fn mutator(lib: OleTypeLibData, owner: OleTypeData, td: TypeDesc, name: Seq<char>) -> Option<
    (u16, Seq<char>),
> {
    match td {
        TypeDesc::Base(vt) => if vt == VT_VARIANT {
            Some((vt, " = *(&"@ + name + " as *const _ as *mut _)"@))
        } else {
            match variant_field(vt) {
                Some(f) => Some((vt, assign_text(f, name))),
                None => None,
            }
        },
        TypeDesc::Ptr(inner) => match *inner {
            TypeDesc::Base(v) => match byref_field(v) {
                Some(f) => Some((v | VT_BYREF, assign_text(f, name))),
                None => None,
            },
            TypeDesc::UserDefined(_) => Some((VT_DISPATCH, assign_text("pdispVal"@, name))),
            _ => None,
        },
        TypeDesc::UserDefined(href) => match ref_lookup(owner.refs@, href) {
            Ok(t) => if lib.rec(t as int).size_instance == 4 {
                Some((VT_I4, assign_text("lVal"@, name)))
            } else {
                None
            },
            Err(_) => None,
        },
        _ => None,
    }
}

/// The tag and the store statement for an argument `param_name` of
/// descriptor `type_` of record `typeinfo`; an error for a descriptor that
/// generated wrappers cannot pass.
pub fn vartype_mutator(
    type_: &TypeDesc,
    param_name: &str,
    typeinfo: &OleTypeData,
    lib: &OleTypeLibData,
) -> (r: Result<(u16, String), Error>)
    requires
        lib.wf(),
        lib.holds(*typeinfo),
    ensures
        match mutator(*lib, *typeinfo, *type_, param_name@) {
            Some((vt, text)) => r matches Ok((v, s)) && v == vt && s@ == text,
            None => r is Err,
        },
{
    match type_ {
        TypeDesc::Base(vt) => {
            if *vt == VT_VARIANT {
                let mut s = String::from_str(" = *(&");
                s.append(param_name);
                s.append(" as *const _ as *mut _)");
                return Ok((*vt, s));
            }
            match variant_field_str(*vt) {
                Some(f) => Ok((*vt, assign_string(f, param_name))),
                None => Err(Error::Custom(String::from_str("no variant member for this type"))),
            }
        },
        TypeDesc::Ptr(inner) => match &**inner {
            TypeDesc::Base(v) => match byref_field_str(*v) {
                Some(f) => Ok((*v | VT_BYREF, assign_string(f, param_name))),
                None => Err(Error::Custom(String::from_str("no variant member for this pointer"))),
            },
            TypeDesc::UserDefined(_) => Ok((VT_DISPATCH, assign_string("pdispVal", param_name))),
            _ => Err(Error::Custom(String::from_str("no variant member for this pointer"))),
        },
        TypeDesc::UserDefined(href) => match typeinfo.get_ref_type_info(*href) {
            Ok(t) => {
                if lib.records[t].size_instance == 4 {
                    Ok((VT_I4, assign_string("lVal", param_name)))
                } else {
                    Err(Error::Custom(String::from_str("only enumerations pass by value")))
                }
            },
            Err(e) => Err(Error::Windows(e)),
        },
        _ => Err(Error::Custom(String::from_str("no variant member for this type"))),
    }
}

/// The storage that stands for a union of `size` bytes aligned on `align`
/// bytes: enough aligned words to cover the size.
pub open spec fn union_storage(size: u32, align: u16) -> Option<Seq<char>> {
    let word = if align == 4 {
        "u32"@
    } else {
        "u64"@
    };
    let n = (size + align - 1) / (align as int);
    if align != 4 && align != 8 {
        None
    } else if n <= 0 {
        None
    } else if n == 1 {
        Some(word)
    } else {
        Some("["@ + word + "; "@ + decimal(n as nat) + "]"@)
    }
}

/// The storage that stands for a union of `size` bytes aligned on `align`
/// bytes; an error for an alignment other than 4 or 8 or an empty union.
pub fn union_storage_type(size: u32, align: u16) -> (r: Result<String, Error>)
    ensures
        match union_storage(size, align) {
            Some(t) => r matches Ok(s) && s@ == t,
            None => r is Err,
        },
{
    if align != 4 && align != 8 {
        return Err(Error::Custom(String::from_str("union alignment must be 4 or 8")));
    }
    let word = if align == 4 {
        "u32"
    } else {
        "u64"
    };
    let n: u64 = (size as u64 + align as u64 - 1) / (align as u64);
    if n == 0 {
        return Err(Error::Custom(String::from_str("union has no storage")));
    }
    if n == 1 {
        return Ok(String::from_str(word));
    }
    let mut s = String::from_str("[");
    s.append(word);
    s.append("; ");
    push_decimal(&mut s, n);
    s.append("]");
    Ok(s)
}

/// `b` reports what `a` reported, but for the count of missing types.
pub open spec fn lists_kept(a: BuildResult, b: BuildResult) -> bool {
    &&& b.num_types_not_found == a.num_types_not_found
    &&& b.skipped_dispinterfaces@ == a.skipped_dispinterfaces@
    &&& b.skipped_dispinterface_of_dual_interfaces@ == a.skipped_dispinterface_of_dual_interfaces@
}

/// Whether parameter `k` of `f` is the return-value parameter.
pub open spec fn is_retval(f: FuncDesc, k: int) -> bool {
    (f.params@[k].flags & PARAMFLAG_FRETVAL) != 0
}

/// Whether one of the first `n` parameters of `f` is the return value.
pub open spec fn any_retval(f: FuncDesc, n: int) -> bool
    decreases n,
{
    n > 0 && (any_retval(f, n - 1) || is_retval(f, n - 1))
}

/// The line of parameter `k` of `f`, a function of record `owner`: its name,
/// then its binding type under its own direction flags. With
/// `skip_retval`, the return-value parameter has no line.
pub open spec fn param_line(
    lib: OleTypeLibData,
    owner: OleTypeData,
    f: FuncDesc,
    indent: Seq<char>,
    skip_retval: bool,
    k: int,
) -> Option<Seq<char>> {
    if skip_retval && is_retval(f, k) {
        Some(Seq::empty())
    } else {
        match binding_type(lib, owner, f.params@[k].tdesc, f.params@[k].flags) {
            Ok(ty) => Some(indent + sanitized(f.names@[k + 1]@) + ": "@ + ty + ",\n"@),
            Err(_) => None,
        }
    }
}

pub open spec fn param_part(
    lib: OleTypeLibData,
    owner: OleTypeData,
    f: FuncDesc,
    indent: Seq<char>,
    skip_retval: bool,
) -> spec_fn(int) -> Option<Seq<char>> {
    |k: int| param_line(lib, owner, f, indent, skip_retval, k)
}

/// The parameter lines of `f`, a function of record `owner`.
pub open spec fn params_text(
    lib: OleTypeLibData,
    owner: OleTypeData,
    f: FuncDesc,
    indent: Seq<char>,
    skip_retval: bool,
) -> Option<Seq<char>> {
    concat_parts(param_part(lib, owner, f, indent, skip_retval), param_count(f))
}

fn param_text_line(indent: &str, name: &str, ty: &str) -> (r: String)
    ensures
        r@ == indent@ + name@ + ": "@ + ty@ + ",\n"@,
{
    let mut line = String::from_str(indent);
    line.append(name);
    line.append(": ");
    line.append(ty);
    line.append(",\n");
    proof {
        assert(line@ =~= indent@ + name@ + ": "@ + ty@ + ",\n"@);
    }
    line
}

/// Appends one line per parameter of method `m`: its name, then its type
/// under its own direction flags; with `skip_retval`, the return-value
/// parameter is left out. Tells whether the method has a return-value
/// parameter.
fn emit_params(
    out: &mut String,
    lib: &OleTypeLibData,
    m: &OleMethodData,
    indent: &str,
    skip_retval: bool,
    build_result: &mut BuildResult,
) -> (r: Result<bool, Error>)
    requires
        lib.wf(),
        m.valid(*lib),
    ensures
        lists_kept(*old(build_result), *final(build_result)),
        match params_text(
            *lib,
            lib.rec(m.record as int),
            func_at(*lib, m.record as int, m.index as int),
            indent@,
            skip_retval,
        ) {
            Some(x) => r matches Ok(b) && final(out)@ == old(out)@ + x && b == any_retval(
                func_at(*lib, m.record as int, m.index as int),
                param_count(func_at(*lib, m.record as int, m.index as int)),
            ),
            None => r is Err,
        },
        r is Ok ==> final(build_result).num_missing_types == counted(
            old(build_result).num_missing_types,
            params_missing(
                *lib,
                lib.rec(m.record as int),
                func_at(*lib, m.record as int, m.index as int),
                skip_retval,
            ),
        ),
{
    let params = m.params(lib);
    let owner = &lib.records[m.record];
    let f = m.desc(lib);
    let ghost part = param_part(*lib, *owner, *f, indent@, skip_retval);
    let ghost mpart = param_missing_part(*lib, *owner, *f, skip_retval);
    let ghost n = param_count(*f);
    let ghost mut text: Seq<char> = Seq::empty();
    let mut has_retval = false;
    let mut k: usize = 0;
    while k < params.len()
        invariant
            lib.wf(),
            m.valid(*lib),
            *owner == lib.rec(m.record as int),
            lib.holds(*owner),
            *f == func_at(*lib, m.record as int, m.index as int),
            part == param_part(*lib, *owner, *f, indent@, skip_retval),
            n == param_count(*f),
            params@.len() == n,
            forall|j: int|
                0 <= j < params@.len() ==> {
                    &&& (#[trigger] params@[j]).index == j
                    &&& params@[j].name@ == f.names@[j + 1]@
                    &&& params@[j].flags == f.params@[j].flags
                },
            k <= params@.len(),
            concat_parts(part, k as int) == Some(text),
            out@ == old(out)@ + text,
            has_retval == any_retval(*f, k as int),
            lists_kept(*old(build_result), *build_result),
            mpart == param_missing_part(*lib, *owner, *f, skip_retval),
            build_result.num_missing_types == counted(
                old(build_result).num_missing_types,
                sum_parts(mpart, k as int),
            ),
        decreases params@.len() - k,
    {
        let p = &params[k];
        assert(p.index < f.params@.len());
        let retval = p.retval();
        if retval {
            has_retval = true;
        }
        if !(skip_retval && retval) {
            let name = sanitize_reserved(p.name());
            let ty = match type_to_string(&f.params[k].tdesc, p.flags, owner, lib, build_result) {
                Ok(ty) => ty,
                Err(e) => {
                    proof {
                        lemma_concat_parts_none(part, k + 1, n);
                    }
                    return Err(e);
                },
            };
            let line = param_text_line(indent, name.as_str(), ty.as_str());
            proof {
                assert(param_line(*lib, *owner, *f, indent@, skip_retval, k as int) == Some(line@));
                lemma_counted_twice(
                    old(build_result).num_missing_types,
                    sum_parts(mpart, k as int),
                    param_missing(*lib, *owner, *f, skip_retval, k as int),
                );
            }
            out.append(line.as_str());
            proof {
                assert(out@ =~= old(out)@ + (text + line@));
                text = text + line@;
            }
        } else {
            proof {
                assert(param_line(*lib, *owner, *f, indent@, skip_retval, k as int) == Some(
                    Seq::<char>::empty(),
                ));
                assert(text + Seq::<char>::empty() =~= text);
                assert(sum_parts(mpart, k + 1) == sum_parts(mpart, k as int));
            }
        }
        k = k + 1;
    }
    Ok(has_retval)
}

/// The sum of parts `0..n`.
pub open spec fn sum_parts(part: spec_fn(int) -> nat, n: int) -> nat
    decreases n,
{
    if n <= 0 {
        0
    } else {
        sum_parts(part, n - 1) + part(n - 1)
    }
}

/// Raising a count by `a`, then by `b`, raises it by `a + b`.
pub proof fn lemma_counted_twice(c: usize, a: nat, b: nat)
    ensures
        counted(counted(c, a), b) == counted(c, a + b),
{
}

/// How many missing types the line of parameter `k` of `f` substitutes.
pub open spec fn param_missing(lib: OleTypeLibData, owner: OleTypeData, f: FuncDesc, skip_retval: bool, k: int) -> nat {
    if skip_retval && is_retval(f, k) {
        0
    } else {
        missing_refs(lib, owner, f.params@[k].tdesc)
    }
}

pub open spec fn param_missing_part(
    lib: OleTypeLibData,
    owner: OleTypeData,
    f: FuncDesc,
    skip_retval: bool,
) -> spec_fn(int) -> nat {
    |k: int| param_missing(lib, owner, f, skip_retval, k)
}

/// How many missing types the parameter lines of `f` substitute.
pub open spec fn params_missing(lib: OleTypeLibData, owner: OleTypeData, f: FuncDesc, skip_retval: bool) -> nat {
    sum_parts(param_missing_part(lib, owner, f, skip_retval), param_count(f))
}

/// How many missing types the type of variable `k` of `t` substitutes.
pub open spec fn field_missing(lib: OleTypeLibData, t: OleTypeData, k: int) -> nat {
    match t.variables@[k] {
        Ok(f) => missing_refs(lib, t, f.tdesc),
        Err(_) => 0,
    }
}

pub open spec fn field_missing_part(lib: OleTypeLibData, t: OleTypeData) -> spec_fn(int) -> nat {
    |k: int| field_missing(lib, t, k)
}

/// How many missing types the types of the variables of `t` substitute.
pub open spec fn fields_missing(lib: OleTypeLibData, t: OleTypeData) -> nat {
    sum_parts(field_missing_part(lib, t), t.variables@.len() as int)
}

/// How many missing types the declaration of the method at `key` in a
/// module substitutes.
pub open spec fn module_method_missing(lib: OleTypeLibData, key: MethodKey) -> nat {
    let f = func_at(lib, key.1 as int, key.2 as int);
    let owner = lib.rec(key.1 as int);
    params_missing(lib, owner, f, false) + missing_refs(lib, owner, f.ret)
}

pub open spec fn module_missing_part(lib: OleTypeLibData, listing: Seq<MethodKey>) -> spec_fn(int) -> nat {
    |j: int| module_method_missing(lib, listing[j])
}

/// How many missing types the vtable declaration of the method at `key`
/// substitutes, in an interface whose parents' vtables take `size` bytes.
pub open spec fn interface_method_missing(lib: OleTypeLibData, key: MethodKey, size: nat) -> nat {
    let f = func_at(lib, key.1 as int, key.2 as int);
    let owner = lib.rec(key.1 as int);
    if unsigned_offset(f.vft_offset) < size {
        0
    } else {
        params_missing(lib, owner, f, false) + missing_refs(lib, owner, f.ret)
    }
}

pub open spec fn interface_method_missing_part(lib: OleTypeLibData, listing: Seq<MethodKey>, size: nat) -> spec_fn(
    int,
) -> nat {
    |j: int| interface_method_missing(lib, listing[j], size)
}

/// The accessor pair of a variable renders its type twice.
pub open spec fn property_missing_part(lib: OleTypeLibData, t: OleTypeData) -> spec_fn(int) -> nat {
    |k: int| 2 * field_missing(lib, t, k)
}

/// The concatenation of parts `0..n`, or `None` once one of them is missing.
pub open spec fn concat_parts(part: spec_fn(int) -> Option<Seq<char>>, n: int) -> Option<Seq<char>>
    decreases n,
{
    if n <= 0 {
        Some(Seq::empty())
    } else {
        match concat_parts(part, n - 1) {
            Some(a) => match part(n - 1) {
                Some(b) => Some(a + b),
                None => None,
            },
            None => None,
        }
    }
}

/// A concatenation that misses a part misses it at every later length.
pub proof fn lemma_concat_parts_none(part: spec_fn(int) -> Option<Seq<char>>, n: int, m: int)
    requires
        0 <= n <= m,
        concat_parts(part, n) is None,
    ensures
        concat_parts(part, m) is None,
    decreases m - n,
{
    if n < m {
        lemma_concat_parts_none(part, n, m - 1);
    }
}

/// The declaration of enumeration member `k` of `t`, named in type `tn`; the
/// first one also closes the type's declaration. `None` for a member that
/// failed to load or whose value is not a 4-byte integer.
pub open spec fn enum_member_line(t: OleTypeData, tn: Seq<char>, k: int) -> Option<Seq<char>> {
    match t.variables@[k] {
        Ok(v) => match v.value {
            Some(ConstValue::I4(x)) => Some(
                (if k == 0 {
                    "i32);\n"@
                } else {
                    Seq::empty()
                }) + "pub const "@ + v.name@ + ": "@ + tn + " = "@ + tn + "("@ + signed_decimal(
                    x as int,
                ) + "i32);\n"@,
            ),
            _ => None,
        },
        Err(_) => None,
    }
}

pub open spec fn enum_part(t: OleTypeData, tn: Seq<char>) -> spec_fn(int) -> Option<Seq<char>> {
    |k: int| enum_member_line(t, tn, k)
}

/// The bindings of enumeration `t`: a newtype over `i32` named without
/// its `tag` word, and one constant per member.
pub open spec fn enum_text(t: OleTypeData) -> Option<Seq<char>> {
    let tn = strip_tag(t.name@);
    match concat_parts(enum_part(t, tn), t.variables@.len() as int) {
        Some(lines) => Some(
            "pub struct "@ + tn + "(pub "@ + (if t.variables@.len() == 0 {
                "i32);\n"@
            } else {
                Seq::empty()
            }) + lines + "\n"@,
        ),
        None => None,
    }
}

/// The bindings of alias `t`.
pub open spec fn alias_text(lib: OleTypeLibData, t: OleTypeData) -> Option<Seq<char>> {
    match binding_type(lib, t, t.alias, PARAMFLAG_FOUT) {
        Ok(ty) => Some("pub type "@ + t.name@ + " = "@ + ty + ";\n\n"@),
        Err(_) => None,
    }
}

/// The line of member `k` of union `t`.
pub open spec fn union_field_line(lib: OleTypeLibData, t: OleTypeData, k: int) -> Option<Seq<char>> {
    match t.variables@[k] {
        Ok(f) => match binding_type(lib, t, f.tdesc, PARAMFLAG_FOUT) {
            Ok(ty) => Some(
                "    "@ + sanitized(f.name@) + " "@ + sanitized(f.name@) + "_mut: "@ + ty
                    + ",\n"@,
            ),
            Err(_) => None,
        },
        Err(_) => None,
    }
}

pub open spec fn union_part(lib: OleTypeLibData, t: OleTypeData) -> spec_fn(int) -> Option<Seq<char>> {
    |k: int| union_field_line(lib, t, k)
}

/// The bindings of union `t`: its storage, then one line per member.
pub open spec fn union_text(lib: OleTypeLibData, t: OleTypeData) -> Option<Seq<char>> {
    match union_storage(t.size_instance, t.alignment) {
        Some(w) => match concat_parts(union_part(lib, t), t.variables@.len() as int) {
            Some(fields) => Some(
                "UNION2!{union "@ + t.name@ + " {\n    "@ + w + ",\n"@ + fields + "}}\n\n"@,
            ),
            None => None,
        },
        None => None,
    }
}

/// One comment line per implemented type among `parents[..n]`.
pub open spec fn implements_lines(lib: OleTypeLibData, parents: Seq<usize>, n: int) -> Seq<char>
    decreases n,
{
    if n <= 0 {
        Seq::empty()
    } else {
        implements_lines(lib, parents, n - 1) + "// Implements "@ + lib.rec(parents[n - 1] as int).name@
            + "\n"@
    }
}

/// The bindings of coclass `t`.
pub open spec fn coclass_text(lib: OleTypeLibData, t: OleTypeData) -> Seq<char> {
    let parents = impl_types_with(t, IMPLTYPEFLAG_NONE);
    implements_lines(lib, parents, parents.len() as int) + interface_impl_text(t.name@, t.guid)
        + "class "@ + t.name@ + "; }\n\n"@
}

/// The declaration of an enumeration member `name` of value `value` in
/// type `tn`; the first one also closes the type's declaration.
fn enum_line(first: bool, name: &str, tn: &str, value: i32) -> (r: String)
    ensures
        r@ == (if first {
            "i32);\n"@
        } else {
            Seq::empty()
        }) + "pub const "@ + name@ + ": "@ + tn@ + " = "@ + tn@ + "("@ + signed_decimal(
            value as int,
        ) + "i32);\n"@,
{
    let mut line = String::new();
    if first {
        line.append("i32);\n");
    }
    line.append("pub const ");
    line.append(name);
    line.append(": ");
    line.append(tn);
    line.append(" = ");
    line.append(tn);
    line.append("(");
    push_signed_decimal(&mut line, value);
    line.append("i32);\n");
    proof {
        assert(line@ =~= (if first {
            "i32);\n"@
        } else {
            Seq::empty()
        }) + "pub const "@ + name@ + ": "@ + tn@ + " = "@ + tn@ + "("@ + signed_decimal(
            value as int,
        ) + "i32);\n"@);
    }
    line
}

/// The line of a union member `name` of binding type `ty`.
fn union_line(name: &str, ty: &str) -> (r: String)
    ensures
        r@ == "    "@ + name@ + " "@ + name@ + "_mut: "@ + ty@ + ",\n"@,
{
    let mut line = String::from_str("    ");
    line.append(name);
    line.append(" ");
    line.append(name);
    line.append("_mut: ");
    line.append(ty);
    line.append(",\n");
    proof {
        assert(line@ =~= "    "@ + name@ + " "@ + name@ + "_mut: "@ + ty@ + ",\n"@);
    }
    line
}

fn emit_enum(
    out: &mut String,
    lib: &OleTypeLibData,
    typeinfo: &OleTypeData,
) -> (r: Result<(), Error>)
    requires
        lib.wf(),
        lib.holds(*typeinfo),
    ensures
        match enum_text(*typeinfo) {
            Some(x) => r is Ok && final(out)@ == old(out)@ + x,
            None => r is Err,
        },
{
    let ghost tn = strip_tag(typeinfo.name@);
    let ghost part = enum_part(*typeinfo, tn);
    let ghost n = typeinfo.variables@.len() as int;
    let binding_name = strip_tag_prefix(typeinfo.name.as_str());
    out.append("pub struct ");
    out.append(binding_name.as_str());
    out.append("(pub ");
    if typeinfo.variables.len() == 0 {
        out.append("i32);\n");
    }
    let ghost head = out@;
    let ghost mut lines: Seq<char> = Seq::empty();
    let mut k: usize = 0;
    while k < typeinfo.variables.len()
        invariant
            binding_name@ == tn,
            tn == strip_tag(typeinfo.name@),
            part == enum_part(*typeinfo, tn),
            n == typeinfo.variables@.len(),
            k <= n,
            concat_parts(part, k as int) == Some(lines),
            out@ == head + lines,
        decreases typeinfo.variables@.len() - k,
    {
        match &typeinfo.variables[k] {
            Ok(member) => {
                let value = match &member.value {
                    Some(ConstValue::I4(v)) => *v,
                    _ => {
                        proof {
                            lemma_concat_parts_none(part, k + 1, n);
                        }
                        return Err(
                            Error::Custom(String::from_str("enumeration member is not a 4-byte integer")),
                        );
                    },
                };
                let line = enum_line(k == 0, member.name.as_str(), binding_name.as_str(), value);
                proof {
                    assert(enum_member_line(*typeinfo, tn, k as int) == Some(line@));
                }
                out.append(line.as_str());
                proof {
                    assert(out@ =~= head + (lines + line@));
                    lines = lines + line@;
                }
            },
            Err(s) => {
                proof {
                    lemma_concat_parts_none(part, k + 1, n);
                }
                return Err(Error::Windows(*s));
            },
        }
        k = k + 1;
    }
    out.append("\n");
    proof {
        assert(out@ =~= old(out)@ + ("pub struct "@ + tn + "(pub "@ + (if n == 0 {
            "i32);\n"@
        } else {
            Seq::empty()
        }) + lines + "\n"@));
    }
    Ok(())
}

/// The line of field `k` of record `t`.
pub open spec fn record_field_line(lib: OleTypeLibData, t: OleTypeData, k: int) -> Option<Seq<char>> {
    match t.variables@[k] {
        Ok(f) => match binding_type(lib, t, f.tdesc, PARAMFLAG_FOUT) {
            Ok(ty) => Some("    pub "@ + sanitized(f.name@) + ": "@ + ty + ",\n"@),
            Err(_) => None,
        },
        Err(_) => None,
    }
}

pub open spec fn record_part(lib: OleTypeLibData, t: OleTypeData) -> spec_fn(int) -> Option<Seq<char>> {
    |k: int| record_field_line(lib, t, k)
}

/// The debug-formatter calls for the first `n` fields of record `t`.
pub open spec fn record_debug_fields(t: OleTypeData, n: int) -> Seq<char>
    decreases n,
{
    if n <= 0 {
        Seq::empty()
    } else {
        record_debug_fields(t, n - 1) + match t.variables@[n - 1] {
            Ok(f) => ".field(\""@ + sanitized(f.name@) + "\", &self."@ + sanitized(f.name@) + ")"@,
            Err(_) => Seq::empty(),
        }
    }
}

/// What follows the fields of a record named `tn` in its bindings: the
/// copy, clone, debug and ABI implementations.
pub open spec fn record_trailer_text(tn: Seq<char>, debug_fields: Seq<char>) -> Seq<char> {
    "}\nimpl ::core::marker::Copy for "@ + tn + " {}\nimpl ::core::clone::Clone for "@ + tn
        + " {\n    fn clone(&self) -> Self {\n        *self\n    }\n}\nimpl ::core::fmt::Debug for "@
        + tn
        + " {\n    fn fmt(&self, f: &mut ::core::fmt::Formatter<'_>) -> ::core::fmt::Result {\n        f.debug_struct(\""@
        + tn + "\")"@ + debug_fields + ".finish()\n    }\n}\nunsafe impl ::windows::core::Abi for "@
        + tn + " {\n    type Abi = Self;\n}\n\n"@
}

/// The bindings of record `t`: a `repr(C)` struct named without its `tag`
/// word, one field per member, and its trait implementations.
pub open spec fn record_text(lib: OleTypeLibData, t: OleTypeData) -> Option<Seq<char>> {
    let tn = strip_tag(t.name@);
    let n = t.variables@.len() as int;
    match concat_parts(record_part(lib, t), n) {
        Some(fields) => Some(
            "#[repr(C)]\npub struct "@ + tn + " {\n"@ + fields + record_trailer_text(
                tn,
                record_debug_fields(t, n),
            ),
        ),
        None => None,
    }
}

fn record_line(name: &str, ty: &str) -> (r: String)
    ensures
        r@ == "    pub "@ + name@ + ": "@ + ty@ + ",\n"@,
{
    let mut line = String::from_str("    pub ");
    line.append(name);
    line.append(": ");
    line.append(ty);
    line.append(",\n");
    proof {
        assert(line@ =~= "    pub "@ + name@ + ": "@ + ty@ + ",\n"@);
    }
    line
}

fn debug_field(name: &str) -> (r: String)
    ensures
        r@ == ".field(\""@ + name@ + "\", &self."@ + name@ + ")"@,
{
    let mut call = String::from_str(".field(\"");
    call.append(name);
    call.append("\", &self.");
    call.append(name);
    call.append(")");
    proof {
        assert(call@ =~= ".field(\""@ + name@ + "\", &self."@ + name@ + ")"@);
    }
    call
}

fn record_trailer(tn: &str, debug_fields: &str) -> (r: String)
    ensures
        r@ == record_trailer_text(tn@, debug_fields@),
{
    let mut t = String::from_str("}\nimpl ::core::marker::Copy for ");
    t.append(tn);
    t.append(" {}\nimpl ::core::clone::Clone for ");
    t.append(tn);
    t.append(" {\n    fn clone(&self) -> Self {\n        *self\n    }\n}\nimpl ::core::fmt::Debug for ");
    t.append(tn);
    t.append(
        " {\n    fn fmt(&self, f: &mut ::core::fmt::Formatter<'_>) -> ::core::fmt::Result {\n        f.debug_struct(\"",
    );
    t.append(tn);
    t.append("\")");
    t.append(debug_fields);
    t.append(".finish()\n    }\n}\nunsafe impl ::windows::core::Abi for ");
    t.append(tn);
    t.append(" {\n    type Abi = Self;\n}\n\n");
    proof {
        assert(t@ =~= record_trailer_text(tn@, debug_fields@));
    }
    t
}

fn emit_record(
    out: &mut String,
    lib: &OleTypeLibData,
    typeinfo: &OleTypeData,
    build_result: &mut BuildResult,
) -> (r: Result<(), Error>)
    requires
        lib.wf(),
        lib.holds(*typeinfo),
    ensures
        lists_kept(*old(build_result), *final(build_result)),
        match record_text(*lib, *typeinfo) {
            Some(x) => r is Ok && final(out)@ == old(out)@ + x,
            None => r is Err,
        },
        r is Ok ==> final(build_result).num_missing_types == counted(
            old(build_result).num_missing_types,
            fields_missing(*lib, *typeinfo),
        ),
{
    let ghost part = record_part(*lib, *typeinfo);
    let ghost fpart = field_missing_part(*lib, *typeinfo);
    let ghost n = typeinfo.variables@.len() as int;
    let binding_name = strip_tag_prefix(typeinfo.name.as_str());
    out.append("#[repr(C)]\npub struct ");
    out.append(binding_name.as_str());
    out.append(" {\n");
    let ghost head = out@;
    let ghost mut fields: Seq<char> = Seq::empty();
    let mut debug_fields = String::new();
    let mut k: usize = 0;
    while k < typeinfo.variables.len()
        invariant
            lib.wf(),
            lib.holds(*typeinfo),
            part == record_part(*lib, *typeinfo),
            n == typeinfo.variables@.len(),
            k <= n,
            concat_parts(part, k as int) == Some(fields),
            out@ == head + fields,
            debug_fields@ == record_debug_fields(*typeinfo, k as int),
            lists_kept(*old(build_result), *build_result),
            fpart == field_missing_part(*lib, *typeinfo),
            build_result.num_missing_types == counted(
                old(build_result).num_missing_types,
                sum_parts(fpart, k as int),
            ),
        decreases typeinfo.variables@.len() - k,
    {
        match &typeinfo.variables[k] {
            Ok(field) => {
                let ty = match type_to_string(&field.tdesc, PARAMFLAG_FOUT, typeinfo, lib, build_result) {
                    Ok(ty) => ty,
                    Err(e) => {
                        proof {
                            lemma_concat_parts_none(part, k + 1, n);
                        }
                        return Err(e);
                    },
                };
                let field_name = sanitize_reserved(field.name.as_str());
                let line = record_line(field_name.as_str(), ty.as_str());
                proof {
                    assert(record_field_line(*lib, *typeinfo, k as int) == Some(line@));
                    lemma_counted_twice(
                        old(build_result).num_missing_types,
                        sum_parts(fpart, k as int),
                        field_missing(*lib, *typeinfo, k as int),
                    );
                }
                out.append(line.as_str());
                let call = debug_field(field_name.as_str());
                debug_fields.append(call.as_str());
                proof {
                    assert(out@ =~= head + (fields + line@));
                    fields = fields + line@;
                }
            },
            Err(s) => {
                proof {
                    lemma_concat_parts_none(part, k + 1, n);
                }
                return Err(Error::Windows(*s));
            },
        }
        k = k + 1;
    }
    let trailer = record_trailer(binding_name.as_str(), debug_fields.as_str());
    out.append(trailer.as_str());
    proof {
        assert(out@ =~= old(out)@ + ("#[repr(C)]\npub struct "@ + binding_name@ + " {\n"@ + fields
            + trailer@));
    }
    Ok(())
}

/// The declaration of the method at `key` in the bindings of a module:
/// only a static function has one.
pub open spec fn module_method_text(lib: OleTypeLibData, key: MethodKey) -> Option<Seq<char>> {
    let f = func_at(lib, key.1 as int, key.2 as int);
    let owner = lib.rec(key.1 as int);
    if f.funckind != FUNC_STATIC {
        None
    } else {
        match params_text(lib, owner, f, "    "@, false) {
            Some(p) => match binding_type(lib, owner, f.ret, PARAMFLAG_FOUT) {
                Ok(rt) => Some(
                    "extern \"system\" pub fn "@ + f.name@ + "(\n"@ + p + ") -> "@ + rt + ",\n\n"@,
                ),
                Err(_) => None,
            },
            None => None,
        }
    }
}

pub open spec fn module_part(lib: OleTypeLibData, keys: Seq<MethodKey>) -> spec_fn(int) -> Option<
    Seq<char>,
> {
    |j: int| module_method_text(lib, keys[j])
}

/// The bindings of module `slot`: one declaration per method.
pub open spec fn module_text(lib: OleTypeLibData, slot: int) -> Option<Seq<char>> {
    let keys = all_methods(lib, slot, INVOKE_ALL);
    match concat_parts(module_part(lib, keys), keys.len() as int) {
        Some(x) => Some(x + "\n"@),
        None => None,
    }
}

fn emit_module(
    out: &mut String,
    lib: &OleTypeLibData,
    slot: usize,
    build_result: &mut BuildResult,
) -> (r: Result<(), Error>)
    requires
        lib.wf(),
        lib.has(slot as int),
    ensures
        lists_kept(*old(build_result), *final(build_result)),
        match module_text(*lib, slot as int) {
            Some(x) => r is Ok && final(out)@ == old(out)@ + x,
            None => r is Err,
        },
        r is Ok ==> final(build_result).num_missing_types == counted(
            old(build_result).num_missing_types,
            sum_parts(
                module_missing_part(*lib, all_methods(*lib, slot as int, INVOKE_ALL)),
                all_methods(*lib, slot as int, INVOKE_ALL).len() as int,
            ),
        ),
{
    let methods = ole_methods_from_typeinfo(lib, slot, INVOKE_ALL);
    let ghost listing = all_methods(*lib, slot as int, INVOKE_ALL);
    let ghost part = module_part(*lib, listing);
    let ghost cpart = module_missing_part(*lib, listing);
    let ghost n = listing.len() as int;
    let ghost mut text: Seq<char> = Seq::empty();
    let mut k: usize = 0;
    while k < methods.len()
        invariant
            lib.wf(),
            forall|j: int| 0 <= j < methods@.len() ==> (#[trigger] methods@[j]).valid(*lib),
            keys(methods@) == listing,
            listing == all_methods(*lib, slot as int, INVOKE_ALL),
            part == module_part(*lib, listing),
            n == listing.len(),
            k <= methods@.len(),
            concat_parts(part, k as int) == Some(text),
            out@ == old(out)@ + text,
            lists_kept(*old(build_result), *build_result),
            cpart == module_missing_part(*lib, listing),
            build_result.num_missing_types == counted(
                old(build_result).num_missing_types,
                sum_parts(cpart, k as int),
            ),
        decreases methods@.len() - k,
    {
        let m = &methods[k];
        assert(m.valid(*lib));
        assert(listing[k as int] == m.key());
        let d = m.desc(lib);
        if d.funckind != FUNC_STATIC {
            proof {
                assert(module_method_text(*lib, listing[k as int]) is None);
                assert(concat_parts(part, k + 1) is None);
                lemma_concat_parts_none(part, k + 1, n);
            }
            return Err(Error::Custom(String::from_str("module function is not static")));
        }
        out.append("extern \"system\" pub fn ");
        out.append(m.name());
        out.append("(\n");
        let ghost after_head = out@;
        match emit_params(out, lib, m, "    ", false, build_result) {
            Ok(_) => {},
            Err(e) => {
                proof {
                    assert(module_method_text(*lib, listing[k as int]) is None);
                    assert(concat_parts(part, k + 1) is None);
                    lemma_concat_parts_none(part, k + 1, n);
                }
                return Err(e);
            },
        }
        let ghost after_params = out@;
        let owner = &lib.records[m.record];
        let ret = match type_to_string(&d.ret, PARAMFLAG_FOUT, owner, lib, build_result) {
            Ok(ret) => ret,
            Err(e) => {
                proof {
                    assert(module_method_text(*lib, listing[k as int]) is None);
                    assert(concat_parts(part, k + 1) is None);
                    lemma_concat_parts_none(part, k + 1, n);
                }
                return Err(e);
            },
        };
        out.append(") -> ");
        out.append(ret.as_str());
        out.append(",\n\n");
        proof {
            let p = after_params.subrange(after_head.len() as int, after_params.len() as int);
            assert(after_params =~= after_head + p);
            let block = "extern \"system\" pub fn "@ + m.name@ + "(\n"@ + p + ") -> "@ + ret@
                + ",\n\n"@;
            assert(module_method_text(*lib, m.key()) == Some(block));
            let f = func_at(*lib, m.record as int, m.index as int);
            let own = lib.rec(m.record as int);
            lemma_counted_twice(
                old(build_result).num_missing_types,
                sum_parts(cpart, k as int),
                params_missing(*lib, own, f, false),
            );
            lemma_counted_twice(
                old(build_result).num_missing_types,
                sum_parts(cpart, k as int) + params_missing(*lib, own, f, false),
                missing_refs(*lib, own, f.ret),
            );
            assert(out@ =~= old(out)@ + (text + block));
            text = text + block;
        }
        k = k + 1;
    }
    out.append("\n");
    proof {
        assert(out@ =~= old(out)@ + (text + "\n"@));
    }
    Ok(())
}

/// A vtable offset read as the unsigned 16-bit value that it is.
pub open spec fn unsigned_offset(o: i16) -> nat {
    if o < 0 {
        (o + 65536) as nat
    } else {
        o as nat
    }
}

/// How a vtable method's declaration begins, by invocation kind.
pub open spec fn method_head(invkind: u32) -> Seq<char> {
    if invkind == INVOKE_FUNC {
        "    fn "@
    } else if invkind == INVOKE_PROPERTYGET {
        "    fn get_"@
    } else if invkind == INVOKE_PROPERTYPUT {
        "    fn put_"@
    } else {
        "    fn putref_"@
    }
}

/// How a vtable method's declaration ends: a property get without a
/// return-value parameter returns its value through an added pointer.
pub open spec fn method_tail(invkind: u32, explicit_ret_val: bool, rt: Seq<char>) -> Seq<char> {
    if invkind == INVOKE_PROPERTYGET && !explicit_ret_val {
        "        value: *mut "@ + rt + ",\n    ) -> ::windows::core::HRESULT,\n"@
    } else {
        "    ) -> "@ + rt + ",\n"@
    }
}

/// The declaration of the method at `key` in the vtable of an interface
/// whose parents' vtables take `size` bytes: nothing for a method inherited
/// from them.
pub open spec fn interface_method_text(lib: OleTypeLibData, key: MethodKey, size: nat) -> Option<
    Seq<char>,
> {
    let f = func_at(lib, key.1 as int, key.2 as int);
    let owner = lib.rec(key.1 as int);
    let explicit_ret_val = any_retval(f, param_count(f));
    if unsigned_offset(f.vft_offset) < size {
        Some(Seq::empty())
    } else if f.funckind == FUNC_STATIC || f.funckind == FUNC_DISPATCH {
        None
    } else if f.invkind != INVOKE_FUNC && f.invkind != INVOKE_PROPERTYGET && f.invkind
        != INVOKE_PROPERTYPUT && f.invkind != INVOKE_PROPERTYPUTREF {
        None
    } else {
        match params_text(lib, owner, f, "        "@, false) {
            Some(p) => if f.invkind == INVOKE_PROPERTYGET && f.ret.vt() != VT_HRESULT
                && explicit_ret_val {
                None
            } else {
                match binding_type(lib, owner, f.ret, PARAMFLAG_FOUT) {
                    Ok(rt) => Some(
                        method_head(f.invkind) + f.name@ + "(\n"@ + p + method_tail(
                            f.invkind,
                            explicit_ret_val,
                            rt,
                        ),
                    ),
                    Err(_) => None,
                }
            },
            None => None,
        }
    }
}

pub open spec fn interface_method_part(lib: OleTypeLibData, listing: Seq<MethodKey>, size: nat) -> spec_fn(
    int,
) -> Option<Seq<char>> {
    |j: int| interface_method_text(lib, listing[j], size)
}

/// The accessor pair synthesized for variable `k` of interface `t`.
pub open spec fn property_text(lib: OleTypeLibData, t: OleTypeData, k: int) -> Option<Seq<char>> {
    match t.variables@[k] {
        Ok(p) => match binding_type(lib, t, p.tdesc, PARAMFLAG_FOUT) {
            Ok(g) => match binding_type(lib, t, p.tdesc, PARAMFLAG_FIN) {
                Ok(pt) => Some(
                    "    fn get_"@ + sanitized(p.name@) + "(\n        value: *mut "@ + g
                        + ",\n    ) -> ::windows::core::HRESULT,\n    fn put_"@ + sanitized(p.name@)
                        + "(\n        value: "@ + pt + ",\n    ) -> ::windows::core::HRESULT,\n"@,
                ),
                Err(_) => None,
            },
            Err(_) => None,
        },
        Err(_) => None,
    }
}

pub open spec fn property_part(lib: OleTypeLibData, t: OleTypeData) -> spec_fn(int) -> Option<Seq<char>> {
    |k: int| property_text(lib, t, k)
}

/// The parent list of an interface declaration, for `parents[..n]`.
pub open spec fn parents_text(lib: OleTypeLibData, parents: Seq<usize>, n: int) -> Seq<char>
    decreases n,
{
    if n <= 0 {
        Seq::empty()
    } else {
        parents_text(lib, parents, n - 1) + (if n - 1 == 0 {
            ": "@
        } else {
            ", "@
        }) + lib.rec(parents[n - 1] as int).name@ + "("@ + lib.rec(parents[n - 1] as int).name@
            + "Vtbl)"@
    }
}

/// The bytes that the vtables of `parents[..n]` take, counted until the
/// count passes 32 bits.
pub open spec fn vtbl_size(lib: OleTypeLibData, parents: Seq<usize>, n: int) -> nat
    decreases n,
{
    if n <= 0 {
        0
    } else {
        let prev = vtbl_size(lib, parents, n - 1);
        if prev < 0x1_0000_0000 {
            (prev + lib.rec(parents[n - 1] as int).size_vft) as nat
        } else {
            prev
        }
    }
}

/// How the bindings of interface `t` begin: its identifier, and its name.
pub open spec fn interface_header(t: OleTypeData) -> Seq<char> {
    interface_impl_text(t.name@, t.guid) + "interface "@ + t.name@ + "("@ + t.name@ + "Vtbl)"@
}

/// The bindings of the interface at `slot`: its identifier, its parents,
/// the methods it adds to their vtables, and an accessor pair per variable.
pub open spec fn interface_text(lib: OleTypeLibData, slot: int) -> Option<Seq<char>> {
    let t = lib.rec(slot);
    let parents = impl_types_with(t, IMPLTYPEFLAG_NONE);
    let size = vtbl_size(lib, parents, parents.len() as int);
    let listing = all_methods(lib, slot, INVOKE_ALL);
    match concat_parts(interface_method_part(lib, listing, size), listing.len() as int) {
        Some(ms) => match concat_parts(property_part(lib, t), t.variables@.len() as int) {
            Some(ps) => Some(
                interface_header(t) + parents_text(lib, parents, parents.len() as int) + " {\n"@
                    + ms + ps + "}}\n\n"@,
            ),
            None => None,
        },
        None => None,
    }
}

fn method_head_str(invkind: u32) -> (r: &'static str)
    ensures
        r@ == method_head(invkind),
{
    if invkind == INVOKE_FUNC {
        "    fn "
    } else if invkind == INVOKE_PROPERTYGET {
        "    fn get_"
    } else if invkind == INVOKE_PROPERTYPUT {
        "    fn put_"
    } else {
        "    fn putref_"
    }
}

fn method_tail_string(invkind: u32, explicit_ret_val: bool, rt: &str) -> (r: String)
    ensures
        r@ == method_tail(invkind, explicit_ret_val, rt@),
{
    if invkind == INVOKE_PROPERTYGET && !explicit_ret_val {
        let mut t = String::from_str("        value: *mut ");
        t.append(rt);
        t.append(",\n    ) -> ::windows::core::HRESULT,\n");
        proof {
            assert(t@ =~= method_tail(invkind, explicit_ret_val, rt@));
        }
        t
    } else {
        let mut t = String::from_str("    ) -> ");
        t.append(rt);
        t.append(",\n");
        proof {
            assert(t@ =~= method_tail(invkind, explicit_ret_val, rt@));
        }
        t
    }
}

/// Appends the vtable declaration of method `m`, unless the parents'
/// vtables, of `size` bytes, hold it already.
fn emit_interface_method(
    out: &mut String,
    lib: &OleTypeLibData,
    m: &OleMethodData,
    size: u64,
    build_result: &mut BuildResult,
) -> (r: Result<(), Error>)
    requires
        lib.wf(),
        m.valid(*lib),
    ensures
        lists_kept(*old(build_result), *final(build_result)),
        match interface_method_text(*lib, m.key(), size as nat) {
            Some(x) => r is Ok && final(out)@ == old(out)@ + x,
            None => r is Err,
        },
        r is Ok ==> final(build_result).num_missing_types == counted(
            old(build_result).num_missing_types,
            interface_method_missing(*lib, m.key(), size as nat),
        ),
{
    let d = m.desc(lib);
    let owner = &lib.records[m.record];
    let offset: u64 = if d.vft_offset < 0 {
        (d.vft_offset as i32 + 65536) as u64
    } else {
        d.vft_offset as u64
    };
    if offset < size {
        proof {
            assert(old(out)@ + Seq::<char>::empty() =~= old(out)@);
        }
        return Ok(());
    }
    if d.funckind == FUNC_STATIC || d.funckind == FUNC_DISPATCH {
        return Err(Error::Custom(String::from_str("interface function has no vtable slot")));
    }
    if d.invkind != INVOKE_FUNC && d.invkind != INVOKE_PROPERTYGET && d.invkind != INVOKE_PROPERTYPUT
        && d.invkind != INVOKE_PROPERTYPUTREF {
        return Err(Error::Custom(String::from_str("unknown invocation kind")));
    }
    out.append(method_head_str(d.invkind));
    out.append(m.name());
    out.append("(\n");
    let ghost after_head = out@;
    let explicit_ret_val = emit_params(out, lib, m, "        ", false, build_result)?;
    let ghost after_params = out@;
    if d.invkind == INVOKE_PROPERTYGET && d.ret.vartype() != VT_HRESULT && explicit_ret_val {
        return Err(
            Error::Custom(
                String::from_str("property with a return value parameter does not return a status"),
            ),
        );
    }
    let ret = type_to_string(&d.ret, PARAMFLAG_FOUT, owner, lib, build_result)?;
    let tail = method_tail_string(d.invkind, explicit_ret_val, ret.as_str());
    proof {
        lemma_counted_twice(
            old(build_result).num_missing_types,
            params_missing(*lib, *owner, *d, false),
            missing_refs(*lib, *owner, d.ret),
        );
    }
    out.append(tail.as_str());
    proof {
        let p = after_params.subrange(after_head.len() as int, after_params.len() as int);
        assert(after_params =~= after_head + p);
        assert(out@ =~= old(out)@ + (method_head(d.invkind) + m.name@ + "(\n"@ + p + tail@));
    }
    Ok(())
}

fn property_pair(name: &str, get_ty: &str, put_ty: &str) -> (r: String)
    ensures
        r@ == "    fn get_"@ + name@ + "(\n        value: *mut "@ + get_ty@
            + ",\n    ) -> ::windows::core::HRESULT,\n    fn put_"@ + name@ + "(\n        value: "@
            + put_ty@ + ",\n    ) -> ::windows::core::HRESULT,\n"@,
{
    let mut t = String::from_str("    fn get_");
    t.append(name);
    t.append("(\n        value: *mut ");
    t.append(get_ty);
    t.append(",\n    ) -> ::windows::core::HRESULT,\n    fn put_");
    t.append(name);
    t.append("(\n        value: ");
    t.append(put_ty);
    t.append(",\n    ) -> ::windows::core::HRESULT,\n");
    proof {
        assert(t@ =~= "    fn get_"@ + name@ + "(\n        value: *mut "@ + get_ty@
            + ",\n    ) -> ::windows::core::HRESULT,\n    fn put_"@ + name@ + "(\n        value: "@
            + put_ty@ + ",\n    ) -> ::windows::core::HRESULT,\n"@);
    }
    t
}

/// Appends the parent list of interface `typeinfo`'s declaration and gives
/// the bytes that the parents' vtables take.
fn emit_parents(out: &mut String, lib: &OleTypeLibData, typeinfo: &OleTypeData) -> (r: u64)
    requires
        lib.wf(),
        lib.holds(*typeinfo),
    ensures
        r == vtbl_size(
            *lib,
            impl_types_with(*typeinfo, IMPLTYPEFLAG_NONE),
            impl_types_with(*typeinfo, IMPLTYPEFLAG_NONE).len() as int,
        ),
        final(out)@ == old(out)@ + parents_text(
            *lib,
            impl_types_with(*typeinfo, IMPLTYPEFLAG_NONE),
            impl_types_with(*typeinfo, IMPLTYPEFLAG_NONE).len() as int,
        ),
{
    let parents = typeinfo.implemented_ole_types(lib);
    let mut parents_vtbl_size: u64 = 0;
    let mut k: usize = 0;
    while k < parents.len()
        invariant
            lib.wf(),
            k <= parents@.len(),
            forall|j: int| 0 <= j < parents@.len() ==> lib.has(#[trigger] parents@[j] as int),
            parents_vtbl_size == vtbl_size(*lib, parents@, k as int),
            parents_vtbl_size < 0x1_0000_0000 + 0x10000,
            out@ == old(out)@ + parents_text(*lib, parents@, k as int),
        decreases parents@.len() - k,
    {
        let parent = &lib.records[parents[k]];
        if k == 0 {
            out.append(": ");
        } else {
            out.append(", ");
        }
        out.append(parent.name.as_str());
        out.append("(");
        out.append(parent.name.as_str());
        out.append("Vtbl)");
        if parents_vtbl_size < 0x1_0000_0000 {
            parents_vtbl_size = parents_vtbl_size + parent.size_vft as u64;
        }
        proof {
            assert(out@ =~= old(out)@ + parents_text(*lib, parents@, k + 1));
        }
        k = k + 1;
    }
    parents_vtbl_size
}

/// Appends the vtable declarations of the methods of the interface at
/// `slot` that its parents' vtables, of `size` bytes, do not hold.
fn emit_interface_methods(
    out: &mut String,
    lib: &OleTypeLibData,
    slot: usize,
    size: u64,
    build_result: &mut BuildResult,
) -> (r: Result<(), Error>)
    requires
        lib.wf(),
        lib.has(slot as int),
    ensures
        lists_kept(*old(build_result), *final(build_result)),
        match concat_parts(
            interface_method_part(*lib, all_methods(*lib, slot as int, INVOKE_ALL), size as nat),
            all_methods(*lib, slot as int, INVOKE_ALL).len() as int,
        ) {
            Some(x) => r is Ok && final(out)@ == old(out)@ + x,
            None => r is Err,
        },
        r is Ok ==> final(build_result).num_missing_types == counted(
            old(build_result).num_missing_types,
            sum_parts(
                interface_method_missing_part(
                    *lib,
                    all_methods(*lib, slot as int, INVOKE_ALL),
                    size as nat,
                ),
                all_methods(*lib, slot as int, INVOKE_ALL).len() as int,
            ),
        ),
{
    let methods = ole_methods_from_typeinfo(lib, slot, INVOKE_ALL);
    let ghost listing = all_methods(*lib, slot as int, INVOKE_ALL);
    let ghost mpart = interface_method_part(*lib, listing, size as nat);
    let ghost mn = listing.len() as int;
    let ghost cpart = interface_method_missing_part(*lib, listing, size as nat);
    let ghost mut ms: Seq<char> = Seq::empty();
    let mut k: usize = 0;
    while k < methods.len()
        invariant
            lib.wf(),
            forall|j: int| 0 <= j < methods@.len() ==> (#[trigger] methods@[j]).valid(*lib),
            keys(methods@) == listing,
            listing == all_methods(*lib, slot as int, INVOKE_ALL),
            mpart == interface_method_part(*lib, listing, size as nat),
            mn == listing.len(),
            k <= methods@.len(),
            concat_parts(mpart, k as int) == Some(ms),
            out@ == old(out)@ + ms,
            lists_kept(*old(build_result), *build_result),
            cpart == interface_method_missing_part(*lib, listing, size as nat),
            build_result.num_missing_types == counted(
                old(build_result).num_missing_types,
                sum_parts(cpart, k as int),
            ),
        decreases methods@.len() - k,
    {
        let m = &methods[k];
        assert(m.valid(*lib));
        assert(listing[k as int] == m.key());
        match emit_interface_method(out, lib, m, size, build_result) {
            Ok(()) => {},
            Err(e) => {
                proof {
                    assert(concat_parts(mpart, k + 1) is None);
                    lemma_concat_parts_none(mpart, k + 1, mn);
                }
                return Err(e);
            },
        }
        proof {
            let x = interface_method_text(*lib, m.key(), size as nat)->Some_0;
            lemma_counted_twice(
                old(build_result).num_missing_types,
                sum_parts(cpart, k as int),
                interface_method_missing(*lib, m.key(), size as nat),
            );
            assert(out@ =~= old(out)@ + (ms + x));
            ms = ms + x;
        }
        k = k + 1;
    }
    Ok(())
}

/// Appends the accessor pairs synthesized for the variables of interface
/// `typeinfo`.
fn emit_properties(
    out: &mut String,
    lib: &OleTypeLibData,
    typeinfo: &OleTypeData,
    build_result: &mut BuildResult,
) -> (r: Result<(), Error>)
    requires
        lib.wf(),
        lib.holds(*typeinfo),
    ensures
        lists_kept(*old(build_result), *final(build_result)),
        match concat_parts(property_part(*lib, *typeinfo), typeinfo.variables@.len() as int) {
            Some(x) => r is Ok && final(out)@ == old(out)@ + x,
            None => r is Err,
        },
        r is Ok ==> final(build_result).num_missing_types == counted(
            old(build_result).num_missing_types,
            sum_parts(property_missing_part(*lib, *typeinfo), typeinfo.variables@.len() as int),
        ),
{
    let ghost ppart = property_part(*lib, *typeinfo);
    let ghost pn = typeinfo.variables@.len() as int;
    let ghost cpart = property_missing_part(*lib, *typeinfo);
    let ghost mut ps: Seq<char> = Seq::empty();
    let mut k: usize = 0;
    while k < typeinfo.variables.len()
        invariant
            lib.wf(),
            lib.holds(*typeinfo),
            ppart == property_part(*lib, *typeinfo),
            pn == typeinfo.variables@.len(),
            k <= pn,
            concat_parts(ppart, k as int) == Some(ps),
            out@ == old(out)@ + ps,
            lists_kept(*old(build_result), *build_result),
            cpart == property_missing_part(*lib, *typeinfo),
            build_result.num_missing_types == counted(
                old(build_result).num_missing_types,
                sum_parts(cpart, k as int),
            ),
        decreases typeinfo.variables@.len() - k,
    {
        match &typeinfo.variables[k] {
            Ok(property) => {
                let property_name = sanitize_reserved(property.name.as_str());
                let get_ty = match type_to_string(&property.tdesc, PARAMFLAG_FOUT, typeinfo, lib, build_result) {
                    Ok(t) => t,
                    Err(e) => {
                        proof {
                            lemma_concat_parts_none(ppart, k + 1, pn);
                        }
                        return Err(e);
                    },
                };
                let put_ty = match type_to_string(&property.tdesc, PARAMFLAG_FIN, typeinfo, lib, build_result) {
                    Ok(t) => t,
                    Err(e) => {
                        proof {
                            lemma_concat_parts_none(ppart, k + 1, pn);
                        }
                        return Err(e);
                    },
                };
                let pair = property_pair(property_name.as_str(), get_ty.as_str(), put_ty.as_str());
                proof {
                    assert(property_text(*lib, *typeinfo, k as int) == Some(pair@));
                    let fm = field_missing(*lib, *typeinfo, k as int);
                    lemma_counted_twice(
                        old(build_result).num_missing_types,
                        sum_parts(cpart, k as int),
                        fm,
                    );
                    lemma_counted_twice(
                        old(build_result).num_missing_types,
                        sum_parts(cpart, k as int) + fm,
                        fm,
                    );
                }
                out.append(pair.as_str());
                proof {
                    assert(out@ =~= old(out)@ + (ps + pair@));
                    ps = ps + pair@;
                }
            },
            Err(s) => {
                proof {
                    lemma_concat_parts_none(ppart, k + 1, pn);
                }
                return Err(Error::Windows(*s));
            },
        }
        k = k + 1;
    }
    Ok(())
}

fn push_interface_header(out: &mut String, typeinfo: &OleTypeData)
    ensures
        final(out)@ == old(out)@ + interface_header(*typeinfo),
{
    push_interface_impl(out, typeinfo.name.as_str(), &typeinfo.guid);
    out.append("interface ");
    out.append(typeinfo.name.as_str());
    out.append("(");
    out.append(typeinfo.name.as_str());
    out.append("Vtbl)");
    proof {
        assert(out@ =~= old(out)@ + interface_header(*typeinfo));
    }
}

#[verifier::rlimit(40)]
fn emit_interface(
    out: &mut String,
    lib: &OleTypeLibData,
    slot: usize,
    build_result: &mut BuildResult,
) -> (r: Result<(), Error>)
    requires
        lib.wf(),
        lib.has(slot as int),
    ensures
        lists_kept(*old(build_result), *final(build_result)),
        match interface_text(*lib, slot as int) {
            Some(x) => r is Ok && final(out)@ == old(out)@ + x,
            None => r is Err,
        },
        r is Ok ==> final(build_result).num_missing_types == counted(
            old(build_result).num_missing_types,
            interface_missing(*lib, slot as int),
        ),
{
    let typeinfo = &lib.records[slot];
    assert(lib.holds(*typeinfo));
    let ghost parents = impl_types_with(*typeinfo, IMPLTYPEFLAG_NONE);
    let ghost pt = parents_text(*lib, parents, parents.len() as int);
    push_interface_header(out, typeinfo);
    let size = emit_parents(out, lib, typeinfo);
    out.append(" {\n");
    let ghost body = out@;
    assert(body =~= old(out)@ + (interface_header(*typeinfo) + pt + " {\n"@));
    emit_interface_methods(out, lib, slot, size, build_result)?;
    let ghost after_methods = out@;
    emit_properties(out, lib, typeinfo, build_result)?;
    let ghost after_props = out@;
    proof {
        let parents = impl_types_with(*typeinfo, IMPLTYPEFLAG_NONE);
        let listing = all_methods(*lib, slot as int, INVOKE_ALL);
        lemma_counted_twice(
            old(build_result).num_missing_types,
            sum_parts(
                interface_method_missing_part(*lib, listing, size as nat),
                listing.len() as int,
            ),
            sum_parts(property_missing_part(*lib, *typeinfo), typeinfo.variables@.len() as int),
        );
    }
    out.append("}}\n\n");
    proof {
        let ms = after_methods.subrange(body.len() as int, after_methods.len() as int);
        let ps = after_props.subrange(after_methods.len() as int, after_props.len() as int);
        assert(after_methods =~= body + ms);
        assert(after_props =~= after_methods + ps);
        assert(out@ =~= old(out)@ + (interface_header(*typeinfo) + pt + " {\n"@ + ms + ps
            + "}}\n\n"@));
    }
    Ok(())
}

fn emit_coclass(out: &mut String, lib: &OleTypeLibData, typeinfo: &OleTypeData)
    requires
        lib.wf(),
        lib.holds(*typeinfo),
    ensures
        final(out)@ == old(out)@ + coclass_text(*lib, *typeinfo),
{
    let parents = typeinfo.implemented_ole_types(lib);
    let mut k: usize = 0;
    while k < parents.len()
        invariant
            k <= parents@.len(),
            forall|j: int| 0 <= j < parents@.len() ==> lib.has(#[trigger] parents@[j] as int),
            out@ == old(out)@ + implements_lines(*lib, parents@, k as int),
        decreases parents@.len() - k,
    {
        out.append("// Implements ");
        out.append(lib.records[parents[k]].name.as_str());
        out.append("\n");
        proof {
            assert(out@ =~= old(out)@ + implements_lines(*lib, parents@, k + 1));
        }
        k = k + 1;
    }
    push_interface_impl(out, typeinfo.name.as_str(), &typeinfo.guid);
    out.append("class ");
    out.append(typeinfo.name.as_str());
    out.append("; }\n\n");
    proof {
        assert(out@ =~= old(out)@ + coclass_text(*lib, *typeinfo));
    }
}

fn emit_alias(
    out: &mut String,
    lib: &OleTypeLibData,
    typeinfo: &OleTypeData,
    build_result: &mut BuildResult,
) -> (r: Result<(), Error>)
    requires
        lib.wf(),
        lib.holds(*typeinfo),
    ensures
        lists_kept(*old(build_result), *final(build_result)),
        match alias_text(*lib, *typeinfo) {
            Some(x) => r is Ok && final(out)@ == old(out)@ + x,
            None => r is Err,
        },
        r is Ok ==> final(build_result).num_missing_types == counted(
            old(build_result).num_missing_types,
            missing_refs(*lib, *typeinfo, typeinfo.alias),
        ),
{
    let ty = type_to_string(&typeinfo.alias, PARAMFLAG_FOUT, typeinfo, lib, build_result)?;
    out.append("pub type ");
    out.append(typeinfo.name.as_str());
    out.append(" = ");
    out.append(ty.as_str());
    out.append(";\n\n");
    proof {
        assert(out@ =~= old(out)@ + ("pub type "@ + typeinfo.name@ + " = "@ + ty@ + ";\n\n"@));
    }
    Ok(())
}

fn emit_union(
    out: &mut String,
    lib: &OleTypeLibData,
    typeinfo: &OleTypeData,
    build_result: &mut BuildResult,
) -> (r: Result<(), Error>)
    requires
        lib.wf(),
        lib.holds(*typeinfo),
    ensures
        lists_kept(*old(build_result), *final(build_result)),
        match union_text(*lib, *typeinfo) {
            Some(x) => r is Ok && final(out)@ == old(out)@ + x,
            None => r is Err,
        },
        r is Ok ==> final(build_result).num_missing_types == counted(
            old(build_result).num_missing_types,
            fields_missing(*lib, *typeinfo),
        ),
{
    let ghost part = union_part(*lib, *typeinfo);
    let ghost fpart = field_missing_part(*lib, *typeinfo);
    let ghost n = typeinfo.variables@.len() as int;
    let wrapped = union_storage_type(typeinfo.size_instance, typeinfo.alignment)?;
    out.append("UNION2!{union ");
    out.append(typeinfo.name.as_str());
    out.append(" {\n    ");
    out.append(wrapped.as_str());
    out.append(",\n");
    let ghost head = out@;
    let ghost mut fields: Seq<char> = Seq::empty();
    let mut k: usize = 0;
    while k < typeinfo.variables.len()
        invariant
            lib.wf(),
            lib.holds(*typeinfo),
            part == union_part(*lib, *typeinfo),
            n == typeinfo.variables@.len(),
            k <= n,
            concat_parts(part, k as int) == Some(fields),
            out@ == head + fields,
            lists_kept(*old(build_result), *build_result),
            fpart == field_missing_part(*lib, *typeinfo),
            build_result.num_missing_types == counted(
                old(build_result).num_missing_types,
                sum_parts(fpart, k as int),
            ),
        decreases typeinfo.variables@.len() - k,
    {
        match &typeinfo.variables[k] {
            Ok(field) => {
                let field_name = sanitize_reserved(field.name.as_str());
                let ty = match type_to_string(&field.tdesc, PARAMFLAG_FOUT, typeinfo, lib, build_result) {
                    Ok(ty) => ty,
                    Err(e) => {
                        proof {
                            lemma_concat_parts_none(part, k + 1, n);
                        }
                        return Err(e);
                    },
                };
                let line = union_line(field_name.as_str(), ty.as_str());
                proof {
                    assert(union_field_line(*lib, *typeinfo, k as int) == Some(line@));
                    lemma_counted_twice(
                        old(build_result).num_missing_types,
                        sum_parts(fpart, k as int),
                        field_missing(*lib, *typeinfo, k as int),
                    );
                }
                out.append(line.as_str());
                proof {
                    assert(out@ =~= head + (fields + line@));
                    fields = fields + line@;
                }
            },
            Err(s) => {
                proof {
                    lemma_concat_parts_none(part, k + 1, n);
                }
                return Err(Error::Windows(*s));
            },
        }
        k = k + 1;
    }
    out.append("}}\n\n");
    proof {
        assert(out@ =~= old(out)@ + ("UNION2!{union "@ + typeinfo.name@ + " {\n    "@ + wrapped@
            + ",\n"@ + fields + "}}\n\n"@));
    }
    Ok(())
}

/// The locals and the argument block of a generated wrapper.
pub open spec fn disp_params_text(
    rgvarg: Seq<char>,
    named: Seq<char>,
    cargs: nat,
    cnamed: Seq<char>,
) -> Seq<char> {
    "        let mut result = VARIANT::default();\n\n        let mut exception_info = EXCEPINFO::default();\n\n        let mut error_arg = 0;\n\n        let mut disp_params = DISPPARAMS {\n            rgvarg: "@
        + rgvarg + ",\n            rgdispidNamedArgs: "@ + named + ",\n            cArgs: "@
        + decimal(cargs) + ",\n            cNamedArgs: "@ + cnamed + ",\n        };\n\n"@
}

/// Appends the locals and the argument block of a generated wrapper.
fn push_disp_params(out: &mut String, rgvarg: &str, named: &str, cargs: u64, cnamed: &str)
    ensures
        final(out)@ == old(out)@ + disp_params_text(rgvarg@, named@, cargs as nat, cnamed@),
{
    out.append(
        "        let mut result = VARIANT::default();\n\n        let mut exception_info = EXCEPINFO::default();\n\n        let mut error_arg = 0;\n\n        let mut disp_params = DISPPARAMS {\n            rgvarg: ",
    );
    out.append(rgvarg);
    out.append(",\n            rgdispidNamedArgs: ");
    out.append(named);
    out.append(",\n            cArgs: ");
    push_decimal(out, cargs);
    out.append(",\n            cNamedArgs: ");
    out.append(cnamed);
    out.append(",\n        };\n\n");
    proof {
        assert(out@ =~= old(out)@ + disp_params_text(rgvarg@, named@, cargs as nat, cnamed@));
    }
}

/// The late-bound call of member `memid` with operation `wflags` that ends
/// a generated wrapper.
pub open spec fn invoke_call_text(memid: i32, wflags: Seq<char>) -> Seq<char> {
    "        let hr = IDispatch::Invoke(\n            self,\n            /* dispIdMember */ "@
        + signed_decimal(memid as int)
        + ",\n            /* riid */ &IID_NULL,\n            /* lcid */ 0,\n            /* wFlags */ "@
        + wflags
        + ",\n            /* pDispParams */ &disp_params,\n            /* pVarResult */ Some(&mut result),\n            /* pExcepInfo */ Some(&mut exception_info),\n            /* puArgErr */ Some(&mut error_arg),\n        );\n\n        (hr, result, exception_info, error_arg)\n    }\n\n"@
}

/// Appends the late-bound call of member `memid` with operation `wflags`
/// that ends a generated wrapper.
fn push_invoke_call(out: &mut String, memid: i32, wflags: &str)
    ensures
        final(out)@ == old(out)@ + invoke_call_text(memid, wflags@),
{
    out.append("        let hr = IDispatch::Invoke(\n            self,\n            /* dispIdMember */ ");
    push_signed_decimal(out, memid);
    out.append(",\n            /* riid */ &IID_NULL,\n            /* lcid */ 0,\n            /* wFlags */ ");
    out.append(wflags);
    out.append(
        ",\n            /* pDispParams */ &disp_params,\n            /* pVarResult */ Some(&mut result),\n            /* pExcepInfo */ Some(&mut exception_info),\n            /* puArgErr */ Some(&mut error_arg),\n        );\n\n        (hr, result, exception_info, error_arg)\n    }\n\n",
    );
    proof {
        assert(out@ =~= old(out)@ + invoke_call_text(memid, wflags@));
    }
}

/// The element of a generated argument array that stores argument `name`
/// of descriptor `td` of record `owner` in a variant.
pub open spec fn variant_arg_text(
    lib: OleTypeLibData,
    owner: OleTypeData,
    td: TypeDesc,
    name: Seq<char>,
) -> Option<Seq<char>> {
    match mutator(lib, owner, td, name) {
        Some((vt, text)) => Some(
            "            { let mut v = VARIANT::default(); (*v).Anonymous.Anonymous.vt = VARENUM("@
                + decimal(vt as nat) + "); (*v)"@ + text + "; v },\n"@,
        ),
        None => None,
    }
}

/// Appends the element of a generated argument array that stores argument
/// `name` of descriptor `td` in a variant.
fn push_variant_arg(
    out: &mut String,
    td: &TypeDesc,
    name: &str,
    typeinfo: &OleTypeData,
    lib: &OleTypeLibData,
) -> (r: Result<(), Error>)
    requires
        lib.wf(),
        lib.holds(*typeinfo),
    ensures
        match variant_arg_text(*lib, *typeinfo, *td, name@) {
            Some(x) => r is Ok && final(out)@ == old(out)@ + x,
            None => r is Err,
        },
{
    let (vt, mutator_text) = vartype_mutator(td, name, typeinfo, lib)?;
    out.append("            { let mut v = VARIANT::default(); (*v).Anonymous.Anonymous.vt = VARENUM(");
    push_decimal(out, vt as u64);
    out.append("); (*v)");
    out.append(mutator_text.as_str());
    out.append("; v },\n");
    proof {
        assert(out@ =~= old(out)@ + ("            { let mut v = VARIANT::default(); (*v).Anonymous.Anonymous.vt = VARENUM("@
            + decimal(vt as nat) + "); (*v)"@ + mutator_text@ + "; v },\n"@));
    }
    Ok(())
}

/// Size in bytes of the dispatch part of a vtable: three entries of the
/// base interface and four of the dispatch interface.
pub const DISPATCH_VTBL_SIZE: u16 = 56;

/// How many parameters among the first `n` of `f` are not the return value.
pub open spec fn non_retval_count(f: FuncDesc, n: int) -> nat
    decreases n,
{
    if n <= 0 {
        0
    } else {
        non_retval_count(f, n - 1) + if is_retval(f, n - 1) {
            0nat
        } else {
            1nat
        }
    }
}

/// The argument-array element for parameter `k` of `f`, a function of
/// record `owner`; the return-value parameter has none.
pub open spec fn arg_line(lib: OleTypeLibData, owner: OleTypeData, f: FuncDesc, k: int) -> Option<
    Seq<char>,
> {
    if is_retval(f, k) {
        Some(Seq::empty())
    } else {
        variant_arg_text(lib, owner, f.params@[k].tdesc, sanitized(f.names@[k + 1]@))
    }
}

/// Part `j` of the argument array: the element of parameter `n - 1 - j`,
/// so that the last declared parameter comes first.
pub open spec fn arg_part(lib: OleTypeLibData, owner: OleTypeData, f: FuncDesc, n: int) -> spec_fn(
    int,
) -> Option<Seq<char>> {
    |j: int| arg_line(lib, owner, f, n - 1 - j)
}

/// The method name's prefix in a late-bound wrapper, by invocation kind.
pub open spec fn dispatch_prefix(invkind: u32) -> Seq<char> {
    if invkind == INVOKE_FUNC {
        ""@
    } else if invkind == INVOKE_PROPERTYGET {
        "get_"@
    } else if invkind == INVOKE_PROPERTYPUT {
        "put_"@
    } else {
        "putref_"@
    }
}

/// The operation of a late-bound call, by invocation kind.
pub open spec fn dispatch_wflags(invkind: u32) -> Seq<char> {
    if invkind == INVOKE_FUNC {
        "DISPATCH_METHOD"@
    } else if invkind == INVOKE_PROPERTYGET {
        "DISPATCH_PROPERTYGET"@
    } else if invkind == INVOKE_PROPERTYPUT {
        "DISPATCH_PROPERTYPUT"@
    } else {
        "DISPATCH_PROPERTYPUTREF"@
    }
}

pub open spec fn is_put(invkind: u32) -> bool {
    invkind == INVOKE_PROPERTYPUT || invkind == INVOKE_PROPERTYPUTREF
}

/// What follows the argument array of a late-bound wrapper: the named
/// argument of a put, the argument block, and the call.
pub open spec fn wrapper_tail(f: FuncDesc, count: nat) -> Seq<char> {
    (if is_put(f.invkind) {
        "        let disp_id_put = DISPID_PROPERTYPUT;\n\n"@
    } else {
        Seq::empty()
    }) + disp_params_text(
        if count > 0 {
            "args.as_mut_ptr()"@
        } else {
            "::core::ptr::null_mut()"@
        },
        if is_put(f.invkind) {
            "&disp_id_put"@
        } else {
            "::core::ptr::null_mut()"@
        },
        count,
        if is_put(f.invkind) {
            "1"@
        } else {
            "0"@
        },
    ) + invoke_call_text(f.memid, dispatch_wflags(f.invkind))
}

/// The late-bound wrapper of the method at `key`: its parameters but the
/// return value, then an argument array that holds them last-declared
/// first, then the call.
pub open spec fn dispatch_method_text(lib: OleTypeLibData, key: MethodKey) -> Option<Seq<char>> {
    let f = func_at(lib, key.1 as int, key.2 as int);
    let owner = lib.rec(key.1 as int);
    let n = param_count(f);
    let count = non_retval_count(f, n);
    if f.invkind != INVOKE_FUNC && f.invkind != INVOKE_PROPERTYGET && f.invkind
        != INVOKE_PROPERTYPUT && f.invkind != INVOKE_PROPERTYPUTREF {
        None
    } else {
        match params_text(lib, owner, f, "        "@, true) {
            Some(p) => {
                let head = wrapper_head(f.invkind, f.name@) + p
                    + "    ) -> (HRESULT, VARIANT, EXCEPINFO, UINT) {\n"@;
                if count > 0 {
                    match concat_parts(arg_part(lib, owner, f, n), n) {
                        Some(args) => Some(head + args_array_text(count, args) + wrapper_tail(f, count)),
                        None => None,
                    }
                } else {
                    Some(head + wrapper_tail(f, count))
                }
            },
            None => None,
        }
    }
}

fn dispatch_prefix_str(invkind: u32) -> (r: &'static str)
    ensures
        r@ == dispatch_prefix(invkind),
{
    if invkind == INVOKE_FUNC {
        ""
    } else if invkind == INVOKE_PROPERTYGET {
        "get_"
    } else if invkind == INVOKE_PROPERTYPUT {
        "put_"
    } else {
        "putref_"
    }
}

fn dispatch_wflags_str(invkind: u32) -> (r: &'static str)
    ensures
        r@ == dispatch_wflags(invkind),
{
    if invkind == INVOKE_FUNC {
        "DISPATCH_METHOD"
    } else if invkind == INVOKE_PROPERTYGET {
        "DISPATCH_PROPERTYGET"
    } else if invkind == INVOKE_PROPERTYPUT {
        "DISPATCH_PROPERTYPUT"
    } else {
        "DISPATCH_PROPERTYPUTREF"
    }
}

/// Appends what follows the argument array of the wrapper of `f`.
fn push_wrapper_tail(out: &mut String, f: &FuncDesc, count: u64)
    ensures
        final(out)@ == old(out)@ + wrapper_tail(*f, count as nat),
{
    let put = f.invkind == INVOKE_PROPERTYPUT || f.invkind == INVOKE_PROPERTYPUTREF;
    if put {
        out.append("        let disp_id_put = DISPID_PROPERTYPUT;\n\n");
    }
    push_disp_params(
        out,
        if count > 0 {
            "args.as_mut_ptr()"
        } else {
            "::core::ptr::null_mut()"
        },
        if put {
            "&disp_id_put"
        } else {
            "::core::ptr::null_mut()"
        },
        count,
        if put {
            "1"
        } else {
            "0"
        },
    );
    push_invoke_call(out, f.memid, dispatch_wflags_str(f.invkind));
    proof {
        assert(out@ =~= old(out)@ + wrapper_tail(*f, count as nat));
    }
}

/// Appends the argument array of the wrapper of method `m`: one element per
/// parameter but the return value, last declared first.
fn emit_wrapper_args(out: &mut String, lib: &OleTypeLibData, m: &OleMethodData) -> (r: Result<(), Error>)
    requires
        lib.wf(),
        m.valid(*lib),
    ensures
        match concat_parts(
            arg_part(
                *lib,
                lib.rec(m.record as int),
                func_at(*lib, m.record as int, m.index as int),
                param_count(func_at(*lib, m.record as int, m.index as int)),
            ),
            param_count(func_at(*lib, m.record as int, m.index as int)),
        ) {
            Some(x) => r is Ok && final(out)@ == old(out)@ + x,
            None => r is Err,
        },
{
    let params = m.params(lib);
    let owner = &lib.records[m.record];
    let f = m.desc(lib);
    let ghost n = param_count(*f);
    let ghost part = arg_part(*lib, *owner, *f, n);
    let ghost mut text: Seq<char> = Seq::empty();
    let mut k: usize = params.len();
    while k > 0
        invariant
            lib.wf(),
            m.valid(*lib),
            *owner == lib.rec(m.record as int),
            lib.holds(*owner),
            *f == func_at(*lib, m.record as int, m.index as int),
            n == param_count(*f),
            part == arg_part(*lib, *owner, *f, n),
            params@.len() == n,
            forall|j: int|
                0 <= j < params@.len() ==> {
                    &&& (#[trigger] params@[j]).index == j
                    &&& params@[j].name@ == f.names@[j + 1]@
                    &&& params@[j].flags == f.params@[j].flags
                },
            k <= params@.len(),
            concat_parts(part, n - k) == Some(text),
            out@ == old(out)@ + text,
        decreases k,
    {
        k = k - 1;
        let p = &params[k];
        assert(p.index < f.params@.len());
        assert(part(n - 1 - k) == arg_line(*lib, *owner, *f, k as int));
        if !p.retval() {
            let name = sanitize_reserved(p.name());
            let ghost before = out@;
            match push_variant_arg(out, &f.params[k].tdesc, name.as_str(), owner, lib) {
                Ok(()) => {},
                Err(e) => {
                    proof {
                        assert(concat_parts(part, n - k) is None);
                        lemma_concat_parts_none(part, n - k, n);
                    }
                    return Err(e);
                },
            }
            proof {
                let x = out@.subrange(before.len() as int, out@.len() as int);
                assert(out@ =~= before + x);
                assert(arg_line(*lib, *owner, *f, k as int) == Some(x));
                assert(out@ =~= old(out)@ + (text + x));
                text = text + x;
            }
        } else {
            proof {
                assert(arg_line(*lib, *owner, *f, k as int) == Some(Seq::<char>::empty()));
                assert(text + Seq::<char>::empty() =~= text);
            }
        }
    }
    Ok(())
}

/// The argument array of a wrapper with `count` positional arguments whose
/// elements read `args`.
pub open spec fn args_array_text(count: nat, args: Seq<char>) -> Seq<char> {
    "        let mut args: [VARIANT; "@ + decimal(count) + "] = [\n"@ + args + "        ];\n\n"@
}

/// Appends the argument array of the wrapper of method `m`, which has
/// `count` positional arguments.
fn emit_args_array(out: &mut String, lib: &OleTypeLibData, m: &OleMethodData, count: u64) -> (r: Result<
    (),
    Error,
>)
    requires
        lib.wf(),
        m.valid(*lib),
    ensures
        match concat_parts(
            arg_part(
                *lib,
                lib.rec(m.record as int),
                func_at(*lib, m.record as int, m.index as int),
                param_count(func_at(*lib, m.record as int, m.index as int)),
            ),
            param_count(func_at(*lib, m.record as int, m.index as int)),
        ) {
            Some(x) => r is Ok && final(out)@ == old(out)@ + args_array_text(count as nat, x),
            None => r is Err,
        },
{
    out.append("        let mut args: [VARIANT; ");
    push_decimal(out, count);
    out.append("] = [\n");
    let ghost before_args = out@;
    emit_wrapper_args(out, lib, m)?;
    let ghost after_args = out@;
    out.append("        ];\n\n");
    proof {
        let a = after_args.subrange(before_args.len() as int, after_args.len() as int);
        assert(after_args =~= before_args + a);
        assert(out@ =~= old(out)@ + args_array_text(count as nat, a));
    }
    Ok(())
}

/// How many parameters of `params` are not the return value.
fn count_wrapper_args(params: &Vec<OleParamData>, f: &FuncDesc) -> (r: u64)
    requires
        params@.len() <= f.params@.len(),
        forall|j: int| 0 <= j < params@.len() ==> (#[trigger] params@[j]).flags == f.params@[j].flags,
    ensures
        r == non_retval_count(*f, params@.len() as int),
{
    let mut count: u64 = 0;
    let mut k: usize = 0;
    while k < params.len()
        invariant
            params@.len() <= f.params@.len(),
            forall|j: int| 0 <= j < params@.len() ==> (#[trigger] params@[j]).flags == f.params@[j].flags,
            k <= params@.len(),
            count == non_retval_count(*f, k as int),
            count <= k,
        decreases params@.len() - k,
    {
        if !params[k].retval() {
            count = count + 1;
        }
        k = k + 1;
    }
    count
}

/// How many missing types the bindings of the interface at `slot`
/// substitute.
pub open spec fn interface_missing(lib: OleTypeLibData, slot: int) -> nat {
    let t = lib.rec(slot);
    let parents = impl_types_with(t, IMPLTYPEFLAG_NONE);
    let size = vtbl_size(lib, parents, parents.len() as int);
    let listing = all_methods(lib, slot, INVOKE_ALL);
    sum_parts(interface_method_missing_part(lib, listing, size), listing.len() as int) + sum_parts(
        property_missing_part(lib, t),
        t.variables@.len() as int,
    )
}

/// How many missing types the wrapper of the method at `key` of a dispatch
/// interface substitutes.
pub open spec fn dispatch_method_missing(lib: OleTypeLibData, key: MethodKey, inherited: bool) -> nat {
    let f = func_at(lib, key.1 as int, key.2 as int);
    if inherited && 0 <= f.vft_offset && f.vft_offset < DISPATCH_VTBL_SIZE {
        0
    } else {
        params_missing(lib, lib.rec(key.1 as int), f, true)
    }
}

pub open spec fn dispatch_missing_part(lib: OleTypeLibData, listing: Seq<MethodKey>, inherited: bool) -> spec_fn(
    int,
) -> nat {
    |j: int| dispatch_method_missing(lib, listing[j], inherited)
}

/// How many missing types the bindings of the dispatch interface at `slot`
/// substitute.
pub open spec fn dispatch_missing(lib: OleTypeLibData, slot: int) -> nat {
    let listing = all_methods(lib, slot, INVOKE_ALL);
    let inherited = any_offset(lib, listing, listing.len() as int);
    sum_parts(dispatch_missing_part(lib, listing, inherited), listing.len() as int)
        + fields_missing(lib, lib.rec(slot))
}

/// How a late-bound wrapper begins, up to its parameter lines.
pub open spec fn wrapper_head(invkind: u32, name: Seq<char>) -> Seq<char> {
    "    pub unsafe fn "@ + dispatch_prefix(invkind) + name + "(\n        &self,\n"@
}

fn push_wrapper_head(out: &mut String, invkind: u32, name: &str)
    ensures
        final(out)@ == old(out)@ + wrapper_head(invkind, name@),
{
    out.append("    pub unsafe fn ");
    out.append(dispatch_prefix_str(invkind));
    out.append(name);
    out.append("(\n        &self,\n");
    proof {
        assert(out@ =~= old(out)@ + wrapper_head(invkind, name@));
    }
}

/// Appends the late-bound wrapper of method `m` of a dispatch interface:
/// its positional arguments go into the argument array last-declared first.
#[verifier::rlimit(40)]
fn emit_dispatch_method(
    out: &mut String,
    lib: &OleTypeLibData,
    m: &OleMethodData,
    build_result: &mut BuildResult,
) -> (r: Result<(), Error>)
    requires
        lib.wf(),
        m.valid(*lib),
    ensures
        lists_kept(*old(build_result), *final(build_result)),
        match dispatch_method_text(*lib, m.key()) {
            Some(x) => r is Ok && final(out)@ == old(out)@ + x,
            None => r is Err,
        },
        r is Ok ==> final(build_result).num_missing_types == counted(
            old(build_result).num_missing_types,
            params_missing(
                *lib,
                lib.rec(m.record as int),
                func_at(*lib, m.record as int, m.index as int),
                true,
            ),
        ),
{
    let d = m.desc(lib);
    if d.invkind != INVOKE_FUNC && d.invkind != INVOKE_PROPERTYGET && d.invkind != INVOKE_PROPERTYPUT
        && d.invkind != INVOKE_PROPERTYPUTREF {
        return Err(Error::Custom(String::from_str("unknown invocation kind")));
    }
    push_wrapper_head(out, d.invkind, m.name());
    let ghost after_name = out@;
    let _ = emit_params(out, lib, m, "        ", true, build_result)?;
    let ghost after_params = out@;
    out.append("    ) -> (HRESULT, VARIANT, EXCEPINFO, UINT) {\n");
    let ghost after_head = out@;
    let params = m.params(lib);
    let count = count_wrapper_args(&params, d);
    if count > 0 {
        emit_args_array(out, lib, m, count)?;
    }
    let ghost before_tail = out@;
    push_wrapper_tail(out, d, count);
    proof {
        let p = after_params.subrange(after_name.len() as int, after_params.len() as int);
        assert(after_params =~= after_name + p);
        let head = wrapper_head(d.invkind, m.name@) + p
            + "    ) -> (HRESULT, VARIANT, EXCEPINFO, UINT) {\n"@;
        assert(after_head =~= old(out)@ + head);
        if count > 0 {
            let a = before_tail.subrange(after_head.len() as int, before_tail.len() as int);
            assert(before_tail =~= after_head + a);
            assert(out@ =~= old(out)@ + (head + a + wrapper_tail(*d, count as nat)));
        } else {
            assert(out@ =~= old(out)@ + (head + wrapper_tail(*d, count as nat)));
        }
    }
    Ok(())
}

/// The late-bound accessor pair synthesized for variable `k` of dispatch
/// interface `t`.
pub open spec fn dispatch_property_text(lib: OleTypeLibData, t: OleTypeData, k: int) -> Option<
    Seq<char>,
> {
    match t.variables@[k] {
        Ok(p) => match binding_type(lib, t, p.tdesc, PARAMFLAG_FIN) {
            Ok(pt) => match variant_arg_text(lib, t, p.tdesc, "value"@) {
                Some(a) => Some(
                    get_wrapper_text(sanitized(p.name@), p.memid) + put_wrapper_head(
                        sanitized(p.name@),
                        pt,
                    ) + a + put_wrapper_tail(p.memid),
                ),
                None => None,
            },
            Err(_) => None,
        },
        Err(_) => None,
    }
}

pub open spec fn dispatch_property_part(lib: OleTypeLibData, t: OleTypeData) -> spec_fn(int) -> Option<
    Seq<char>,
> {
    |k: int| dispatch_property_text(lib, t, k)
}

/// The wrapper of the method at `key` of a dispatch interface: none for a
/// method of the dispatch vtable itself, when the interface lists those.
pub open spec fn dispatch_entry_text(lib: OleTypeLibData, key: MethodKey, inherited: bool) -> Option<
    Seq<char>,
> {
    let f = func_at(lib, key.1 as int, key.2 as int);
    if f.funckind != FUNC_DISPATCH {
        None
    } else if inherited && 0 <= f.vft_offset && f.vft_offset < DISPATCH_VTBL_SIZE {
        Some(Seq::empty())
    } else {
        dispatch_method_text(lib, key)
    }
}

pub open spec fn dispatch_entry_part(lib: OleTypeLibData, listing: Seq<MethodKey>, inherited: bool) -> spec_fn(
    int,
) -> Option<Seq<char>> {
    |j: int| dispatch_entry_text(lib, listing[j], inherited)
}

/// Whether one of the first `n` methods at `listing` has a vtable offset.
pub open spec fn any_offset(lib: OleTypeLibData, listing: Seq<MethodKey>, n: int) -> bool
    decreases n,
{
    n > 0 && (any_offset(lib, listing, n - 1) || func_at(
        lib,
        listing[n - 1].1 as int,
        listing[n - 1].2 as int,
    ).vft_offset > 0)
}

/// How the bindings of dispatch interface `t` begin.
pub open spec fn dispatch_header(t: OleTypeData) -> Seq<char> {
    interface_impl_text(t.name@, t.guid) + "interface "@ + t.name@ + "("@ + t.name@
        + "Vtbl): IDispatch(IDispatchVtbl) {\n}}\n\nimpl "@ + t.name@ + " {\n"@
}

/// The bindings of the dispatch interface at `slot`, which must derive
/// from the dispatch interface alone: a late-bound wrapper per method and
/// an accessor pair per variable.
pub open spec fn dispatch_text(lib: OleTypeLibData, slot: int) -> Option<Seq<char>> {
    let t = lib.rec(slot);
    let parents = impl_types_with(t, IMPLTYPEFLAG_NONE);
    let listing = all_methods(lib, slot, INVOKE_ALL);
    let inherited = any_offset(lib, listing, listing.len() as int);
    if parents.len() != 1 || lib.rec(parents[0] as int).name@ != "IDispatch"@ || lib.rec(
        parents[0] as int,
    ).size_vft != DISPATCH_VTBL_SIZE {
        None
    } else {
        match concat_parts(dispatch_entry_part(lib, listing, inherited), listing.len() as int) {
            Some(ms) => match concat_parts(dispatch_property_part(lib, t), t.variables@.len() as int) {
                Some(ps) => Some(dispatch_header(t) + ms + ps + "}\n\n"@),
                None => None,
            },
            None => None,
        }
    }
}

fn push_dispatch_header(out: &mut String, typeinfo: &OleTypeData)
    ensures
        final(out)@ == old(out)@ + dispatch_header(*typeinfo),
{
    push_interface_impl(out, typeinfo.name.as_str(), &typeinfo.guid);
    out.append("interface ");
    out.append(typeinfo.name.as_str());
    out.append("(");
    out.append(typeinfo.name.as_str());
    out.append("Vtbl): IDispatch(IDispatchVtbl) {\n}}\n\nimpl ");
    out.append(typeinfo.name.as_str());
    out.append(" {\n");
    proof {
        assert(out@ =~= old(out)@ + dispatch_header(*typeinfo));
    }
}

/// The late-bound getter synthesized for a variable `name` of member `memid`.
pub open spec fn get_wrapper_text(name: Seq<char>, memid: i32) -> Seq<char> {
    "    pub unsafe fn get_"@ + name + "(\n    ) -> (HRESULT, VARIANT, EXCEPINFO, UINT) {\n"@
        + disp_params_text("::core::ptr::null_mut()"@, "::core::ptr::null_mut()"@, 0, "0"@)
        + invoke_call_text(memid, "DISPATCH_PROPERTYGET"@)
}

/// How the late-bound setter of a variable `name` of binding type `ty`
/// begins, up to its one argument-array element.
pub open spec fn put_wrapper_head(name: Seq<char>, ty: Seq<char>) -> Seq<char> {
    "    pub unsafe fn put_"@ + name + "(\n        value: "@ + ty
        + ",\n    ) -> (HRESULT, VARIANT, EXCEPINFO, UINT) {\n        let mut args: [VARIANT; 1] = [\n"@
}

/// How the late-bound setter of member `memid` ends.
pub open spec fn put_wrapper_tail(memid: i32) -> Seq<char> {
    "        ];\n\n"@ + disp_params_text("args.as_mut_ptr()"@, "::core::ptr::null_mut()"@, 1, "0"@)
        + invoke_call_text(memid, "DISPATCH_PROPERTYPUT"@)
}

fn push_get_wrapper(out: &mut String, name: &str, memid: i32)
    ensures
        final(out)@ == old(out)@ + get_wrapper_text(name@, memid),
{
    out.append("    pub unsafe fn get_");
    out.append(name);
    out.append("(\n    ) -> (HRESULT, VARIANT, EXCEPINFO, UINT) {\n");
    push_disp_params(out, "::core::ptr::null_mut()", "::core::ptr::null_mut()", 0, "0");
    push_invoke_call(out, memid, "DISPATCH_PROPERTYGET");
    proof {
        assert(out@ =~= old(out)@ + get_wrapper_text(name@, memid));
    }
}

fn push_put_wrapper_head(out: &mut String, name: &str, ty: &str)
    ensures
        final(out)@ == old(out)@ + put_wrapper_head(name@, ty@),
{
    out.append("    pub unsafe fn put_");
    out.append(name);
    out.append("(\n        value: ");
    out.append(ty);
    out.append(",\n    ) -> (HRESULT, VARIANT, EXCEPINFO, UINT) {\n        let mut args: [VARIANT; 1] = [\n");
    proof {
        assert(out@ =~= old(out)@ + put_wrapper_head(name@, ty@));
    }
}

fn push_put_wrapper_tail(out: &mut String, memid: i32)
    ensures
        final(out)@ == old(out)@ + put_wrapper_tail(memid),
{
    out.append("        ];\n\n");
    push_disp_params(out, "args.as_mut_ptr()", "::core::ptr::null_mut()", 1, "0");
    push_invoke_call(out, memid, "DISPATCH_PROPERTYPUT");
    proof {
        assert(out@ =~= old(out)@ + put_wrapper_tail(memid));
    }
}

/// Appends the accessor pair of variable `k` of dispatch interface
/// `typeinfo`.
fn emit_dispatch_property(
    out: &mut String,
    lib: &OleTypeLibData,
    typeinfo: &OleTypeData,
    k: usize,
    build_result: &mut BuildResult,
) -> (r: Result<(), Error>)
    requires
        lib.wf(),
        lib.holds(*typeinfo),
        k < typeinfo.variables@.len(),
    ensures
        lists_kept(*old(build_result), *final(build_result)),
        match dispatch_property_text(*lib, *typeinfo, k as int) {
            Some(x) => r is Ok && final(out)@ == old(out)@ + x,
            None => r is Err,
        },
        r is Ok ==> final(build_result).num_missing_types == counted(
            old(build_result).num_missing_types,
            field_missing(*lib, *typeinfo, k as int),
        ),
{
    let property = match &typeinfo.variables[k] {
        Ok(property) => property,
        Err(s) => {
            return Err(Error::Windows(*s));
        },
    };
    let property_name = sanitize_reserved(property.name.as_str());
    push_get_wrapper(out, property_name.as_str(), property.memid);
    let put_ty = type_to_string(&property.tdesc, PARAMFLAG_FIN, typeinfo, lib, build_result)?;
    push_put_wrapper_head(out, property_name.as_str(), put_ty.as_str());
    let ghost before_arg = out@;
    push_variant_arg(out, &property.tdesc, "value", typeinfo, lib)?;
    let ghost after_arg = out@;
    push_put_wrapper_tail(out, property.memid);
    proof {
        let a = after_arg.subrange(before_arg.len() as int, after_arg.len() as int);
        assert(after_arg =~= before_arg + a);
        assert(out@ =~= old(out)@ + (get_wrapper_text(property_name@, property.memid)
            + put_wrapper_head(property_name@, put_ty@) + a + put_wrapper_tail(property.memid)));
    }
    Ok(())
}

/// Appends the accessor pairs of the variables of dispatch interface
/// `typeinfo`.
fn emit_dispatch_properties(
    out: &mut String,
    lib: &OleTypeLibData,
    typeinfo: &OleTypeData,
    build_result: &mut BuildResult,
) -> (r: Result<(), Error>)
    requires
        lib.wf(),
        lib.holds(*typeinfo),
    ensures
        lists_kept(*old(build_result), *final(build_result)),
        match concat_parts(dispatch_property_part(*lib, *typeinfo), typeinfo.variables@.len() as int) {
            Some(x) => r is Ok && final(out)@ == old(out)@ + x,
            None => r is Err,
        },
        r is Ok ==> final(build_result).num_missing_types == counted(
            old(build_result).num_missing_types,
            fields_missing(*lib, *typeinfo),
        ),
{
    let ghost ppart = dispatch_property_part(*lib, *typeinfo);
    let ghost pn = typeinfo.variables@.len() as int;
    let ghost cpart = field_missing_part(*lib, *typeinfo);
    let ghost mut ps: Seq<char> = Seq::empty();
    let mut k: usize = 0;
    while k < typeinfo.variables.len()
        invariant
            lib.wf(),
            lib.holds(*typeinfo),
            ppart == dispatch_property_part(*lib, *typeinfo),
            pn == typeinfo.variables@.len(),
            k <= pn,
            concat_parts(ppart, k as int) == Some(ps),
            out@ == old(out)@ + ps,
            lists_kept(*old(build_result), *build_result),
            cpart == field_missing_part(*lib, *typeinfo),
            build_result.num_missing_types == counted(
                old(build_result).num_missing_types,
                sum_parts(cpart, k as int),
            ),
        decreases typeinfo.variables@.len() - k,
    {
        match emit_dispatch_property(out, lib, typeinfo, k, build_result) {
            Ok(()) => {},
            Err(e) => {
                proof {
                    lemma_concat_parts_none(ppart, k + 1, pn);
                }
                return Err(e);
            },
        }
        proof {
            let x = dispatch_property_text(*lib, *typeinfo, k as int)->Some_0;
            lemma_counted_twice(
                old(build_result).num_missing_types,
                sum_parts(cpart, k as int),
                field_missing(*lib, *typeinfo, k as int),
            );
            assert(out@ =~= old(out)@ + (ps + x));
            ps = ps + x;
        }
        k = k + 1;
    }
    Ok(())
}

/// Appends the wrappers of the methods of the dispatch interface at `slot`.
fn emit_dispatch_methods(
    out: &mut String,
    lib: &OleTypeLibData,
    slot: usize,
    build_result: &mut BuildResult,
) -> (r: Result<(), Error>)
    requires
        lib.wf(),
        lib.has(slot as int),
    ensures
        lists_kept(*old(build_result), *final(build_result)),
        match concat_parts(
            dispatch_entry_part(
                *lib,
                all_methods(*lib, slot as int, INVOKE_ALL),
                any_offset(
                    *lib,
                    all_methods(*lib, slot as int, INVOKE_ALL),
                    all_methods(*lib, slot as int, INVOKE_ALL).len() as int,
                ),
            ),
            all_methods(*lib, slot as int, INVOKE_ALL).len() as int,
        ) {
            Some(x) => r is Ok && final(out)@ == old(out)@ + x,
            None => r is Err,
        },
        r is Ok ==> final(build_result).num_missing_types == counted(
            old(build_result).num_missing_types,
            sum_parts(
                dispatch_missing_part(
                    *lib,
                    all_methods(*lib, slot as int, INVOKE_ALL),
                    any_offset(
                        *lib,
                        all_methods(*lib, slot as int, INVOKE_ALL),
                        all_methods(*lib, slot as int, INVOKE_ALL).len() as int,
                    ),
                ),
                all_methods(*lib, slot as int, INVOKE_ALL).len() as int,
            ),
        ),
{
    let methods = ole_methods_from_typeinfo(lib, slot, INVOKE_ALL);
    let ghost listing = all_methods(*lib, slot as int, INVOKE_ALL);
    let ghost n = listing.len() as int;
    let mut has_inherited_functions = false;
    let mut k: usize = 0;
    while k < methods.len()
        invariant
            lib.wf(),
            forall|j: int| 0 <= j < methods@.len() ==> (#[trigger] methods@[j]).valid(*lib),
            keys(methods@) == listing,
            k <= methods@.len(),
            has_inherited_functions == any_offset(*lib, listing, k as int),
        decreases methods@.len() - k,
    {
        assert(methods@[k as int].valid(*lib));
        assert(listing[k as int] == methods@[k as int].key());
        if methods[k].offset_vtbl(lib) > 0 {
            has_inherited_functions = true;
        }
        k = k + 1;
    }
    let ghost part = dispatch_entry_part(*lib, listing, has_inherited_functions);
    let ghost cpart = dispatch_missing_part(*lib, listing, has_inherited_functions);
    let ghost mut text: Seq<char> = Seq::empty();
    let mut k: usize = 0;
    while k < methods.len()
        invariant
            lib.wf(),
            forall|j: int| 0 <= j < methods@.len() ==> (#[trigger] methods@[j]).valid(*lib),
            keys(methods@) == listing,
            listing == all_methods(*lib, slot as int, INVOKE_ALL),
            n == listing.len(),
            has_inherited_functions == any_offset(*lib, listing, n),
            part == dispatch_entry_part(*lib, listing, has_inherited_functions),
            cpart == dispatch_missing_part(*lib, listing, has_inherited_functions),
            build_result.num_missing_types == counted(
                old(build_result).num_missing_types,
                sum_parts(cpart, k as int),
            ),
            k <= methods@.len(),
            concat_parts(part, k as int) == Some(text),
            out@ == old(out)@ + text,
            lists_kept(*old(build_result), *build_result),
        decreases methods@.len() - k,
    {
        let m = &methods[k];
        assert(m.valid(*lib));
        assert(listing[k as int] == m.key());
        if m.funckind(lib) != FUNC_DISPATCH {
            proof {
                assert(concat_parts(part, k + 1) is None);
                lemma_concat_parts_none(part, k + 1, n);
            }
            return Err(Error::Custom(String::from_str("dispatch interface function is not a dispatch function")));
        }
        let offset = m.offset_vtbl(lib);
        if !(has_inherited_functions && offset >= 0 && (offset as u16) < DISPATCH_VTBL_SIZE) {
            match emit_dispatch_method(out, lib, m, build_result) {
                Ok(()) => {},
                Err(e) => {
                    proof {
                        assert(concat_parts(part, k + 1) is None);
                        lemma_concat_parts_none(part, k + 1, n);
                    }
                    return Err(e);
                },
            }
            proof {
                let x = dispatch_method_text(*lib, m.key())->Some_0;
                lemma_counted_twice(
                    old(build_result).num_missing_types,
                    sum_parts(cpart, k as int),
                    dispatch_method_missing(*lib, m.key(), has_inherited_functions),
                );
                assert(dispatch_entry_text(*lib, m.key(), has_inherited_functions) == Some(x));
                assert(out@ =~= old(out)@ + (text + x));
                text = text + x;
            }
        } else {
            proof {
                assert(dispatch_entry_text(*lib, m.key(), has_inherited_functions) == Some(
                    Seq::<char>::empty(),
                ));
                assert(text + Seq::<char>::empty() =~= text);
                assert(sum_parts(cpart, k + 1) == sum_parts(cpart, k as int));
            }
        }
        k = k + 1;
    }
    Ok(())
}

#[verifier::rlimit(40)]
fn emit_dispatch(
    out: &mut String,
    lib: &OleTypeLibData,
    slot: usize,
    build_result: &mut BuildResult,
) -> (r: Result<(), Error>)
    requires
        lib.wf(),
        lib.has(slot as int),
    ensures
        lists_kept(*old(build_result), *final(build_result)),
        match dispatch_text(*lib, slot as int) {
            Some(x) => r is Ok && final(out)@ == old(out)@ + x,
            None => r is Err,
        },
        r is Ok ==> final(build_result).num_missing_types == counted(
            old(build_result).num_missing_types,
            dispatch_missing(*lib, slot as int),
        ),
{
    let typeinfo = &lib.records[slot];
    assert(lib.holds(*typeinfo));
    push_dispatch_header(out, typeinfo);
    let ghost head = out@;
    let parents = typeinfo.implemented_ole_types(lib);
    if parents.len() != 1 {
        return Err(Error::Custom(String::from_str("dispatch interface must derive from IDispatch alone")));
    }
    let parent = &lib.records[parents[0]];
    if parent.name != String::from_str("IDispatch") || parent.size_vft != DISPATCH_VTBL_SIZE {
        return Err(Error::Custom(String::from_str("dispatch interface must derive from IDispatch alone")));
    }
    emit_dispatch_methods(out, lib, slot, build_result)?;
    let ghost after_methods = out@;
    emit_dispatch_properties(out, lib, typeinfo, build_result)?;
    let ghost after_props = out@;
    proof {
        let listing = all_methods(*lib, slot as int, INVOKE_ALL);
        let inherited = any_offset(*lib, listing, listing.len() as int);
        lemma_counted_twice(
            old(build_result).num_missing_types,
            sum_parts(dispatch_missing_part(*lib, listing, inherited), listing.len() as int),
            fields_missing(*lib, *typeinfo),
        );
    }
    out.append("}\n\n");
    proof {
        let ms = after_methods.subrange(head.len() as int, after_methods.len() as int);
        let ps = after_props.subrange(after_methods.len() as int, after_props.len() as int);
        assert(after_methods =~= head + ms);
        assert(after_props =~= after_methods + ps);
        assert(out@ =~= old(out)@ + (dispatch_header(*typeinfo) + ms + ps + "}\n\n"@));
    }
    Ok(())
}

/// The record that the emitter writes for a loaded entry `t`: the interface
/// half of a dual dispatch interface, or the record itself.
pub open spec fn emitted_slot(lib: OleTypeLibData, t: usize) -> usize {
    if lib.rec(t as int).kind == TypeKind::Dispatch {
        match lib.rec(t as int).dual {
            Ok(d) => d,
            Err(_) => t,
        }
    } else {
        t
    }
}

/// The entries, among the first `n`, that could not be loaded because a
/// library they need cannot be.
pub open spec fn types_not_found(lib: OleTypeLibData, n: int) -> nat
    decreases n,
{
    if n <= 0 {
        0
    } else {
        types_not_found(lib, n - 1) + match lib.entries@[n - 1] {
            Err(e) => if e == TYPE_E_CANTLOADLIBRARY {
                1nat
            } else {
                0nat
            },
            Ok(_) => 0nat,
        }
    }
}

/// The names of the dual interfaces, among the first `n` entries, whose
/// dispatch half is skipped.
pub open spec fn dual_skips(lib: OleTypeLibData, n: int) -> Seq<Seq<char>>
    decreases n,
{
    if n <= 0 {
        Seq::empty()
    } else {
        dual_skips(lib, n - 1) + match lib.entries@[n - 1] {
            Ok(t) => if lib.rec(t as int).kind == TypeKind::Dispatch && lib.rec(t as int).dual is Ok {
                seq![lib.rec(t as int).name@]
            } else {
                Seq::empty()
            },
            Err(_) => Seq::empty(),
        }
    }
}

/// The names of the dispatch interfaces, among the first `n` entries, that
/// are skipped when their emission is not asked for.
pub open spec fn dispatch_skips(lib: OleTypeLibData, emit_dispinterfaces: bool, n: int) -> Seq<
    Seq<char>,
>
    decreases n,
{
    if n <= 0 {
        Seq::empty()
    } else {
        dispatch_skips(lib, emit_dispinterfaces, n - 1) + match lib.entries@[n - 1] {
            Ok(t) => if !emit_dispinterfaces && lib.rec(emitted_slot(lib, t) as int).kind
                == TypeKind::Dispatch {
                seq![lib.rec(emitted_slot(lib, t) as int).name@]
            } else {
                Seq::empty()
            },
            Err(_) => Seq::empty(),
        }
    }
}

/// The bindings of the record at slot `s`, by its kind; nothing for a
/// dispatch interface whose bindings are not asked for. `None` for the other kinds, and where the record's
/// bindings cannot be written.
pub open spec fn block_text(lib: OleTypeLibData, emit_dispinterfaces: bool, s: int) -> Option<
    Seq<char>,
> {
    let r = lib.rec(s);
    match r.kind {
        TypeKind::Enum => enum_text(r),
        TypeKind::Record => record_text(lib, r),
        TypeKind::Module => module_text(lib, s),
        TypeKind::Interface => interface_text(lib, s),
        TypeKind::Alias => alias_text(lib, r),
        TypeKind::Coclass => Some(coclass_text(lib, r)),
        TypeKind::Union => union_text(lib, r),
        TypeKind::Dispatch => if emit_dispinterfaces {
            dispatch_text(lib, s)
        } else {
            Some(Seq::empty())
        },
    }
}

/// The bindings of entry `i`: nothing for a record whose library cannot be
/// loaded, the block of the record emitted for it otherwise.
pub open spec fn entry_text(lib: OleTypeLibData, emit_dispinterfaces: bool, i: int) -> Option<
    Seq<char>,
> {
    match lib.entries@[i] {
        Err(e) => if e == TYPE_E_CANTLOADLIBRARY {
            Some(Seq::empty())
        } else {
            None
        },
        Ok(t) => if lib.rec(t as int).kind == TypeKind::Dispatch && lib.rec(t as int).dual is Err
            && lib.rec(t as int).dual != Err::<usize, i32>(TYPE_E_ELEMENTNOTFOUND) {
            None
        } else {
            block_text(lib, emit_dispinterfaces, emitted_slot(lib, t) as int)
        },
    }
}

pub open spec fn entry_part(lib: OleTypeLibData, emit_dispinterfaces: bool) -> spec_fn(int) -> Option<
    Seq<char>,
> {
    |i: int| entry_text(lib, emit_dispinterfaces, i)
}

/// The bindings of the first `n` entries, or `None` once one of them cannot
/// be written.
pub open spec fn output_text(lib: OleTypeLibData, emit_dispinterfaces: bool, n: int) -> Option<
    Seq<char>,
> {
    concat_parts(entry_part(lib, emit_dispinterfaces), n)
}

/// How many missing types the bindings of the record at slot `s`
/// substitute.
pub open spec fn block_missing(lib: OleTypeLibData, emit_dispinterfaces: bool, s: int) -> nat {
    let r = lib.rec(s);
    match r.kind {
        TypeKind::Enum => 0,
        TypeKind::Record => fields_missing(lib, r),
        TypeKind::Module => sum_parts(
            module_missing_part(lib, all_methods(lib, s, INVOKE_ALL)),
            all_methods(lib, s, INVOKE_ALL).len() as int,
        ),
        TypeKind::Interface => interface_missing(lib, s),
        TypeKind::Coclass => 0,
        TypeKind::Alias => missing_refs(lib, r, r.alias),
        TypeKind::Union => fields_missing(lib, r),
        TypeKind::Dispatch => if emit_dispinterfaces {
            dispatch_missing(lib, s)
        } else {
            0
        },
    }
}

/// How many missing types the bindings of entry `i` substitute.
pub open spec fn entry_missing(lib: OleTypeLibData, emit_dispinterfaces: bool, i: int) -> nat {
    match lib.entries@[i] {
        Ok(t) => block_missing(lib, emit_dispinterfaces, emitted_slot(lib, t) as int),
        Err(_) => 0,
    }
}

pub open spec fn entry_missing_part(lib: OleTypeLibData, emit_dispinterfaces: bool) -> spec_fn(int) -> nat {
    |i: int| entry_missing(lib, emit_dispinterfaces, i)
}

/// Appends the bindings of the record at `slot`; a dispatch interface
/// whose bindings are not asked for is only listed as skipped.
fn emit_block(
    out: &mut String,
    lib: &OleTypeLibData,
    slot: usize,
    emit_dispinterfaces: bool,
    build_result: &mut BuildResult,
) -> (r: Result<(), Error>)
    requires
        lib.wf(),
        lib.has(slot as int),
    ensures
        final(build_result).num_types_not_found == old(build_result).num_types_not_found,
        final(build_result).skipped_dispinterface_of_dual_interfaces@ == old(
            build_result,
        ).skipped_dispinterface_of_dual_interfaces@,
        final(build_result).skipped_dispinterfaces@ == if lib.rec(slot as int).kind
            == TypeKind::Dispatch && !emit_dispinterfaces {
            old(build_result).skipped_dispinterfaces@.push(lib.rec(slot as int).name)
        } else {
            old(build_result).skipped_dispinterfaces@
        },
        match block_text(*lib, emit_dispinterfaces, slot as int) {
            Some(x) => r is Ok && final(out)@ == old(out)@ + x,
            None => r is Err,
        },
        r is Ok ==> final(build_result).num_missing_types == counted(
            old(build_result).num_missing_types,
            block_missing(*lib, emit_dispinterfaces, slot as int),
        ),
{
    let record = &lib.records[slot];
    assert(lib.holds(*record));
    match record.kind {
        TypeKind::Enum => emit_enum(out, lib, record),
        TypeKind::Record => emit_record(out, lib, record, build_result),
        TypeKind::Module => emit_module(out, lib, slot, build_result),
        TypeKind::Interface => emit_interface(out, lib, slot, build_result),
        TypeKind::Dispatch => {
            if !emit_dispinterfaces {
                build_result.skipped_dispinterfaces.push(record.name.clone());
                proof {
                    assert(old(out)@ + Seq::<char>::empty() =~= old(out)@);
                }
                Ok(())
            } else {
                emit_dispatch(out, lib, slot, build_result)
            }
        },
        TypeKind::Coclass => {
            emit_coclass(out, lib, record);
            Ok(())
        },
        TypeKind::Alias => emit_alias(out, lib, record, build_result),
        TypeKind::Union => emit_union(out, lib, record, build_result),
    }
}

/// Emits the bindings of every entry of the library, in index order, and
/// reports what it skipped or substituted. An entry that needs a library
/// that cannot be loaded is counted and left out; a dispatch interface
/// that has an interface half is emitted through that half; a dispatch
/// interface is emitted only when `emit_dispinterfaces` asks for it. The
/// run fails, with an error, exactly when the bindings of some entry cannot
/// be written.
pub fn build(lib: &OleTypeLibData, emit_dispinterfaces: bool, out: &mut String) -> (r: Result<
    BuildResult,
    Error,
>)
    requires
        lib.wf(),
    ensures
        r matches Ok(br) ==> {
            &&& br.num_missing_types == counted(
                0,
                sum_parts(
                    entry_missing_part(*lib, emit_dispinterfaces),
                    lib.entries@.len() as int,
                ),
            )
            &&& br.num_types_not_found == types_not_found(*lib, lib.entries@.len() as int)
            &&& texts(br.skipped_dispinterfaces@) == dispatch_skips(
                *lib,
                emit_dispinterfaces,
                lib.entries@.len() as int,
            )
            &&& texts(br.skipped_dispinterface_of_dual_interfaces@) == dual_skips(
                *lib,
                lib.entries@.len() as int,
            )
        },
        match output_text(*lib, emit_dispinterfaces, lib.entries@.len() as int) {
            Some(x) => r is Ok && final(out)@ == old(out)@ + x,
            None => r is Err,
        },
{
    let mut build_result = BuildResult {
        num_missing_types: 0,
        num_types_not_found: 0,
        skipped_dispinterfaces: Vec::new(),
        skipped_dispinterface_of_dual_interfaces: Vec::new(),
    };
    proof {
        assert(texts(Seq::<String>::empty()) =~= Seq::<Seq<char>>::empty());
    }
    let ghost part = entry_part(*lib, emit_dispinterfaces);
    let ghost cpart = entry_missing_part(*lib, emit_dispinterfaces);
    let ghost n = lib.entries@.len() as int;
    let mut i: usize = 0;
    while i < lib.entries.len()
        invariant
            lib.wf(),
            part == entry_part(*lib, emit_dispinterfaces),
            cpart == entry_missing_part(*lib, emit_dispinterfaces),
            build_result.num_missing_types == counted(0, sum_parts(cpart, i as int)),
            n == lib.entries@.len(),
            i <= lib.entries@.len(),
            build_result.num_types_not_found == types_not_found(*lib, i as int),
            build_result.num_types_not_found <= i,
            texts(build_result.skipped_dispinterfaces@) == dispatch_skips(
                *lib,
                emit_dispinterfaces,
                i as int,
            ),
            texts(build_result.skipped_dispinterface_of_dual_interfaces@) == dual_skips(
                *lib,
                i as int,
            ),
            concat_parts(part, i as int) matches Some(x) && out@ == old(out)@ + x,
        decreases lib.entries@.len() - i,
    {
        match lib.entries[i] {
            Err(e) => {
                if e == TYPE_E_CANTLOADLIBRARY {
                    build_result.num_types_not_found = build_result.num_types_not_found + 1;
                } else {
                    proof {
                        lemma_concat_parts_none(part, i + 1, n);
                    }
                    return Err(Error::Windows(e));
                }
            },
            Ok(t) => {
                assert(slot_in(lib.entries@[i as int], lib.records@.len() as int));
                let mut slot = t;
                if lib.records[t].kind == TypeKind::Dispatch {
                    assert(lib.holds(lib.records@[t as int]));
                    match lib.records[t].get_interface_of_dispinterface() {
                        Ok(Some(d)) => {
                            build_result.skipped_dispinterface_of_dual_interfaces.push(
                                lib.records[t].name.clone(),
                            );
                            slot = d;
                        },
                        Ok(None) => {},
                        Err(e) => {
                            proof {
                                lemma_concat_parts_none(part, i + 1, n);
                            }
                            return Err(e);
                        },
                    }
                }
                proof {
                    assert(texts(build_result.skipped_dispinterface_of_dual_interfaces@) =~= dual_skips(
                        *lib,
                        i + 1,
                    ));
                }
                assert(slot == emitted_slot(*lib, t));
                assert(lib.has(slot as int));
                let block = emit_block(out, lib, slot, emit_dispinterfaces, &mut build_result);
                proof {
                    assert(entry_text(*lib, emit_dispinterfaces, i as int) == block_text(
                        *lib,
                        emit_dispinterfaces,
                        slot as int,
                    ));
                }
                match block {
                    Ok(()) => {},
                    Err(e) => {
                        proof {
                            lemma_concat_parts_none(part, i + 1, n);
                        }
                        return Err(e);
                    },
                }
                proof {
                    lemma_counted_twice(
                        0,
                        sum_parts(cpart, i as int),
                        block_missing(*lib, emit_dispinterfaces, slot as int),
                    );
                    assert(texts(build_result.skipped_dispinterfaces@) =~= dispatch_skips(
                        *lib,
                        emit_dispinterfaces,
                        i + 1,
                    ));
                }
            },
        }
        proof {
            let x = concat_parts(part, i as int)->Some_0;
            let b = entry_text(*lib, emit_dispinterfaces, i as int)->Some_0;
            assert(out@ =~= old(out)@ + (x + b));
        }
        i = i + 1;
    }
    proof {
        assert(output_text(*lib, emit_dispinterfaces, n) == concat_parts(part, n));
    }
    Ok(build_result)
}

} // verus!
