//! Rendering of type descriptors: as the names that an introspecting caller
//! reads, with the chain of every level's tag, and as the type expressions
//! of generated bindings.
use vstd::prelude::*;
use crate::model::{
    TypeDesc, OleTypeLibData, OleTypeData, ref_lookup, VT_I2, VT_I4, VT_R4, VT_R8, VT_CY, VT_DATE, VT_BSTR, VT_DISPATCH,
    VT_ERROR, VT_BOOL, VT_VARIANT, VT_UNKNOWN, VT_DECIMAL, VT_I1, VT_UI1, VT_UI2, VT_UI4, VT_I8,
    VT_UI8, VT_INT, VT_UINT, VT_VOID, VT_HRESULT, VT_PTR, VT_SAFEARRAY, VT_CARRAY, VT_USERDEFINED,
    VT_LPSTR, VT_LPWSTR, VT_RECORD,
};

verus! {

/// The text of one decimal digit.
pub open spec fn digit_text(d: nat) -> Seq<char> {
    if d == 0 {
        "0"@
    } else if d == 1 {
        "1"@
    } else if d == 2 {
        "2"@
    } else if d == 3 {
        "3"@
    } else if d == 4 {
        "4"@
    } else if d == 5 {
        "5"@
    } else if d == 6 {
        "6"@
    } else if d == 7 {
        "7"@
    } else if d == 8 {
        "8"@
    } else {
        "9"@
    }
}

/// The decimal text of `n`, without leading zeros.
pub open spec fn decimal(n: nat) -> Seq<char>
    decreases n,
{
    if n < 10 {
        digit_text(n)
    } else {
        decimal(n / 10) + digit_text(n % 10)
    }
}

fn digit_str(d: u64) -> (r: &'static str)
    requires
        d < 10,
    ensures
        r@ == digit_text(d as nat),
{
    if d == 0 {
        "0"
    } else if d == 1 {
        "1"
    } else if d == 2 {
        "2"
    } else if d == 3 {
        "3"
    } else if d == 4 {
        "4"
    } else if d == 5 {
        "5"
    } else if d == 6 {
        "6"
    } else if d == 7 {
        "7"
    } else if d == 8 {
        "8"
    } else {
        "9"
    }
}

/// Appends the decimal text of `n` to `s`.
pub fn push_decimal(s: &mut String, n: u64)
    ensures
        final(s)@ == old(s)@ + decimal(n as nat),
    decreases n,
{
    if n < 10 {
        s.append(digit_str(n));
    } else {
        push_decimal(s, n / 10);
        s.append(digit_str(n % 10));
    }
}

/// The decimal text of a signed value, with a leading minus sign when it is
/// negative.
pub open spec fn signed_decimal(v: int) -> Seq<char> {
    if v < 0 {
        "-"@ + decimal((-v) as nat)
    } else {
        decimal(v as nat)
    }
}

/// Appends the decimal text of the signed value `v` to `s`.
pub fn push_signed_decimal(s: &mut String, v: i32)
    ensures
        final(s)@ == old(s)@ + signed_decimal(v as int),
{
    if v < 0 {
        s.append("-");
        let m: i64 = -(v as i64);
        push_decimal(s, m as u64);
        assert(final(s)@ =~= old(s)@ + signed_decimal(v as int));
    } else {
        push_decimal(s, v as u64);
    }
}

/// The label of a tag code, as the introspection calls report it.
pub open spec fn vt_label(vt: u16) -> Seq<char> {
    if vt == VT_I2 {
        "I2"@
    } else if vt == VT_I4 {
        "I4"@
    } else if vt == VT_R4 {
        "R4"@
    } else if vt == VT_R8 {
        "R8"@
    } else if vt == VT_CY {
        "CY"@
    } else if vt == VT_DATE {
        "DATE"@
    } else if vt == VT_BSTR {
        "BSTR"@
    } else if vt == VT_BOOL {
        "BOOL"@
    } else if vt == VT_VARIANT {
        "VARIANT"@
    } else if vt == VT_DECIMAL {
        "DECIMAL"@
    } else if vt == VT_I1 {
        "I1"@
    } else if vt == VT_UI1 {
        "UI1"@
    } else if vt == VT_UI2 {
        "UI2"@
    } else if vt == VT_UI4 {
        "UI4"@
    } else if vt == VT_I8 {
        "I8"@
    } else if vt == VT_UI8 {
        "UI8"@
    } else if vt == VT_INT {
        "INT"@
    } else if vt == VT_UINT {
        "UINT"@
    } else if vt == VT_VOID {
        "VOID"@
    } else if vt == VT_HRESULT {
        "HRESULT"@
    } else if vt == VT_PTR {
        "PTR"@
    } else if vt == VT_SAFEARRAY {
        "SAFEARRAY"@
    } else if vt == VT_CARRAY {
        "CARRAY"@
    } else if vt == VT_USERDEFINED {
        "USERDEFINED"@
    } else if vt == VT_UNKNOWN {
        "UNKNOWN"@
    } else if vt == VT_DISPATCH {
        "DISPATCH"@
    } else if vt == VT_ERROR {
        "ERROR"@
    } else if vt == VT_LPWSTR {
        "LPWSTR"@
    } else if vt == VT_LPSTR {
        "LPSTR"@
    } else if vt == VT_RECORD {
        "RECORD"@
    } else {
        "Unknown Type "@ + decimal(vt as nat)
    }
}

/// Whether a tag code has a label of its own in the canonical table.
pub open spec fn vt_has_label(vt: u16) -> bool {
    (2 <= vt <= 14) || (16 <= vt <= 31) || vt == VT_RECORD
}

/// The label of a tag code.
pub fn vt_name(vt: u16) -> (r: String)
    ensures
        r@ == vt_label(vt),
{
    if vt == VT_I2 {
        String::from_str("I2")
    } else if vt == VT_I4 {
        String::from_str("I4")
    } else if vt == VT_R4 {
        String::from_str("R4")
    } else if vt == VT_R8 {
        String::from_str("R8")
    } else if vt == VT_CY {
        String::from_str("CY")
    } else if vt == VT_DATE {
        String::from_str("DATE")
    } else if vt == VT_BSTR {
        String::from_str("BSTR")
    } else if vt == VT_BOOL {
        String::from_str("BOOL")
    } else if vt == VT_VARIANT {
        String::from_str("VARIANT")
    } else if vt == VT_DECIMAL {
        String::from_str("DECIMAL")
    } else if vt == VT_I1 {
        String::from_str("I1")
    } else if vt == VT_UI1 {
        String::from_str("UI1")
    } else if vt == VT_UI2 {
        String::from_str("UI2")
    } else if vt == VT_UI4 {
        String::from_str("UI4")
    } else if vt == VT_I8 {
        String::from_str("I8")
    } else if vt == VT_UI8 {
        String::from_str("UI8")
    } else if vt == VT_INT {
        String::from_str("INT")
    } else if vt == VT_UINT {
        String::from_str("UINT")
    } else if vt == VT_VOID {
        String::from_str("VOID")
    } else if vt == VT_HRESULT {
        String::from_str("HRESULT")
    } else if vt == VT_PTR {
        String::from_str("PTR")
    } else if vt == VT_SAFEARRAY {
        String::from_str("SAFEARRAY")
    } else if vt == VT_CARRAY {
        String::from_str("CARRAY")
    } else if vt == VT_USERDEFINED {
        String::from_str("USERDEFINED")
    } else if vt == VT_UNKNOWN {
        String::from_str("UNKNOWN")
    } else if vt == VT_DISPATCH {
        String::from_str("DISPATCH")
    } else if vt == VT_ERROR {
        String::from_str("ERROR")
    } else if vt == VT_LPWSTR {
        String::from_str("LPWSTR")
    } else if vt == VT_LPSTR {
        String::from_str("LPSTR")
    } else if vt == VT_RECORD {
        String::from_str("RECORD")
    } else {
        let mut s = String::from_str("Unknown Type ");
        push_decimal(&mut s, vt as u64);
        s
    }
}

/// The views of a list of strings.
pub open spec fn texts(v: Seq<String>) -> Seq<Seq<char>> {
    v.map_values(|s: String| s@)
}

/// The name that the introspection calls give a descriptor of record `owner`:
/// the label of its tag, the inner type's name for a pointer, a safe-array
/// or a fixed array, and the referenced record's name for a resolvable
/// user-defined type.
pub open spec fn desc_name(lib: OleTypeLibData, owner: OleTypeData, td: TypeDesc) -> Seq<char>
    decreases td,
{
    match td {
        TypeDesc::Base(vt) => vt_label(vt),
        TypeDesc::Ptr(inner) => desc_name(lib, owner, *inner),
        TypeDesc::SafeArray(inner) => desc_name(lib, owner, *inner),
        TypeDesc::CArray(elem, _) => desc_name(lib, owner, *elem),
        TypeDesc::UserDefined(href) => match ref_lookup(owner.refs@, href) {
            Ok(t) => lib.rec(t as int).name@,
            Err(_) => "USERDEFINED"@,
        },
    }
}

/// The chain of labels, one per level, that the introspection calls report
/// for a descriptor of record `owner`, outermost first.
pub open spec fn type_detail(lib: OleTypeLibData, owner: OleTypeData, td: TypeDesc) -> Seq<Seq<char>>
    decreases td,
{
    match td {
        TypeDesc::Base(vt) => seq![vt_label(vt)],
        TypeDesc::Ptr(inner) => seq!["PTR"@] + type_detail(lib, owner, *inner),
        TypeDesc::SafeArray(inner) => seq!["SAFEARRAY"@] + type_detail(lib, owner, *inner),
        TypeDesc::CArray(elem, _) => seq!["CARRAY"@] + type_detail(lib, owner, *elem),
        TypeDesc::UserDefined(href) => match ref_lookup(owner.refs@, href) {
            Ok(t) => seq!["USERDEFINED"@, lib.rec(t as int).name@],
            Err(_) => seq!["USERDEFINED"@],
        },
    }
}

/// Names descriptor `td` of record `owner` and appends the label of each of
/// its levels to `details`.
pub fn ole_typedesc2val(
    lib: &OleTypeLibData,
    owner: &OleTypeData,
    td: &TypeDesc,
    details: &mut Vec<String>,
) -> (r: String)
    requires
        lib.wf(),
        lib.holds(*owner),
    ensures
        r@ == desc_name(*lib, *owner, *td),
        texts(final(details)@) == texts(old(details)@) + type_detail(*lib, *owner, *td),
    decreases td,
{
    match td {
        TypeDesc::Ptr(inner) => {
            details.push(String::from_str("PTR"));
            let r = ole_typedesc2val(lib, owner, inner, details);
            proof {
                assert(texts(final(details)@) =~= texts(old(details)@) + type_detail(
                    *lib,
                    *owner,
                    *td,
                ));
            }
            r
        },
        TypeDesc::SafeArray(inner) => {
            details.push(String::from_str("SAFEARRAY"));
            let r = ole_typedesc2val(lib, owner, inner, details);
            proof {
                assert(texts(final(details)@) =~= texts(old(details)@) + type_detail(
                    *lib,
                    *owner,
                    *td,
                ));
            }
            r
        },
        TypeDesc::UserDefined(href) => {
            details.push(String::from_str("USERDEFINED"));
            match owner.get_ref_type_info(*href) {
                Ok(t) => {
                    let name = lib.records[t].name.clone();
                    details.push(name.clone());
                    proof {
                        assert(texts(final(details)@) =~= texts(old(details)@) + type_detail(
                            *lib,
                            *owner,
                            *td,
                        ));
                    }
                    name
                },
                Err(_) => {
                    proof {
                        assert(texts(final(details)@) =~= texts(old(details)@) + type_detail(
                            *lib,
                            *owner,
                            *td,
                        ));
                    }
                    String::from_str("USERDEFINED")
                },
            }
        },
        TypeDesc::CArray(elem, _) => {
            details.push(String::from_str("CARRAY"));
            let r = ole_typedesc2val(lib, owner, elem, details);
            proof {
                assert(texts(final(details)@) =~= texts(old(details)@) + type_detail(
                    *lib,
                    *owner,
                    *td,
                ));
            }
            r
        },
        TypeDesc::Base(vt) => {
            let name = vt_name(*vt);
            details.push(name.clone());
            proof {
                assert(texts(final(details)@) =~= texts(old(details)@) + type_detail(
                    *lib,
                    *owner,
                    *td,
                ));
            }
            name
        },
    }
}

} // verus!
