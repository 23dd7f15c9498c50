//! Laws that relate the library's operations, proved over their contracts.
use vstd::prelude::*;
use crate::emit::{binding_type, counted, missing_refs};
use crate::inspect::{event_of, find_from, impl_target, source_link};
use crate::model::{
    OleTypeLibData, OleTypeData, TypeDesc, TypeKind, ref_lookup, PARAMFLAG_FIN, PARAMFLAG_FOUT,
    TYPE_E_CANTLOADLIBRARY, IMPLTYPEFLAG_FSOURCE,
};
use crate::render::{desc_name, vt_has_label};

verus! {

/// The labels that the introspection calls give the tag codes that have one.
pub open spec fn canonical_labels() -> Set<Seq<char>> {
    set![
        "I2"@, "I4"@, "R4"@, "R8"@, "CY"@, "DATE"@, "BSTR"@, "DISPATCH"@, "ERROR"@, "BOOL"@,
        "VARIANT"@, "UNKNOWN"@, "DECIMAL"@, "I1"@, "UI1"@, "UI2"@, "UI4"@, "I8"@, "UI8"@,
        "INT"@, "UINT"@, "VOID"@, "HRESULT"@, "PTR"@, "SAFEARRAY"@, "CARRAY"@, "USERDEFINED"@,
        "LPSTR"@, "LPWSTR"@, "RECORD"@
    ]
}

/// Every supported primitive tag code is named from the canonical table,
/// and the name depends on the code alone.
pub proof fn lemma_primitive_names_canonical(
    lib: OleTypeLibData,
    owner: OleTypeData,
    other_lib: OleTypeLibData,
    other_owner: OleTypeData,
    vt: u16,
)
    requires
        vt_has_label(vt),
    ensures
        canonical_labels().contains(desc_name(lib, owner, TypeDesc::Base(vt))),
        desc_name(lib, owner, TypeDesc::Base(vt)) == desc_name(
            other_lib,
            other_owner,
            TypeDesc::Base(vt),
        ),
{
}

/// A pointer is rendered read-only when its parameter is marked input
/// only, and read-write when it is marked input and output, output only,
/// or not at all.
pub proof fn lemma_pointer_direction(lib: OleTypeLibData, owner: OleTypeData, inner: TypeDesc)
    ensures
        match binding_type(lib, owner, inner, PARAMFLAG_FIN) {
            Ok(n) => binding_type(lib, owner, TypeDesc::Ptr(Box::new(inner)), PARAMFLAG_FIN)
                == Ok::<Seq<char>, crate::emit::RenderFault>("*const "@ + n),
            Err(_) => binding_type(lib, owner, TypeDesc::Ptr(Box::new(inner)), PARAMFLAG_FIN) is Err,
        },
        match binding_type(lib, owner, inner, (PARAMFLAG_FIN | PARAMFLAG_FOUT)) {
            Ok(n) => binding_type(
                lib,
                owner,
                TypeDesc::Ptr(Box::new(inner)),
                (PARAMFLAG_FIN | PARAMFLAG_FOUT),
            ) == Ok::<Seq<char>, crate::emit::RenderFault>("*mut "@ + n),
            Err(_) => binding_type(
                lib,
                owner,
                TypeDesc::Ptr(Box::new(inner)),
                (PARAMFLAG_FIN | PARAMFLAG_FOUT),
            ) is Err,
        },
        match binding_type(lib, owner, inner, PARAMFLAG_FOUT) {
            Ok(n) => binding_type(lib, owner, TypeDesc::Ptr(Box::new(inner)), PARAMFLAG_FOUT)
                == Ok::<Seq<char>, crate::emit::RenderFault>("*mut "@ + n),
            Err(_) => binding_type(lib, owner, TypeDesc::Ptr(Box::new(inner)), PARAMFLAG_FOUT) is Err,
        },
        match binding_type(lib, owner, inner, 0) {
            Ok(n) => binding_type(lib, owner, TypeDesc::Ptr(Box::new(inner)), 0) == Ok::<
                Seq<char>,
                crate::emit::RenderFault,
            >("*mut "@ + n),
            Err(_) => binding_type(lib, owner, TypeDesc::Ptr(Box::new(inner)), 0) is Err,
        },
{
    assert((1u16 & 1u16) == 1u16 && (1u16 & 2u16) == 0u16) by (bit_vector);
    assert(((1u16 | 2u16) & 2u16) != 0u16) by (bit_vector);
    assert((2u16 & 1u16) != 1u16) by (bit_vector);
    assert((0u16 & 1u16) != 1u16) by (bit_vector);
}

/// A reference into a library that cannot be loaded renders as the
/// substitution marker and counts as one missing type per occurrence: two
/// renderings of it raise the count by two.
pub proof fn lemma_missing_type_substitution(
    lib: OleTypeLibData,
    owner: OleTypeData,
    href: u32,
    flags: u16,
    count: usize,
)
    requires
        ref_lookup(owner.refs@, href) == Err::<usize, i32>(TYPE_E_CANTLOADLIBRARY),
        count + 2 <= usize::MAX,
    ensures
        binding_type(lib, owner, TypeDesc::UserDefined(href), flags) == Ok::<
            Seq<char>,
            crate::emit::RenderFault,
        >("__missing_type__"@),
        missing_refs(lib, owner, TypeDesc::UserDefined(href)) == 1,
        counted(
            counted(count, missing_refs(lib, owner, TypeDesc::UserDefined(href))),
            missing_refs(lib, owner, TypeDesc::UserDefined(href)),
        ) == count + 2,
{
}

proof fn lemma_source_link_from(c: OleTypeData, record: usize, j: int, k: int)
    requires
        0 <= k <= j < c.impl_types@.len(),
        impl_target(c, j, IMPLTYPEFLAG_FSOURCE) == Some(record),
    ensures
        source_link(c, record, k),
    decreases j - k,
{
    if k < j {
        lemma_source_link_from(c, record, j, k + 1);
    }
}

proof fn lemma_no_source_link(c: OleTypeData, record: usize, k: int)
    requires
        forall|j: int|
            0 <= j < c.impl_types@.len() ==> (#[trigger] c.impl_types@[j] matches Ok(it) ==> (it.flags
                & IMPLTYPEFLAG_FSOURCE) != IMPLTYPEFLAG_FSOURCE),
    ensures
        !source_link(c, record, k),
    decreases c.impl_types@.len() - k,
{
    if 0 <= k < c.impl_types@.len() {
        lemma_no_source_link(c, record, k + 1);
    }
}

/// A method of record `r`, reached through coclass `c`, is an event when an
/// entry of `c` for `r` carries the source flag and `r` has a method of
/// that name.
pub proof fn lemma_event_with_source(
    lib: OleTypeLibData,
    c: usize,
    r: usize,
    name: Seq<char>,
    j: int,
)
    requires
        lib.rec(c as int).kind == TypeKind::Coclass,
        0 <= j < lib.rec(c as int).impl_types@.len(),
        impl_target(lib.rec(c as int), j, IMPLTYPEFLAG_FSOURCE) == Some(r),
        find_from(lib, r as int, name, 0) is Some,
    ensures
        event_of(lib, Some(c), r, name),
{
    lemma_source_link_from(lib.rec(c as int), r, j, 0);
}

/// Without the source flag on any entry of coclass `c`, no method reached
/// through `c` is an event, whatever its name.
pub proof fn lemma_no_event_without_source(lib: OleTypeLibData, c: usize, r: usize, name: Seq<char>)
    requires
        forall|j: int|
            0 <= j < lib.rec(c as int).impl_types@.len() ==> (#[trigger] lib.rec(
                c as int,
            ).impl_types@[j] matches Ok(it) ==> (it.flags & IMPLTYPEFLAG_FSOURCE)
                != IMPLTYPEFLAG_FSOURCE),
    ensures
        !event_of(lib, Some(c), r, name),
{
    lemma_no_source_link(lib.rec(c as int), r, 0);
}

/// Arguments `[a, b, c]`, declared in that order, are handed to the
/// platform as `[c, b, a]`.
pub proof fn lemma_call_arguments_reversed<T>(a: T, b: T, c: T)
    ensures
        seq![a, b, c].reverse() == seq![c, b, a],
{
    assert(seq![a, b, c].reverse() =~= seq![c, b, a]);
}

} // verus!
