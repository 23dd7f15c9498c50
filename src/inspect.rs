//! Inspection of type records: their implemented types, methods,
//! parameters and variables.
use vstd::prelude::*;
use crate::error::Error;
use crate::render::{ole_typedesc2val, desc_name, type_detail, texts};
use crate::model::{
    OleTypeLibData, OleTypeData, FuncDesc, VarDesc, TypeDesc, TypeKind, Guid, ref_lookup, IMPLTYPEFLAG_NONE, IMPLTYPEFLAG_FDEFAULT, IMPLTYPEFLAG_FSOURCE,
    INVOKE_FUNC, INVOKE_PROPERTYGET, INVOKE_PROPERTYPUT, INVOKE_PROPERTYPUTREF, PARAMFLAG_FIN,
    PARAMFLAG_FOUT, PARAMFLAG_FOPT, PARAMFLAG_FRETVAL, TYPEFLAG_FHIDDEN, TYPEFLAG_FRESTRICTED,
    VAR_PERINSTANCE, VAR_STATIC, VAR_CONST, VAR_DISPATCH, VARFLAG_FHIDDEN, VARFLAG_FRESTRICTED,
    VARFLAG_FNONBROWSABLE,
};

verus! {

/// The record that entry `j` of `t`'s implemented-type table leads to,
/// when the entry carries every flag of `flags` and resolves.
pub open spec fn impl_target(t: OleTypeData, j: int, flags: u32) -> Option<usize> {
    match t.impl_types@[j] {
        Ok(it) => if (it.flags & flags) == flags {
            match ref_lookup(t.refs@, it.href) {
                Ok(s) => Some(s),
                Err(_) => None,
            }
        } else {
            None
        },
        Err(_) => None,
    }
}

/// The records that the first `n` implemented-type entries of `t` lead to,
/// keeping only the entries whose flags hold every flag of `flags`.
pub open spec fn impl_filter(t: OleTypeData, flags: u32, n: int) -> Seq<usize>
    decreases n,
{
    if n <= 0 {
        Seq::empty()
    } else {
        impl_filter(t, flags, n - 1) + match impl_target(t, n - 1, flags) {
            Some(s) => seq![s],
            None => Seq::empty(),
        }
    }
}

/// The implemented types of `t` whose entry flags hold every flag of
/// `flags`, in table order.
pub open spec fn impl_types_with(t: OleTypeData, flags: u32) -> Seq<usize> {
    impl_filter(t, flags, t.impl_types@.len() as int)
}

impl OleTypeData {
    /// The implemented types whose entry flags hold every flag of `flags`,
    /// in table order; entries that fail or do not resolve are left out.
    pub fn ole_type_impl_ole_types(&self, lib: &OleTypeLibData, flags: u32) -> (r: Vec<usize>)
        requires
            lib.holds(*self),
        ensures
            r@ == impl_types_with(*self, flags),
            forall|k: int| 0 <= k < r@.len() ==> lib.has(#[trigger] r@[k] as int),
    {
        let impls = &self.impl_types;
        let mut out: Vec<usize> = Vec::new();
        let mut j: usize = 0;
        while j < impls.len()
            invariant
                j <= impls@.len(),
                impls@ == self.impl_types@,
                lib.holds(*self),
                out@ == impl_filter(*self, flags, j as int),
                forall|k: int| 0 <= k < out@.len() ==> lib.has(#[trigger] out@[k] as int),
            decreases impls@.len() - j,
        {
            match &impls[j] {
                Ok(it) => {
                    if (it.flags & flags) == flags {
                        match self.get_ref_type_info(it.href) {
                            Ok(t) => {
                                out.push(t);
                            },
                            Err(_) => {},
                        }
                    }
                },
                Err(_) => {},
            }
            j = j + 1;
        }
        out
    }

    /// Every implemented type.
    pub fn implemented_ole_types(&self, lib: &OleTypeLibData) -> (r: Vec<usize>)
        requires
            lib.holds(*self),
        ensures
            r@ == impl_types_with(*self, IMPLTYPEFLAG_NONE),
            forall|k: int| 0 <= k < r@.len() ==> lib.has(#[trigger] r@[k] as int),
    {
        self.ole_type_impl_ole_types(lib, IMPLTYPEFLAG_NONE)
    }

    /// The source (event) interfaces.
    pub fn source_ole_types(&self, lib: &OleTypeLibData) -> (r: Vec<usize>)
        requires
            lib.holds(*self),
        ensures
            r@ == impl_types_with(*self, IMPLTYPEFLAG_FSOURCE),
            forall|k: int| 0 <= k < r@.len() ==> lib.has(#[trigger] r@[k] as int),
    {
        self.ole_type_impl_ole_types(lib, IMPLTYPEFLAG_FSOURCE)
    }

    /// The default source interfaces.
    pub fn default_event_sources(&self, lib: &OleTypeLibData) -> (r: Vec<usize>)
        requires
            lib.holds(*self),
        ensures
            r@ == impl_types_with(*self, IMPLTYPEFLAG_FSOURCE | IMPLTYPEFLAG_FDEFAULT),
            forall|k: int| 0 <= k < r@.len() ==> lib.has(#[trigger] r@[k] as int),
    {
        self.ole_type_impl_ole_types(lib, IMPLTYPEFLAG_FSOURCE | IMPLTYPEFLAG_FDEFAULT)
    }

    /// The default interfaces.
    pub fn default_ole_types(&self, lib: &OleTypeLibData) -> (r: Vec<usize>)
        requires
            lib.holds(*self),
        ensures
            r@ == impl_types_with(*self, IMPLTYPEFLAG_FDEFAULT),
            forall|k: int| 0 <= k < r@.len() ==> lib.has(#[trigger] r@[k] as int),
    {
        self.ole_type_impl_ole_types(lib, IMPLTYPEFLAG_FDEFAULT)
    }
}

/// A method as the inspector hands it out: where it was declared, how it
/// was reached, and its name.
#[derive(Debug)]
pub struct OleMethodData {
    /// The record whose implemented types led to the method, when it was
    /// found through one rather than among a record's own methods.
    pub owner: Option<usize>,
    /// Arena slot of the declaring record.
    pub record: usize,
    /// Position among the declaring record's functions.
    pub index: usize,
    pub name: String,
}

/// Where a method stands: its owner, its declaring record, its position.
pub type MethodKey = (Option<usize>, usize, usize);

impl OleMethodData {
    pub open spec fn key(&self) -> MethodKey {
        (self.owner, self.record, self.index)
    }

    /// The method names an existing function of its record, under that
    /// function's name.
    pub open spec fn valid(&self, lib: OleTypeLibData) -> bool {
        &&& lib.has(self.record as int)
        &&& self.index < lib.rec(self.record as int).functions@.len()
        &&& lib.rec(self.record as int).functions@[self.index as int] is Ok
        &&& func_at(lib, self.record as int, self.index as int).name@ == self.name@
        &&& match self.owner {
            Some(o) => lib.has(o as int),
            None => true,
        }
    }
}

/// The function descriptor at position `i` of record `r`.
pub open spec fn func_at(lib: OleTypeLibData, r: int, i: int) -> FuncDesc {
    lib.rec(r).functions@[i]->Ok_0
}

pub open spec fn keys(v: Seq<OleMethodData>) -> Seq<MethodKey> {
    v.map_values(|m: OleMethodData| m.key())
}

/// Whether function `i` of `t` exists and its invocation kind meets `mask`.
pub open spec fn method_listed(t: OleTypeData, i: int, mask: u32) -> bool {
    t.functions@[i] matches Ok(f) && (f.invkind & mask) != 0
}

/// The methods among the first `n` functions of record `s` whose invocation
/// kind meets `mask`, reached through `owner`.
pub open spec fn listed(
    lib: OleTypeLibData,
    s: int,
    owner: Option<usize>,
    mask: u32,
    n: int,
) -> Seq<MethodKey>
    decreases n,
{
    if n <= 0 {
        Seq::empty()
    } else {
        listed(lib, s, owner, mask, n - 1) + if method_listed(lib.rec(s), n - 1, mask) {
            seq![(owner, s as usize, (n - 1) as usize)]
        } else {
            Seq::empty()
        }
    }
}

/// The methods of the records that the first `j` implemented-type entries of
/// `rec` lead to.
pub open spec fn inherited(lib: OleTypeLibData, rec: int, mask: u32, j: int) -> Seq<MethodKey>
    decreases j,
{
    if j <= 0 {
        Seq::empty()
    } else {
        inherited(lib, rec, mask, j - 1) + match impl_target(lib.rec(rec), j - 1, IMPLTYPEFLAG_NONE) {
            Some(t) => listed(lib, t as int, Some(rec as usize), mask, lib.rec(t as int).functions@.len() as int),
            None => Seq::empty(),
        }
    }
}

/// Every method of `rec` whose invocation kind meets `mask`: its own first,
/// then those of each implemented type, one level deep, in table order.
pub open spec fn all_methods(lib: OleTypeLibData, rec: int, mask: u32) -> Seq<MethodKey> {
    listed(lib, rec, None, mask, lib.rec(rec).functions@.len() as int) + inherited(
        lib,
        rec,
        mask,
        lib.rec(rec).impl_types@.len() as int,
    )
}

/// Appends the methods of record `slot` whose invocation kind meets `mask`.
pub fn ole_methods_sub(
    lib: &OleTypeLibData,
    owner: Option<usize>,
    slot: usize,
    methods: &mut Vec<OleMethodData>,
    mask: u32,
)
    requires
        lib.wf(),
        lib.has(slot as int),
        owner matches Some(o) ==> lib.has(o as int),
    ensures
        keys(final(methods)@) == keys(old(methods)@) + listed(
            *lib,
            slot as int,
            owner,
            mask,
            lib.rec(slot as int).functions@.len() as int,
        ),
        forall|k: int| 0 <= k < old(methods)@.len() ==> final(methods)@[k] == old(methods)@[k],
        forall|k: int|
            old(methods)@.len() <= k < final(methods)@.len() ==> (#[trigger] final(methods)@[k]).valid(*lib),
{
    let funcs = &lib.records[slot].functions;
    let ghost base = old(methods)@;
    let mut i: usize = 0;
    while i < funcs.len()
        invariant
            i <= funcs@.len(),
            funcs@ == lib.rec(slot as int).functions@,
            lib.has(slot as int),
            owner matches Some(o) ==> lib.has(o as int),
            keys(methods@) == keys(base) + listed(*lib, slot as int, owner, mask, i as int),
            methods@.len() >= base.len(),
            forall|k: int| 0 <= k < base.len() ==> methods@[k] == base[k],
            forall|k: int| base.len() <= k < methods@.len() ==> (#[trigger] methods@[k]).valid(*lib),
        decreases funcs@.len() - i,
    {
        let ghost prev = methods@;
        match &funcs[i] {
            Ok(f) => {
                if (f.invkind & mask) != 0 {
                    let m = OleMethodData { owner, record: slot, index: i, name: f.name.clone() };
                    methods.push(m);
                    proof {
                        assert(keys(methods@) =~= keys(prev).push((owner, slot, i)));
                    }
                }
            },
            Err(_) => {},
        }
        proof {
            assert(keys(methods@) =~= keys(base) + listed(*lib, slot as int, owner, mask, i + 1));
        }
        i = i + 1;
    }
}

/// Every method of record `rec` whose invocation kind meets `mask` (a union
/// of `INVOKE_*` kinds): its own, then those of its implemented types.
pub fn ole_methods_from_typeinfo(lib: &OleTypeLibData, rec: usize, mask: u32) -> (r: Vec<
    OleMethodData,
>)
    requires
        lib.wf(),
        lib.has(rec as int),
    ensures
        keys(r@) == all_methods(*lib, rec as int, mask),
        forall|k: int| 0 <= k < r@.len() ==> (#[trigger] r@[k]).valid(*lib),
{
    let mut methods: Vec<OleMethodData> = Vec::new();
    ole_methods_sub(lib, None, rec, &mut methods, mask);
    let ghost own = keys(methods@);
    let t = &lib.records[rec];
    let impls = &t.impl_types;
    let mut j: usize = 0;
    while j < impls.len()
        invariant
            j <= impls@.len(),
            impls@ == lib.rec(rec as int).impl_types@,
            *t == lib.rec(rec as int),
            lib.wf(),
            lib.has(rec as int),
            own == listed(*lib, rec as int, None, mask, lib.rec(rec as int).functions@.len() as int),
            keys(methods@) == own + inherited(*lib, rec as int, mask, j as int),
            forall|k: int| 0 <= k < methods@.len() ==> (#[trigger] methods@[k]).valid(*lib),
        decreases impls@.len() - j,
    {
        let ghost before = methods@;
        match &impls[j] {
            Ok(it) => {
                if (it.flags & IMPLTYPEFLAG_NONE) == IMPLTYPEFLAG_NONE {
                    match t.get_ref_type_info(it.href) {
                        Ok(target) => {
                            proof {
                                assert(lib.holds(*t));
                            }
                            ole_methods_sub(lib, Some(rec), target, &mut methods, mask);
                            proof {
                                assert forall|k: int| 0 <= k < methods@.len() implies (
                                #[trigger] methods@[k]).valid(*lib) by {
                                    if k < before.len() {
                                        assert(methods@[k] == before[k]);
                                    }
                                }
                            }
                        },
                        Err(_) => {},
                    }
                }
            },
            Err(_) => {},
        }
        proof {
            assert(keys(methods@) =~= own + inherited(*lib, rec as int, mask, j + 1));
        }
        j = j + 1;
    }
    proof {
        assert(keys(methods@) =~= all_methods(*lib, rec as int, mask));
    }
    methods
}

/// The first function of record `s`, from position `i` on, that exists and
/// is named `name`.
pub open spec fn find_from(lib: OleTypeLibData, s: int, name: Seq<char>, i: int) -> Option<usize>
    decreases lib.rec(s).functions@.len() - i,
{
    if i < 0 || i >= lib.rec(s).functions@.len() {
        None
    } else if lib.rec(s).functions@[i] matches Ok(f) && f.name@ == name {
        Some(i as usize)
    } else {
        find_from(lib, s, name, i + 1)
    }
}

/// The method named `name` among the implemented types of `rec`, from
/// entry `j` on.
pub open spec fn lookup_inherited(lib: OleTypeLibData, rec: int, name: Seq<char>, j: int) -> Option<
    MethodKey,
>
    decreases lib.rec(rec).impl_types@.len() - j,
{
    if j < 0 || j >= lib.rec(rec).impl_types@.len() {
        None
    } else {
        match impl_target(lib.rec(rec), j, IMPLTYPEFLAG_NONE) {
            Some(t) => match find_from(lib, t as int, name, 0) {
                Some(i) => Some((Some(rec as usize), t, i)),
                None => lookup_inherited(lib, rec, name, j + 1),
            },
            None => lookup_inherited(lib, rec, name, j + 1),
        }
    }
}

/// The method named `name` of record `rec`: among its own methods first,
/// then among those of its implemented types, one level deep.
pub open spec fn lookup(lib: OleTypeLibData, rec: int, name: Seq<char>) -> Option<MethodKey> {
    match find_from(lib, rec, name, 0) {
        Some(i) => Some((None, rec as usize, i)),
        None => lookup_inherited(lib, rec, name, 0),
    }
}

impl OleMethodData {
    /// The method of record `slot` named exactly `name`, reached through
    /// `owner`, if the record has one.
    pub fn maybe_find_and_create(
        lib: &OleTypeLibData,
        owner: Option<usize>,
        slot: usize,
        name: &str,
    ) -> (r: Option<OleMethodData>)
        requires
            lib.wf(),
            lib.has(slot as int),
            owner matches Some(o) ==> lib.has(o as int),
        ensures
            match find_from(*lib, slot as int, name@, 0) {
                Some(i) => r matches Some(m) && m.key() == (owner, slot, i) && m.valid(*lib),
                None => r is None,
            },
    {
        let target = name.to_owned();
        let funcs = &lib.records[slot].functions;
        let mut i: usize = 0;
        while i < funcs.len()
            invariant
                i <= funcs@.len(),
                funcs@ == lib.rec(slot as int).functions@,
                lib.has(slot as int),
                owner matches Some(o) ==> lib.has(o as int),
                target@ == name@,
                find_from(*lib, slot as int, name@, i as int) == find_from(
                    *lib,
                    slot as int,
                    name@,
                    0,
                ),
            decreases funcs@.len() - i,
        {
            match &funcs[i] {
                Ok(f) => {
                    if f.name == target {
                        assert(find_from(*lib, slot as int, name@, i as int) == Some(i));
                        return Some(
                            OleMethodData { owner, record: slot, index: i, name: f.name.clone() },
                        );
                    }
                },
                Err(_) => {},
            }
            i = i + 1;
        }
        None
    }

    /// The method of record `rec` named exactly `name`: among its own
    /// methods first, then among those of its implemented types.
    pub fn from_typeinfo(lib: &OleTypeLibData, rec: usize, name: &str) -> (r: Option<OleMethodData>)
        requires
            lib.wf(),
            lib.has(rec as int),
        ensures
            match lookup(*lib, rec as int, name@) {
                Some(k) => r matches Some(m) && m.key() == k && m.valid(*lib),
                None => r is None,
            },
    {
        let own = OleMethodData::maybe_find_and_create(lib, None, rec, name);
        if own.is_some() {
            return own;
        }
        let t = &lib.records[rec];
        let impls = &t.impl_types;
        let mut j: usize = 0;
        while j < impls.len()
            invariant
                j <= impls@.len(),
                impls@ == lib.rec(rec as int).impl_types@,
                *t == lib.rec(rec as int),
                lib.wf(),
                lib.has(rec as int),
                find_from(*lib, rec as int, name@, 0) is None,
                lookup_inherited(*lib, rec as int, name@, j as int) == lookup_inherited(
                    *lib,
                    rec as int,
                    name@,
                    0,
                ),
            decreases impls@.len() - j,
        {
            match &impls[j] {
                Ok(it) => {
                    if (it.flags & IMPLTYPEFLAG_NONE) == IMPLTYPEFLAG_NONE {
                        match t.get_ref_type_info(it.href) {
                            Ok(target) => {
                                proof {
                                    assert(lib.holds(*t));
                                }
                                let found = OleMethodData::maybe_find_and_create(
                                    lib,
                                    Some(rec),
                                    target,
                                    name,
                                );
                                if found.is_some() {
                                    return found;
                                }
                            },
                            Err(_) => {},
                        }
                    }
                },
                Err(_) => {},
            }
            j = j + 1;
        }
        None
    }
}

/// Whether an entry of `c`'s implemented-type table, from entry `j` on,
/// carries the source flag and leads to record `record`.
pub open spec fn source_link(c: OleTypeData, record: usize, j: int) -> bool
    decreases c.impl_types@.len() - j,
{
    if j < 0 || j >= c.impl_types@.len() {
        false
    } else {
        impl_target(c, j, IMPLTYPEFLAG_FSOURCE) == Some(record) || source_link(c, record, j + 1)
    }
}

/// Whether a method named `name` of record `record`, reached through
/// `owner`, is an event: the owner is a coclass, one of its implemented-type
/// entries for `record` carries the source flag, and `record` has a method
/// of that name.
pub open spec fn event_of(
    lib: OleTypeLibData,
    owner: Option<usize>,
    record: usize,
    name: Seq<char>,
) -> bool {
    match owner {
        Some(c) => {
            &&& lib.rec(c as int).kind == TypeKind::Coclass
            &&& source_link(lib.rec(c as int), record, 0)
            &&& find_from(lib, record as int, name, 0) is Some
        },
        None => false,
    }
}

/// How many parameters the inspector reports for `f`: one per name after
/// the member's own, and never more than the descriptor declares.
pub open spec fn param_count(f: FuncDesc) -> int {
    if f.params@.len() == 0 {
        0
    } else {
        let n: int = if f.names@.len() <= f.params@.len() {
            f.names@.len() as int
        } else {
            f.params@.len() + 1int
        };
        if n >= 1 {
            n - 1
        } else {
            0
        }
    }
}

/// The label of an invocation kind.
pub open spec fn invoke_kind_label(k: u32) -> Seq<char> {
    if (k & INVOKE_PROPERTYGET) != 0 && (k & INVOKE_PROPERTYPUT) != 0 {
        "PROPERTY"@
    } else if (k & INVOKE_PROPERTYGET) != 0 {
        "PROPERTYGET"@
    } else if (k & INVOKE_PROPERTYPUT) != 0 {
        "PROPERTYPUT"@
    } else if (k & INVOKE_PROPERTYPUTREF) != 0 {
        "PROPERTYPUTREF"@
    } else if (k & INVOKE_FUNC) != 0 {
        "FUNC"@
    } else {
        "UNKNOWN"@
    }
}

/// A parameter of a method, at its position among the declared parameters.
#[derive(Debug)]
pub struct OleParamData {
    /// Arena slot of the record that declares the method.
    pub record: usize,
    /// Position of the method among its record's functions.
    pub method_index: usize,
    /// Position among the method's parameters, from 0.
    pub index: usize,
    pub name: String,
    pub flags: u16,
}

impl OleMethodData {
    /// The method's function descriptor.
    pub fn desc<'a>(&self, lib: &'a OleTypeLibData) -> (r: &'a FuncDesc)
        requires
            self.valid(*lib),
        ensures
            *r == func_at(*lib, self.record as int, self.index as int),
    {
        match &lib.records[self.record].functions[self.index] {
            Ok(f) => f,
            Err(_) => vstd::pervasive::unreached(),
        }
    }

    pub fn name(&self) -> (r: &str)
        ensures
            r@ == self.name@,
    {
        self.name.as_str()
    }

    pub fn index(&self) -> (r: usize)
        ensures
            r == self.index,
    {
        self.index
    }

    pub fn dispid(&self, lib: &OleTypeLibData) -> (r: i32)
        requires
            self.valid(*lib),
        ensures
            r == func_at(*lib, self.record as int, self.index as int).memid,
    {
        self.desc(lib).memid
    }

    pub fn invkind(&self, lib: &OleTypeLibData) -> (r: u32)
        requires
            self.valid(*lib),
        ensures
            r == func_at(*lib, self.record as int, self.index as int).invkind,
    {
        self.desc(lib).invkind
    }

    pub fn funckind(&self, lib: &OleTypeLibData) -> (r: u32)
        requires
            self.valid(*lib),
        ensures
            r == func_at(*lib, self.record as int, self.index as int).funckind,
    {
        self.desc(lib).funckind
    }

    pub fn offset_vtbl(&self, lib: &OleTypeLibData) -> (r: i16)
        requires
            self.valid(*lib),
        ensures
            r == func_at(*lib, self.record as int, self.index as int).vft_offset,
    {
        self.desc(lib).vft_offset
    }

    /// The method's name, help string, help context and help file.
    pub fn get_documentation(&self, lib: &OleTypeLibData) -> (r: (String, String, u32, String))
        requires
            self.valid(*lib),
        ensures
            r.0@ == func_at(*lib, self.record as int, self.index as int).name@,
            r.1@ == func_at(*lib, self.record as int, self.index as int).help_string@,
            r.2 == func_at(*lib, self.record as int, self.index as int).help_context,
            r.3@ == func_at(*lib, self.record as int, self.index as int).help_file@,
    {
        let d = self.desc(lib);
        (d.name.clone(), d.help_string.clone(), d.help_context, d.help_file.clone())
    }

    pub fn helpstring<'a>(&self, lib: &'a OleTypeLibData) -> (r: &'a str)
        requires
            self.valid(*lib),
        ensures
            r@ == func_at(*lib, self.record as int, self.index as int).help_string@,
    {
        self.desc(lib).help_string.as_str()
    }

    pub fn helpfile<'a>(&self, lib: &'a OleTypeLibData) -> (r: &'a str)
        requires
            self.valid(*lib),
        ensures
            r@ == func_at(*lib, self.record as int, self.index as int).help_file@,
    {
        self.desc(lib).help_file.as_str()
    }

    pub fn helpcontext(&self, lib: &OleTypeLibData) -> (r: u32)
        requires
            self.valid(*lib),
        ensures
            r == func_at(*lib, self.record as int, self.index as int).help_context,
    {
        self.desc(lib).help_context
    }

    pub fn size_params(&self, lib: &OleTypeLibData) -> (r: usize)
        requires
            self.valid(*lib),
        ensures
            r == func_at(*lib, self.record as int, self.index as int).params@.len(),
    {
        self.desc(lib).params.len()
    }

    pub fn size_opt_params(&self, lib: &OleTypeLibData) -> (r: i16)
        requires
            self.valid(*lib),
        ensures
            r == func_at(*lib, self.record as int, self.index as int).opt_params,
    {
        self.desc(lib).opt_params
    }

    /// The label of the method's invocation kind.
    pub fn invoke_kind(&self, lib: &OleTypeLibData) -> (r: &'static str)
        requires
            self.valid(*lib),
        ensures
            r@ == invoke_kind_label(func_at(*lib, self.record as int, self.index as int).invkind),
    {
        let k = self.invkind(lib);
        if (k & INVOKE_PROPERTYGET) != 0 && (k & INVOKE_PROPERTYPUT) != 0 {
            "PROPERTY"
        } else if (k & INVOKE_PROPERTYGET) != 0 {
            "PROPERTYGET"
        } else if (k & INVOKE_PROPERTYPUT) != 0 {
            "PROPERTYPUT"
        } else if (k & INVOKE_PROPERTYPUTREF) != 0 {
            "PROPERTYPUTREF"
        } else if (k & INVOKE_FUNC) != 0 {
            "FUNC"
        } else {
            "UNKNOWN"
        }
    }

    /// The name of the method's return type.
    pub fn return_type(&self, lib: &OleTypeLibData) -> (r: String)
        requires
            lib.wf(),
            self.valid(*lib),
        ensures
            r@ == desc_name(
                *lib,
                lib.rec(self.record as int),
                func_at(*lib, self.record as int, self.index as int).ret,
            ),
    {
        let mut scratch: Vec<String> = Vec::new();
        ole_typedesc2val(lib, &lib.records[self.record], &self.desc(lib).ret, &mut scratch)
    }

    /// The chain of labels of the method's return type.
    pub fn return_type_detail(&self, lib: &OleTypeLibData) -> (r: Vec<String>)
        requires
            lib.wf(),
            self.valid(*lib),
        ensures
            texts(r@) == type_detail(
                *lib,
                lib.rec(self.record as int),
                func_at(*lib, self.record as int, self.index as int).ret,
            ),
    {
        let mut details: Vec<String> = Vec::new();
        let _ = ole_typedesc2val(lib, &lib.records[self.record], &self.desc(lib).ret, &mut details);
        proof {
            assert(texts(Seq::<String>::empty()) =~= Seq::<Seq<char>>::empty());
        }
        details
    }

    /// Whether the method is an event of the coclass it was reached through.
    pub fn is_event(&self, lib: &OleTypeLibData) -> (r: bool)
        requires
            lib.wf(),
            self.valid(*lib),
        ensures
            r == event_of(*lib, self.owner, self.record, self.name@),
    {
        match self.owner {
            None => false,
            Some(c) => {
                let co = &lib.records[c];
                if co.kind != TypeKind::Coclass {
                    return false;
                }
                let impls = &co.impl_types;
                let mut linked = false;
                let mut j: usize = 0;
                while j < impls.len()
                    invariant
                        j <= impls@.len(),
                        impls@ == co.impl_types@,
                        lib.holds(*co),
                        source_link(*co, self.record, 0) == (linked || source_link(
                            *co,
                            self.record,
                            j as int,
                        )),
                    decreases impls@.len() - j,
                {
                    match &impls[j] {
                        Ok(it) => {
                            if (it.flags & IMPLTYPEFLAG_FSOURCE) == IMPLTYPEFLAG_FSOURCE {
                                match co.get_ref_type_info(it.href) {
                                    Ok(t) => {
                                        if t == self.record {
                                            linked = true;
                                        }
                                    },
                                    Err(_) => {},
                                }
                            }
                        },
                        Err(_) => {},
                    }
                    j = j + 1;
                }
                if !linked {
                    return false;
                }
                let found = OleMethodData::maybe_find_and_create(
                    lib,
                    None,
                    self.record,
                    self.name.as_str(),
                );
                found.is_some()
            },
        }
    }

    /// The name of the event interface when the method is an event.
    pub fn event_interface(&self, lib: &OleTypeLibData) -> (r: Option<String>)
        requires
            lib.wf(),
            self.valid(*lib),
        ensures
            event_of(*lib, self.owner, self.record, self.name@) ==> (r matches Some(n) && n@
                == lib.rec(self.record as int).name@),
            !event_of(*lib, self.owner, self.record, self.name@) ==> r is None,
    {
        if self.is_event(lib) {
            Some(lib.records[self.record].name.clone())
        } else {
            None
        }
    }

    /// The method's parameters, in declaration order. The platform's name
    /// list holds the member's own name in slot 0: parameter `k` takes the
    /// name in slot `k + 1`.
    pub fn params(&self, lib: &OleTypeLibData) -> (r: Vec<OleParamData>)
        requires
            self.valid(*lib),
        ensures
            r@.len() == param_count(func_at(*lib, self.record as int, self.index as int)),
            forall|k: int|
                0 <= k < r@.len() ==> {
                    let f = func_at(*lib, self.record as int, self.index as int);
                    &&& (#[trigger] r@[k]).index == k
                    &&& r@[k].name@ == f.names@[k + 1]@
                    &&& r@[k].flags == f.params@[k].flags
                    &&& r@[k].record == self.record
                    &&& r@[k].method_index == self.index
                },
    {
        let f = self.desc(lib);
        let mut params: Vec<OleParamData> = Vec::new();
        if f.params.len() == 0 {
            return params;
        }
        let len: usize = if f.names.len() <= f.params.len() {
            f.names.len()
        } else {
            f.params.len() + 1
        };
        let mut i: usize = 1;
        while i < len
            invariant
                1 <= i,
                i <= len || i == 1,
                len <= f.names@.len(),
                len <= f.params@.len() + 1,
                len == (if f.names@.len() <= f.params@.len() {
                    f.names@.len() as int
                } else {
                    f.params@.len() + 1int
                }),
                f.params@.len() > 0,
                *f == func_at(*lib, self.record as int, self.index as int),
                params@.len() == i - 1,
                forall|k: int|
                    0 <= k < params@.len() ==> {
                        &&& (#[trigger] params@[k]).index == k
                        &&& params@[k].name@ == f.names@[k + 1]@
                        &&& params@[k].flags == f.params@[k].flags
                        &&& params@[k].record == self.record
                        &&& params@[k].method_index == self.index
                    },
            decreases len - i,
        {
            params.push(
                OleParamData {
                    record: self.record,
                    method_index: self.index,
                    index: i - 1,
                    name: f.names[i].clone(),
                    flags: f.params[i - 1].flags,
                },
            );
            i = i + 1;
        }
        assert(params@.len() == param_count(*f));
        params
    }
}

impl OleParamData {
    /// Parameter `n` of method `method`, counting from 1; an error for a
    /// position outside `1..=count`.
    pub fn new(lib: &OleTypeLibData, method: &OleMethodData, n: usize) -> (r: Result<
        OleParamData,
        Error,
    >)
        requires
            method.valid(*lib),
        ensures
            1 <= n <= param_count(func_at(*lib, method.record as int, method.index as int)) ==> (
            r matches Ok(p) && p.index == n - 1 && p.name@ == func_at(
                *lib,
                method.record as int,
                method.index as int,
            ).names@[n as int]@ && p.flags == func_at(
                *lib,
                method.record as int,
                method.index as int,
            ).params@[n - 1].flags && p.record == method.record && p.method_index
                == method.index),
            !(1 <= n <= param_count(func_at(*lib, method.record as int, method.index as int)))
                ==> r is Err,
    {
        let mut params = method.params(lib);
        if n < 1 || n > params.len() {
            return Err(Error::Custom(String::from_str("index of param is out of range")));
        }
        Ok(params.remove(n - 1))
    }
}

/// The method named `cmdname` of record `rec`, or a not-found error.
pub fn ole_method_help(lib: &OleTypeLibData, rec: usize, cmdname: &str) -> (r: Result<
    OleMethodData,
    Error,
>)
    requires
        lib.wf(),
        lib.has(rec as int),
    ensures
        match lookup(*lib, rec as int, cmdname@) {
            Some(k) => r matches Ok(m) && m.key() == k && m.valid(*lib),
            None => r matches Err(Error::Custom(msg)) && msg@ == "not found "@ + cmdname@,
        },
{
    match OleMethodData::from_typeinfo(lib, rec, cmdname) {
        Some(m) => Ok(m),
        None => {
            let mut msg = String::from_str("not found ");
            msg.append(cmdname);
            Err(Error::Custom(msg))
        },
    }
}

/// With one name per declared parameter after the member's own, the
/// inspector reports exactly the declared parameters, the first one first.
pub proof fn lemma_param_reindex(f: FuncDesc)
    requires
        f.names@.len() == f.params@.len() + 1,
    ensures
        param_count(f) == f.params@.len(),
        f.params@.len() > 0 ==> param_count(f) > 0,
{
}

impl OleParamData {
    /// The parameter stands at an existing position of an existing method.
    pub open spec fn valid(&self, lib: OleTypeLibData) -> bool {
        &&& lib.has(self.record as int)
        &&& self.method_index < lib.rec(self.record as int).functions@.len()
        &&& lib.rec(self.record as int).functions@[self.method_index as int] is Ok
        &&& self.index < func_at(lib, self.record as int, self.method_index as int).params@.len()
    }

    pub open spec fn tdesc_of(&self, lib: OleTypeLibData) -> TypeDesc {
        func_at(lib, self.record as int, self.method_index as int).params@[self.index as int].tdesc
    }

    pub fn name(&self) -> (r: &str)
        ensures
            r@ == self.name@,
    {
        self.name.as_str()
    }

    pub fn method_index(&self) -> (r: usize)
        ensures
            r == self.method_index,
    {
        self.method_index
    }

    pub fn index(&self) -> (r: usize)
        ensures
            r == self.index,
    {
        self.index
    }

    pub fn param_flags(&self) -> (r: u16)
        ensures
            r == self.flags,
    {
        self.flags
    }

    fn ole_param_flag_mask(&self, mask: u16) -> (r: bool)
        ensures
            r == ((self.flags & mask) != 0),
    {
        (self.flags & mask) != 0
    }

    pub fn input(&self) -> (r: bool)
        ensures
            r == ((self.flags & PARAMFLAG_FIN) != 0),
    {
        self.ole_param_flag_mask(PARAMFLAG_FIN)
    }

    pub fn output(&self) -> (r: bool)
        ensures
            r == ((self.flags & PARAMFLAG_FOUT) != 0),
    {
        self.ole_param_flag_mask(PARAMFLAG_FOUT)
    }

    pub fn optional(&self) -> (r: bool)
        ensures
            r == ((self.flags & PARAMFLAG_FOPT) != 0),
    {
        self.ole_param_flag_mask(PARAMFLAG_FOPT)
    }

    pub fn retval(&self) -> (r: bool)
        ensures
            r == ((self.flags & PARAMFLAG_FRETVAL) != 0),
    {
        self.ole_param_flag_mask(PARAMFLAG_FRETVAL)
    }

    /// The parameter's type descriptor.
    pub fn typedesc<'a>(&self, lib: &'a OleTypeLibData) -> (r: &'a TypeDesc)
        requires
            self.valid(*lib),
        ensures
            *r == self.tdesc_of(*lib),
    {
        match &lib.records[self.record].functions[self.method_index] {
            Ok(f) => &f.params[self.index].tdesc,
            Err(_) => vstd::pervasive::unreached(),
        }
    }

    /// The name of the parameter's type.
    pub fn ole_type(&self, lib: &OleTypeLibData) -> (r: String)
        requires
            lib.wf(),
            self.valid(*lib),
        ensures
            r@ == desc_name(*lib, lib.rec(self.record as int), self.tdesc_of(*lib)),
    {
        let mut scratch: Vec<String> = Vec::new();
        ole_typedesc2val(lib, &lib.records[self.record], self.typedesc(lib), &mut scratch)
    }

    /// The chain of labels of the parameter's type.
    pub fn ole_type_detail(&self, lib: &OleTypeLibData) -> (r: Vec<String>)
        requires
            lib.wf(),
            self.valid(*lib),
        ensures
            texts(r@) == type_detail(*lib, lib.rec(self.record as int), self.tdesc_of(*lib)),
    {
        let mut details: Vec<String> = Vec::new();
        let _ = ole_typedesc2val(lib, &lib.records[self.record], self.typedesc(lib), &mut details);
        proof {
            assert(texts(Seq::<String>::empty()) =~= Seq::<Seq<char>>::empty());
        }
        details
    }
}

/// A member variable of a record: a field, a static, or a constant.
#[derive(Debug)]
pub struct OleVariableData {
    /// Position among the record's variables.
    pub index: usize,
    pub name: String,
    pub help_string: String,
    pub help_context: u32,
    pub help_file: String,
    pub memid: i32,
    pub varkind: u32,
    pub flags: u16,
}

/// The label of a variable kind.
pub open spec fn variable_kind_label(k: u32) -> Seq<char> {
    if k == VAR_PERINSTANCE {
        "PERINSTANCE"@
    } else if k == VAR_STATIC {
        "STATIC"@
    } else if k == VAR_CONST {
        "CONSTANT"@
    } else if k == VAR_DISPATCH {
        "DISPATCH"@
    } else {
        "UNKNOWN"@
    }
}

impl OleVariableData {
    pub fn name(&self) -> (r: &str)
        ensures
            r@ == self.name@,
    {
        self.name.as_str()
    }

    /// The variable's name, help string, help context and help file.
    pub fn get_documentation(&self) -> (r: (String, String, u32, String))
        ensures
            r.0@ == self.name@,
            r.1@ == self.help_string@,
            r.2 == self.help_context,
            r.3@ == self.help_file@,
    {
        (self.name.clone(), self.help_string.clone(), self.help_context, self.help_file.clone())
    }

    pub fn helpstring(&self) -> (r: &str)
        ensures
            r@ == self.help_string@,
    {
        self.help_string.as_str()
    }

    pub fn helpfile(&self) -> (r: &str)
        ensures
            r@ == self.help_file@,
    {
        self.help_file.as_str()
    }

    pub fn helpcontext(&self) -> (r: u32)
        ensures
            r == self.help_context,
    {
        self.help_context
    }

    pub fn member_id(&self) -> (r: i32)
        ensures
            r == self.memid,
    {
        self.memid
    }

    pub fn varkind(&self) -> (r: u32)
        ensures
            r == self.varkind,
    {
        self.varkind
    }

    /// Whether the variable is neither hidden, restricted nor non-browsable.
    pub fn visible(&self) -> (r: bool)
        ensures
            r == ((self.flags & (VARFLAG_FHIDDEN | VARFLAG_FRESTRICTED | VARFLAG_FNONBROWSABLE))
                == 0),
    {
        (self.flags & (VARFLAG_FHIDDEN | VARFLAG_FRESTRICTED | VARFLAG_FNONBROWSABLE)) == 0
    }

    /// The label of the variable's kind.
    pub fn variable_kind(&self) -> (r: &'static str)
        ensures
            r@ == variable_kind_label(self.varkind),
    {
        if self.varkind == VAR_PERINSTANCE {
            "PERINSTANCE"
        } else if self.varkind == VAR_STATIC {
            "STATIC"
        } else if self.varkind == VAR_CONST {
            "CONSTANT"
        } else if self.varkind == VAR_DISPATCH {
            "DISPATCH"
        } else {
            "UNKNOWN"
        }
    }

    /// The variable's descriptor in its record `owner`.
    pub fn desc<'a>(&self, owner: &'a OleTypeData) -> (r: &'a VarDesc)
        requires
            self.index < owner.variables@.len(),
            owner.variables@[self.index as int] is Ok,
        ensures
            *r == owner.variables@[self.index as int]->Ok_0,
    {
        match &owner.variables[self.index] {
            Ok(v) => v,
            Err(_) => vstd::pervasive::unreached(),
        }
    }

    /// The name of the variable's type in its record `owner`.
    pub fn ole_type(&self, lib: &OleTypeLibData, owner: &OleTypeData) -> (r: String)
        requires
            lib.wf(),
            lib.holds(*owner),
            self.index < owner.variables@.len(),
            owner.variables@[self.index as int] is Ok,
        ensures
            r@ == desc_name(*lib, *owner, owner.variables@[self.index as int]->Ok_0.tdesc),
    {
        let mut scratch: Vec<String> = Vec::new();
        ole_typedesc2val(lib, owner, &self.desc(owner).tdesc, &mut scratch)
    }

    /// The chain of labels of the variable's type in its record `owner`.
    pub fn ole_type_detail(&self, lib: &OleTypeLibData, owner: &OleTypeData) -> (r: Vec<String>)
        requires
            lib.wf(),
            lib.holds(*owner),
            self.index < owner.variables@.len(),
            owner.variables@[self.index as int] is Ok,
        ensures
            texts(r@) == type_detail(*lib, *owner, owner.variables@[self.index as int]->Ok_0.tdesc),
    {
        let mut details: Vec<String> = Vec::new();
        let _ = ole_typedesc2val(lib, owner, &self.desc(owner).tdesc, &mut details);
        proof {
            assert(texts(Seq::<String>::empty()) =~= Seq::<Seq<char>>::empty());
        }
        details
    }
}

/// Whether element `k` of a variable listing stands for entry `k` of `t`:
/// the variable itself, or the status of the failed entry.
pub open spec fn variable_entry(t: OleTypeData, k: int, e: Result<OleVariableData, Error>) -> bool {
    match t.variables@[k] {
        Ok(v) => e matches Ok(d) && d.index == k && d.name@ == v.name@ && d.memid == v.memid
            && d.varkind == v.varkind && d.flags == v.flags && d.help_string@ == v.help_string@
            && d.help_context == v.help_context && d.help_file@ == v.help_file@,
        Err(s) => e matches Err(Error::Windows(h)) && h == s,
    }
}

/// The label of a record classification.
pub open spec fn kind_label(k: TypeKind) -> Seq<char> {
    match k {
        TypeKind::Enum => "Enum"@,
        TypeKind::Record => "Record"@,
        TypeKind::Module => "Module"@,
        TypeKind::Interface => "Interface"@,
        TypeKind::Dispatch => "Dispatch"@,
        TypeKind::Coclass => "Class"@,
        TypeKind::Alias => "Alias"@,
        TypeKind::Union => "Union"@,
    }
}

impl OleTypeData {
    pub fn name(&self) -> (r: &str)
        ensures
            r@ == self.name@,
    {
        self.name.as_str()
    }

    /// The record's name, help string, help context and help file.
    pub fn get_documentation(&self) -> (r: (String, String, u32, String))
        ensures
            r.0@ == self.name@,
            r.1@ == self.help_string@,
            r.2 == self.help_context,
            r.3@ == self.help_file@,
    {
        (self.name.clone(), self.help_string.clone(), self.help_context, self.help_file.clone())
    }

    pub fn helpstring(&self) -> (r: &str)
        ensures
            r@ == self.help_string@,
    {
        self.help_string.as_str()
    }

    pub fn helpfile(&self) -> (r: &str)
        ensures
            r@ == self.help_file@,
    {
        self.help_file.as_str()
    }

    pub fn helpcontext(&self) -> (r: u32)
        ensures
            r == self.help_context,
    {
        self.help_context
    }

    pub fn typekind(&self) -> (r: TypeKind)
        ensures
            r == self.kind,
    {
        self.kind
    }

    pub fn guid(&self) -> (r: Guid)
        ensures
            r == self.guid,
    {
        self.guid
    }

    pub fn major_version(&self) -> (r: u16)
        ensures
            r == self.major_version,
    {
        self.major_version
    }

    pub fn minor_version(&self) -> (r: u16)
        ensures
            r == self.minor_version,
    {
        self.minor_version
    }

    pub fn num_funcs(&self) -> (r: usize)
        ensures
            r == self.functions@.len(),
    {
        self.functions.len()
    }

    pub fn num_variables(&self) -> (r: usize)
        ensures
            r == self.variables@.len(),
    {
        self.variables.len()
    }

    pub fn num_impl_types(&self) -> (r: usize)
        ensures
            r == self.impl_types@.len(),
    {
        self.impl_types.len()
    }

    /// The label of the record's classification.
    pub fn ole_type(&self) -> (r: &'static str)
        ensures
            r@ == kind_label(self.kind),
    {
        match self.kind {
            TypeKind::Enum => "Enum",
            TypeKind::Record => "Record",
            TypeKind::Module => "Module",
            TypeKind::Interface => "Interface",
            TypeKind::Dispatch => "Dispatch",
            TypeKind::Coclass => "Class",
            TypeKind::Alias => "Alias",
            TypeKind::Union => "Union",
        }
    }

    /// Whether the record is neither hidden nor restricted.
    pub fn visible(&self) -> (r: bool)
        ensures
            r == ((self.type_flags & (TYPEFLAG_FHIDDEN | TYPEFLAG_FRESTRICTED)) == 0),
    {
        (self.type_flags & (TYPEFLAG_FHIDDEN | TYPEFLAG_FRESTRICTED)) == 0
    }

    /// The name of the aliased type, for an alias only.
    pub fn src_type(&self, lib: &OleTypeLibData) -> (r: Option<String>)
        requires
            lib.wf(),
            lib.holds(*self),
        ensures
            self.kind == TypeKind::Alias ==> (r matches Some(n) && n@ == desc_name(
                *lib,
                *self,
                self.alias,
            )),
            self.kind != TypeKind::Alias ==> r is None,
    {
        if self.kind != TypeKind::Alias {
            return None;
        }
        let mut scratch: Vec<String> = Vec::new();
        Some(ole_typedesc2val(lib, self, &self.alias, &mut scratch))
    }

    /// One result per declared variable, in declaration order: a variable
    /// whose descriptor could not be read gives an error in its place.
    pub fn variables(&self) -> (r: Vec<Result<OleVariableData, Error>>)
        ensures
            r@.len() == self.variables@.len(),
            forall|k: int| 0 <= k < r@.len() ==> variable_entry(*self, k, #[trigger] r@[k]),
    {
        let vars = &self.variables;
        let mut out: Vec<Result<OleVariableData, Error>> = Vec::new();
        let mut k: usize = 0;
        while k < vars.len()
            invariant
                k <= vars@.len(),
                vars@ == self.variables@,
                out@.len() == k,
                forall|i: int| 0 <= i < out@.len() ==> variable_entry(*self, i, #[trigger] out@[i]),
            decreases vars@.len() - k,
        {
            match &vars[k] {
                Ok(v) => {
                    out.push(
                        Ok(
                            OleVariableData {
                                index: k,
                                name: v.name.clone(),
                                help_string: v.help_string.clone(),
                                help_context: v.help_context,
                                help_file: v.help_file.clone(),
                                memid: v.memid,
                                varkind: v.varkind,
                                flags: v.flags,
                            },
                        ),
                    );
                },
                Err(s) => {
                    out.push(Err(Error::Windows(*s)));
                },
            }
            k = k + 1;
        }
        out
    }
}

} // verus!
