//! Library-level queries: per-entry enumeration, dual-interface companions,
//! and the searches that lead from a record to its coclass and event source.
use vstd::prelude::*;
use crate::error::Error;
use crate::inspect::impl_target;
use crate::model::{
    OleTypeLibData, OleTypeData, TypeKind, Guid, slot_in, TYPE_E_ELEMENTNOTFOUND,
    IMPLTYPEFLAG_FDEFAULT, IMPLTYPEFLAG_FSOURCE,
};

verus! {

/// Status returned when an object or a library has no such interface.
pub const E_NOINTERFACE: i32 = -2147467262;

pub const LIBFLAG_FRESTRICTED: u16 = 1;
pub const LIBFLAG_FHIDDEN: u16 = 4;

/// Whether two identifiers are equal in every field.
pub open spec fn same_guid(a: Guid, b: Guid) -> bool {
    &&& a.data1 == b.data1
    &&& a.data2 == b.data2
    &&& a.data3 == b.data3
    &&& a.data4@ == b.data4@
}

/// Whether two identifiers are equal in every field.
pub fn guid_eq(a: &Guid, b: &Guid) -> (r: bool)
    ensures
        r == same_guid(*a, *b),
{
    if a.data1 != b.data1 || a.data2 != b.data2 || a.data3 != b.data3 {
        return false;
    }
    let mut i: usize = 0;
    while i < 8
        invariant
            i <= 8,
            forall|k: int| 0 <= k < i ==> a.data4@[k] == b.data4@[k],
        decreases 8 - i,
    {
        if a.data4[i] != b.data4[i] {
            return false;
        }
        i = i + 1;
    }
    assert(a.data4@ =~= b.data4@);
    true
}

/// Whether element `k` of an entry listing stands for entry `k`: its arena
/// slot, or the status with which it failed to load.
pub open spec fn entry_result(e: Result<usize, i32>, r: Result<usize, Error>) -> bool {
    match e {
        Ok(t) => r matches Ok(u) && u == t,
        Err(s) => r matches Err(Error::Windows(h)) && h == s,
    }
}

/// The first entry, from `i` on, that loaded and is named `name`.
pub open spec fn entry_named(lib: OleTypeLibData, name: Seq<char>, i: int) -> Option<usize>
    decreases lib.entries@.len() - i,
{
    if i < 0 || i >= lib.entries@.len() {
        None
    } else {
        match lib.entries@[i] {
            Ok(t) => if lib.rec(t as int).name@ == name {
                Some(t)
            } else {
                entry_named(lib, name, i + 1)
            },
            Err(_) => entry_named(lib, name, i + 1),
        }
    }
}

/// The first entry, from `i` on, that loaded and carries identifier `g`.
pub open spec fn entry_with_guid(lib: OleTypeLibData, g: Guid, i: int) -> Option<usize>
    decreases lib.entries@.len() - i,
{
    if i < 0 || i >= lib.entries@.len() {
        None
    } else {
        match lib.entries@[i] {
            Ok(t) => if same_guid(lib.rec(t as int).guid, g) {
                Some(t)
            } else {
                entry_with_guid(lib, g, i + 1)
            },
            Err(_) => entry_with_guid(lib, g, i + 1),
        }
    }
}

/// The first default or source-flagged entry, from `j` on, of a record's
/// implemented-type table that resolves.
pub open spec fn first_impl(t: OleTypeData, flags: u32, j: int) -> Option<usize>
    decreases t.impl_types@.len() - j,
{
    if j < 0 || j >= t.impl_types@.len() {
        None
    } else {
        match impl_target(t, j, flags) {
            Some(s) => Some(s),
            None => first_impl(t, flags, j + 1),
        }
    }
}

/// Whether one of `c`'s default entries, from `j` on, leads to a record
/// with identifier `g`.
pub open spec fn default_impl_with_guid(lib: OleTypeLibData, c: OleTypeData, g: Guid, j: int) -> bool
    decreases c.impl_types@.len() - j,
{
    if j < 0 || j >= c.impl_types@.len() {
        false
    } else {
        (impl_target(c, j, IMPLTYPEFLAG_FDEFAULT) matches Some(s) && same_guid(
            lib.rec(s as int).guid,
            g,
        )) || default_impl_with_guid(lib, c, g, j + 1)
    }
}

/// The first coclass entry, from `i` on, with a default interface that has
/// identifier `g`.
pub open spec fn coclass_of(lib: OleTypeLibData, g: Guid, i: int) -> Option<usize>
    decreases lib.entries@.len() - i,
{
    if i < 0 || i >= lib.entries@.len() {
        None
    } else {
        match lib.entries@[i] {
            Ok(t) => if lib.rec(t as int).kind == TypeKind::Coclass && default_impl_with_guid(
                lib,
                lib.rec(t as int),
                g,
                0,
            ) {
                Some(t)
            } else {
                coclass_of(lib, g, i + 1)
            },
            Err(_) => coclass_of(lib, g, i + 1),
        }
    }
}

impl OleTypeLibData {
    /// One result per entry of the library, in index order: a record that
    /// failed to load gives its status in its place, and the others follow.
    pub fn ole_types(&self) -> (r: Vec<Result<usize, Error>>)
        ensures
            r@.len() == self.entries@.len(),
            forall|k: int| 0 <= k < r@.len() ==> entry_result(self.entries@[k], #[trigger] r@[k]),
    {
        let mut out: Vec<Result<usize, Error>> = Vec::new();
        let mut k: usize = 0;
        while k < self.entries.len()
            invariant
                k <= self.entries@.len(),
                out@.len() == k,
                forall|i: int| 0 <= i < out@.len() ==> entry_result(self.entries@[i], #[trigger] out@[i]),
            decreases self.entries@.len() - k,
        {
            match self.entries[k] {
                Ok(t) => out.push(Ok(t)),
                Err(s) => out.push(Err(Error::Windows(s))),
            }
            k = k + 1;
        }
        out
    }

    /// The record at entry `index`: its arena slot, the status with which it
    /// failed to load, or a not-found status past the last entry.
    pub fn get_type_info(&self, index: usize) -> (r: Result<usize, Error>)
        ensures
            index < self.entries@.len() ==> entry_result(self.entries@[index as int], r),
            index >= self.entries@.len() ==> (r matches Err(Error::Windows(h)) && h
                == TYPE_E_ELEMENTNOTFOUND),
    {
        if index >= self.entries.len() {
            return Err(Error::Windows(TYPE_E_ELEMENTNOTFOUND));
        }
        match self.entries[index] {
            Ok(t) => Ok(t),
            Err(s) => Err(Error::Windows(s)),
        }
    }

    /// The name, help string, help context and help file of the record at
    /// entry `index`, or why there is none.
    pub fn get_documentation(&self, index: usize) -> (r: Result<(String, String, u32, String), Error>)
        requires
            self.wf(),
        ensures
            index < self.entries@.len() ==> match self.entries@[index as int] {
                Ok(t) => r matches Ok(d) && d.0@ == self.rec(t as int).name@ && d.1@ == self.rec(
                    t as int,
                ).help_string@ && d.2 == self.rec(t as int).help_context && d.3@ == self.rec(
                    t as int,
                ).help_file@,
                Err(s) => r matches Err(Error::Windows(h)) && h == s,
            },
            index >= self.entries@.len() ==> (r matches Err(Error::Windows(h)) && h
                == TYPE_E_ELEMENTNOTFOUND),
    {
        let t = self.get_type_info(index)?;
        assert(slot_in(self.entries@[index as int], self.records@.len() as int));
        Ok(self.records[t].get_documentation())
    }

    pub fn num_type_entries(&self) -> (r: usize)
        ensures
            r == self.entries@.len(),
    {
        self.entries.len()
    }

    pub fn name(&self) -> (r: &str)
        ensures
            r@ == self.name@,
    {
        self.name.as_str()
    }

    pub fn library_name(&self) -> (r: &str)
        ensures
            r@ == self.library_name@,
    {
        self.library_name.as_str()
    }

    pub fn guid(&self) -> (r: Guid)
        ensures
            r == self.guid,
    {
        self.guid
    }

    pub fn major_version(&self) -> (r: u16)
        ensures
            r == self.major_version,
    {
        self.major_version
    }

    pub fn minor_version(&self) -> (r: u16)
        ensures
            r == self.minor_version,
    {
        self.minor_version
    }

    pub fn lcid(&self) -> (r: u32)
        ensures
            r == self.lcid,
    {
        self.lcid
    }

    pub fn syskind(&self) -> (r: u32)
        ensures
            r == self.syskind,
    {
        self.syskind
    }

    pub fn lib_flags(&self) -> (r: u16)
        ensures
            r == self.lib_flags,
    {
        self.lib_flags
    }

    /// Whether the library is neither hidden nor restricted.
    pub fn visible(&self) -> (r: bool)
        ensures
            r == ((self.lib_flags & (LIBFLAG_FRESTRICTED | LIBFLAG_FHIDDEN)) == 0),
    {
        (self.lib_flags & (LIBFLAG_FRESTRICTED | LIBFLAG_FHIDDEN)) == 0
    }
}

/// The record of the library named `oleclass`, if one loaded.
pub fn oleclass_from_typelib(lib: &OleTypeLibData, oleclass: &str) -> (r: Option<usize>)
    requires
        lib.wf(),
    ensures
        r == entry_named(*lib, oleclass@, 0),
        r matches Some(t) ==> lib.has(t as int),
{
    let target = oleclass.to_owned();
    let mut i: usize = 0;
    while i < lib.entries.len()
        invariant
            i <= lib.entries@.len(),
            lib.wf(),
            target@ == oleclass@,
            entry_named(*lib, oleclass@, i as int) == entry_named(*lib, oleclass@, 0),
        decreases lib.entries@.len() - i,
    {
        match lib.entries[i] {
            Ok(t) => {
                assert(slot_in(lib.entries@[i as int], lib.records@.len() as int));
                if lib.records[t].name == target {
                    return Some(t);
                }
            },
            Err(_) => {},
        }
        i = i + 1;
    }
    None
}

impl OleTypeData {
    /// The interface half of a dual dispatch interface. A record without one
    /// gives `None`; a lookup that failed otherwise gives its status.
    pub fn get_interface_of_dispinterface(&self) -> (r: Result<Option<usize>, Error>)
        ensures
            match self.dual {
                Ok(t) => r matches Ok(Some(u)) && u == t,
                Err(s) => if s == TYPE_E_ELEMENTNOTFOUND {
                    r matches Ok(None)
                } else {
                    r matches Err(Error::Windows(h)) && h == s
                },
            },
    {
        match self.dual {
            Ok(t) => Ok(Some(t)),
            Err(s) => {
                if s == TYPE_E_ELEMENTNOTFOUND {
                    Ok(None)
                } else {
                    Err(Error::Windows(s))
                }
            },
        }
    }
}

/// The first implemented type of `t` whose entry holds every flag of
/// `flags` and resolves.
fn first_impl_with(lib: &OleTypeLibData, t: &OleTypeData, flags: u32) -> (r: Option<usize>)
    requires
        lib.holds(*t),
    ensures
        r == first_impl(*t, flags, 0),
        r matches Some(s) ==> lib.has(s as int),
{
    let impls = &t.impl_types;
    let mut j: usize = 0;
    while j < impls.len()
        invariant
            j <= impls@.len(),
            impls@ == t.impl_types@,
            lib.holds(*t),
            first_impl(*t, flags, j as int) == first_impl(*t, flags, 0),
        decreases impls@.len() - j,
    {
        match &impls[j] {
            Ok(it) => {
                if (it.flags & flags) == flags {
                    match t.get_ref_type_info(it.href) {
                        Ok(s) => {
                            return Some(s);
                        },
                        Err(_) => {},
                    }
                }
            },
            Err(_) => {},
        }
        j = j + 1;
    }
    None
}

/// The default source interface that record `rec` itself implements.
pub fn find_default_source_from_typeinfo(lib: &OleTypeLibData, rec: usize) -> (r: Result<
    usize,
    Error,
>)
    requires
        lib.wf(),
        lib.has(rec as int),
    ensures
        match first_impl(lib.rec(rec as int), IMPLTYPEFLAG_FDEFAULT | IMPLTYPEFLAG_FSOURCE, 0) {
            Some(s) => r matches Ok(u) && u == s,
            None => r matches Err(Error::Windows(h)) && h == TYPE_E_ELEMENTNOTFOUND,
        },
        r matches Ok(s) ==> lib.has(s as int),
{
    match first_impl_with(lib, &lib.records[rec], IMPLTYPEFLAG_FDEFAULT | IMPLTYPEFLAG_FSOURCE) {
        Some(s) => Ok(s),
        None => Err(Error::Windows(TYPE_E_ELEMENTNOTFOUND)),
    }
}

/// The coclass of the library whose default interface has the identifier
/// of record `rec`.
pub fn find_coclass(lib: &OleTypeLibData, rec: usize) -> (r: Result<usize, Error>)
    requires
        lib.wf(),
        lib.has(rec as int),
    ensures
        match coclass_of(*lib, lib.rec(rec as int).guid, 0) {
            Some(c) => r matches Ok(u) && u == c,
            None => r matches Err(Error::Windows(h)) && h == E_NOINTERFACE,
        },
        r matches Ok(c) ==> lib.has(c as int),
{
    let g = lib.records[rec].guid;
    let mut i: usize = 0;
    while i < lib.entries.len()
        invariant
            i <= lib.entries@.len(),
            lib.wf(),
            g == lib.rec(rec as int).guid,
            coclass_of(*lib, g, i as int) == coclass_of(*lib, g, 0),
        decreases lib.entries@.len() - i,
    {
        match lib.entries[i] {
            Ok(t) => {
                assert(slot_in(lib.entries@[i as int], lib.records@.len() as int));
                let c = &lib.records[t];
                if c.kind == TypeKind::Coclass {
                    assert(lib.holds(*c));
                    let impls = &c.impl_types;
                    let mut j: usize = 0;
                    while j < impls.len()
                        invariant
                            j <= impls@.len(),
                            impls@ == c.impl_types@,
                            lib.wf(),
                            lib.holds(*c),
                            i < lib.entries@.len(),
                            lib.entries@[i as int] == Ok::<usize, i32>(t),
                            lib.has(t as int),
                            *c == lib.rec(t as int),
                            c.kind == TypeKind::Coclass,
                            g == lib.rec(rec as int).guid,
                            coclass_of(*lib, g, i as int) == coclass_of(*lib, g, 0),
                            default_impl_with_guid(*lib, *c, g, j as int) == default_impl_with_guid(
                                *lib,
                                *c,
                                g,
                                0,
                            ),
                        decreases impls@.len() - j,
                    {
                        match &impls[j] {
                            Ok(it) => {
                                if (it.flags & IMPLTYPEFLAG_FDEFAULT) == IMPLTYPEFLAG_FDEFAULT {
                                    match c.get_ref_type_info(it.href) {
                                        Ok(s) => {
                                            if guid_eq(&lib.records[s].guid, &g) {
                                                assert(default_impl_with_guid(
                                                    *lib,
                                                    *c,
                                                    g,
                                                    j as int,
                                                ));
                                                return Ok(t);
                                            }
                                        },
                                        Err(_) => {},
                                    }
                                }
                            },
                            Err(_) => {},
                        }
                        j = j + 1;
                    }
                }
            },
            Err(_) => {},
        }
        i = i + 1;
    }
    Err(Error::Windows(E_NOINTERFACE))
}

/// The default source interface of record `rec`: its own, or else that of
/// the coclass whose default interface `rec` is.
pub fn find_default_source(lib: &OleTypeLibData, rec: usize) -> (r: Result<usize, Error>)
    requires
        lib.wf(),
        lib.has(rec as int),
    ensures
        match first_impl(lib.rec(rec as int), IMPLTYPEFLAG_FDEFAULT | IMPLTYPEFLAG_FSOURCE, 0) {
            Some(s) => r matches Ok(u) && u == s,
            None => match coclass_of(*lib, lib.rec(rec as int).guid, 0) {
                Some(c) => match first_impl(
                    lib.rec(c as int),
                    IMPLTYPEFLAG_FDEFAULT | IMPLTYPEFLAG_FSOURCE,
                    0,
                ) {
                    Some(s) => r matches Ok(u) && u == s,
                    None => r is Err,
                },
                None => r is Err,
            },
        },
{
    let own = find_default_source_from_typeinfo(lib, rec);
    if own.is_ok() {
        return own;
    }
    let coclass = find_coclass(lib, rec)?;
    find_default_source_from_typeinfo(lib, coclass)
}

/// What a search for an interface finds: its identifier, when the search
/// went by name, and its record.
#[derive(Debug)]
pub struct GuidInfo {
    pub guid: Option<Guid>,
    pub typeinfo: usize,
}

/// The first implemented type of coclass `c`, from entry `j` on, named
/// `name`.
pub open spec fn impl_named(lib: OleTypeLibData, c: OleTypeData, name: Seq<char>, j: int) -> Option<
    usize,
>
    decreases c.impl_types@.len() - j,
{
    if j < 0 || j >= c.impl_types@.len() {
        None
    } else {
        match impl_target(c, j, 0) {
            Some(s) => if lib.rec(s as int).name@ == name {
                Some(s)
            } else {
                impl_named(lib, c, name, j + 1)
            },
            None => impl_named(lib, c, name, j + 1),
        }
    }
}

/// The first interface named `name` that a coclass entry, from `i` on,
/// implements.
pub open spec fn coclass_interface(lib: OleTypeLibData, name: Seq<char>, i: int) -> Option<usize>
    decreases lib.entries@.len() - i,
{
    if i < 0 || i >= lib.entries@.len() {
        None
    } else {
        match lib.entries@[i] {
            Ok(t) => if lib.rec(t as int).kind == TypeKind::Coclass {
                match impl_named(lib, lib.rec(t as int), name, 0) {
                    Some(s) => Some(s),
                    None => coclass_interface(lib, name, i + 1),
                }
            } else {
                coclass_interface(lib, name, i + 1)
            },
            Err(_) => coclass_interface(lib, name, i + 1),
        }
    }
}

/// The interface of a coclass named `itf`, with its identifier; or, without
/// a name, the record of the library with identifier `iid`.
pub fn find_iid(lib: &OleTypeLibData, itf: Option<&str>, iid: &Guid) -> (r: Result<GuidInfo, Error>)
    requires
        lib.wf(),
    ensures
        match itf {
            None => match entry_with_guid(*lib, *iid, 0) {
                Some(t) => r matches Ok(gi) && gi.guid is None && gi.typeinfo == t,
                None => r matches Err(Error::Windows(h)) && h == TYPE_E_ELEMENTNOTFOUND,
            },
            Some(name) => match coclass_interface(*lib, name@, 0) {
                Some(t) => r matches Ok(gi) && gi.guid == Some(lib.rec(t as int).guid)
                    && gi.typeinfo == t,
                None => r matches Err(Error::Windows(h)) && h == E_NOINTERFACE,
            },
        },
{
    match itf {
        None => {
            let mut i: usize = 0;
            while i < lib.entries.len()
                invariant
                    i <= lib.entries@.len(),
                    lib.wf(),
                    itf is None,
                    entry_with_guid(*lib, *iid, i as int) == entry_with_guid(*lib, *iid, 0),
                decreases lib.entries@.len() - i,
            {
                match lib.entries[i] {
                    Ok(t) => {
                        assert(slot_in(lib.entries@[i as int], lib.records@.len() as int));
                        if guid_eq(&lib.records[t].guid, iid) {
                            return Ok(GuidInfo { guid: None, typeinfo: t });
                        }
                    },
                    Err(_) => {},
                }
                i = i + 1;
            }
            Err(Error::Windows(TYPE_E_ELEMENTNOTFOUND))
        },
        Some(name) => {
            let target = name.to_owned();
            let mut i: usize = 0;
            while i < lib.entries.len()
                invariant
                    i <= lib.entries@.len(),
                    lib.wf(),
                    target@ == name@,
                    itf == Some(name),
                    coclass_interface(*lib, name@, i as int) == coclass_interface(*lib, name@, 0),
                decreases lib.entries@.len() - i,
            {
                match lib.entries[i] {
                    Ok(t) => {
                        assert(slot_in(lib.entries@[i as int], lib.records@.len() as int));
                        let c = &lib.records[t];
                        if c.kind == TypeKind::Coclass {
                            assert(lib.holds(*c));
                            let impls = &c.impl_types;
                            let mut j: usize = 0;
                            while j < impls.len()
                                invariant
                                    j <= impls@.len(),
                                    impls@ == c.impl_types@,
                                    lib.wf(),
                                    lib.holds(*c),
                                    target@ == name@,
                                    itf == Some(name),
                                    i < lib.entries@.len(),
                                    lib.entries@[i as int] == Ok::<usize, i32>(t),
                                    lib.has(t as int),
                                    *c == lib.rec(t as int),
                                    c.kind == TypeKind::Coclass,
                                    coclass_interface(*lib, name@, i as int) == coclass_interface(
                                        *lib,
                                        name@,
                                        0,
                                    ),
                                    impl_named(*lib, *c, name@, j as int) == impl_named(
                                        *lib,
                                        *c,
                                        name@,
                                        0,
                                    ),
                                decreases impls@.len() - j,
                            {
                                match &impls[j] {
                                    Ok(it) => {
                                        if (it.flags & 0) == 0 {
                                            match c.get_ref_type_info(it.href) {
                                                Ok(s) => {
                                                    if lib.records[s].name == target {
                                                        assert(impl_named(
                                                            *lib,
                                                            *c,
                                                            name@,
                                                            j as int,
                                                        ) == Some(s));
                                                        return Ok(
                                                            GuidInfo {
                                                                guid: Some(lib.records[s].guid),
                                                                typeinfo: s,
                                                            },
                                                        );
                                                    }
                                                },
                                                Err(_) => {},
                                            }
                                        }
                                    },
                                    Err(_) => {},
                                }
                                j = j + 1;
                            }
                        }
                    },
                    Err(_) => {},
                }
                i = i + 1;
            }
            Err(Error::Windows(E_NOINTERFACE))
        },
    }
}

} // verus!
