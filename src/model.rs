//! Plain-value model of a loaded type library.
//!
//! A library is an arena of type records. Every relation between records (a
//! user-defined type reference, an implemented interface, the companion of a
//! dual interface) is an index into that arena, never an owning pointer.
use vstd::prelude::*;

verus! {

pub const VT_EMPTY: u16 = 0;
pub const VT_NULL: u16 = 1;
pub const VT_I2: u16 = 2;
pub const VT_I4: u16 = 3;
pub const VT_R4: u16 = 4;
pub const VT_R8: u16 = 5;
pub const VT_CY: u16 = 6;
pub const VT_DATE: u16 = 7;
pub const VT_BSTR: u16 = 8;
pub const VT_DISPATCH: u16 = 9;
pub const VT_ERROR: u16 = 10;
pub const VT_BOOL: u16 = 11;
pub const VT_VARIANT: u16 = 12;
pub const VT_UNKNOWN: u16 = 13;
pub const VT_DECIMAL: u16 = 14;
pub const VT_I1: u16 = 16;
pub const VT_UI1: u16 = 17;
pub const VT_UI2: u16 = 18;
pub const VT_UI4: u16 = 19;
pub const VT_I8: u16 = 20;
pub const VT_UI8: u16 = 21;
pub const VT_INT: u16 = 22;
pub const VT_UINT: u16 = 23;
pub const VT_VOID: u16 = 24;
pub const VT_HRESULT: u16 = 25;
pub const VT_PTR: u16 = 26;
pub const VT_SAFEARRAY: u16 = 27;
pub const VT_CARRAY: u16 = 28;
pub const VT_USERDEFINED: u16 = 29;
pub const VT_LPSTR: u16 = 30;
pub const VT_LPWSTR: u16 = 31;
pub const VT_RECORD: u16 = 36;
pub const VT_ARRAY: u16 = 0x2000;
pub const VT_BYREF: u16 = 0x4000;

pub const PARAMFLAG_NONE: u16 = 0;
pub const PARAMFLAG_FIN: u16 = 1;
pub const PARAMFLAG_FOUT: u16 = 2;
pub const PARAMFLAG_FLCID: u16 = 4;
pub const PARAMFLAG_FRETVAL: u16 = 8;
pub const PARAMFLAG_FOPT: u16 = 16;

pub const IMPLTYPEFLAG_NONE: u32 = 0;
pub const IMPLTYPEFLAG_FDEFAULT: u32 = 1;
pub const IMPLTYPEFLAG_FSOURCE: u32 = 2;
pub const IMPLTYPEFLAG_FRESTRICTED: u32 = 4;

pub const INVOKE_FUNC: u32 = 1;
pub const INVOKE_PROPERTYGET: u32 = 2;
pub const INVOKE_PROPERTYPUT: u32 = 4;
pub const INVOKE_PROPERTYPUTREF: u32 = 8;
pub const INVOKE_ALL: u32 = 15;

pub const FUNC_VIRTUAL: u32 = 0;
pub const FUNC_PUREVIRTUAL: u32 = 1;
pub const FUNC_NONVIRTUAL: u32 = 2;
pub const FUNC_STATIC: u32 = 3;
pub const FUNC_DISPATCH: u32 = 4;

pub const VAR_PERINSTANCE: u32 = 0;
pub const VAR_STATIC: u32 = 1;
pub const VAR_CONST: u32 = 2;
pub const VAR_DISPATCH: u32 = 3;

pub const TYPEFLAG_FHIDDEN: u16 = 0x10;
pub const TYPEFLAG_FRESTRICTED: u16 = 0x200;
pub const VARFLAG_FHIDDEN: u16 = 0x40;
pub const VARFLAG_FRESTRICTED: u16 = 0x80;
pub const VARFLAG_FNONBROWSABLE: u16 = 0x400;

/// Status returned when a referenced library cannot be loaded.
pub const TYPE_E_CANTLOADLIBRARY: i32 = -2147312566;
/// Status returned when a looked-up element does not exist.
pub const TYPE_E_ELEMENTNOTFOUND: i32 = -2147319765;

/// The shape of a value: a tag with its payload.
#[derive(Debug)]
pub enum TypeDesc {
    /// A tag that carries no payload (an integer, a string handle, ...).
    Base(u16),
    /// Pointer to the inner type.
    Ptr(Box<TypeDesc>),
    /// Safe-array of the inner type.
    SafeArray(Box<TypeDesc>),
    /// Fixed array of the element type; one element count per dimension,
    /// in declaration order.
    CArray(Box<TypeDesc>, Vec<u32>),
    /// Reference to another type record, through the originating record's
    /// reference table.
    UserDefined(u32),
}

impl TypeDesc {
    /// The tag code of the outermost level.
    pub open spec fn vt(&self) -> u16 {
        match self {
            TypeDesc::Base(vt) => *vt,
            TypeDesc::Ptr(_) => VT_PTR,
            TypeDesc::SafeArray(_) => VT_SAFEARRAY,
            TypeDesc::CArray(_, _) => VT_CARRAY,
            TypeDesc::UserDefined(_) => VT_USERDEFINED,
        }
    }

    /// The tag code of the outermost level.
    pub fn vartype(&self) -> (r: u16)
        ensures
            r == self.vt(),
    {
        match self {
            TypeDesc::Base(vt) => *vt,
            TypeDesc::Ptr(_) => VT_PTR,
            TypeDesc::SafeArray(_) => VT_SAFEARRAY,
            TypeDesc::CArray(_, _) => VT_CARRAY,
            TypeDesc::UserDefined(_) => VT_USERDEFINED,
        }
    }
}

/// Classification of a type record.
#[derive(PartialEq, Eq, Structural, Clone, Copy, Debug)]
pub enum TypeKind {
    Enum,
    Record,
    Module,
    Interface,
    Dispatch,
    Coclass,
    Alias,
    Union,
}

/// A globally unique identifier, in its four platform fields.
#[derive(Clone, Copy, Debug)]
pub struct Guid {
    pub data1: u32,
    pub data2: u16,
    pub data3: u16,
    pub data4: [u8; 8],
}

/// One entry of a record's reference table: the handle found in a type
/// descriptor, and the arena slot it leads to or the status of the failed
/// lookup (a referenced library that cannot be loaded, for instance).
#[derive(Debug)]
pub struct RefEntry {
    pub href: u32,
    pub target: Result<usize, i32>,
}

/// One entry of a record's implemented-type table.
#[derive(Debug)]
pub struct ImplType {
    pub flags: u32,
    pub href: u32,
}

/// A parameter as the function descriptor declares it.
#[derive(Debug)]
pub struct ParamDesc {
    pub tdesc: TypeDesc,
    pub flags: u16,
}

/// A function descriptor of a record.
#[derive(Debug)]
pub struct FuncDesc {
    /// The member's name, from its documentation.
    pub name: String,
    pub help_string: String,
    pub help_context: u32,
    pub help_file: String,
    pub memid: i32,
    pub funckind: u32,
    pub invkind: u32,
    pub params: Vec<ParamDesc>,
    /// The name list as the platform returns it: the member's own name in
    /// slot 0, then one name per parameter.
    pub names: Vec<String>,
    pub opt_params: i16,
    pub ret: TypeDesc,
    pub vft_offset: i16,
}

/// A constant value of an enumeration member or a default value.
#[derive(Debug)]
pub enum ConstValue {
    I2(i16),
    I4(i32),
    UI1(u8),
    UI2(u16),
    UI4(u32),
    Bool(bool),
    Str(String),
    Other(u16),
}

/// A variable descriptor of a record: a field, a static, a constant.
#[derive(Debug)]
pub struct VarDesc {
    pub name: String,
    pub help_string: String,
    pub help_context: u32,
    pub help_file: String,
    pub memid: i32,
    pub varkind: u32,
    pub flags: u16,
    pub tdesc: TypeDesc,
    pub value: Option<ConstValue>,
}

/// One type record of a library, with the attribute block that the
/// platform hands out for it.
#[derive(Debug)]
pub struct OleTypeData {
    pub name: String,
    pub help_string: String,
    pub help_context: u32,
    pub help_file: String,
    pub kind: TypeKind,
    pub guid: Guid,
    pub major_version: u16,
    pub minor_version: u16,
    pub type_flags: u16,
    pub size_instance: u32,
    pub alignment: u16,
    pub size_vft: u16,
    /// The aliased type; meaningful for an alias only.
    pub alias: TypeDesc,
    pub functions: Vec<Result<FuncDesc, i32>>,
    pub variables: Vec<Result<VarDesc, i32>>,
    pub impl_types: Vec<Result<ImplType, i32>>,
    pub refs: Vec<RefEntry>,
    /// The interface half of a dual interface, or the status of the lookup.
    pub dual: Result<usize, i32>,
}

/// A loaded type library: its attributes, the arena of every record that
/// its records reach (its own and those of the libraries it references),
/// and its ordered entries, each an arena slot or the status of a record
/// that failed to load.
#[derive(Debug)]
pub struct OleTypeLibData {
    /// The library's description (its help string), by which it is listed.
    pub name: String,
    /// The library's own name.
    pub library_name: String,
    pub guid: Guid,
    pub major_version: u16,
    pub minor_version: u16,
    pub lcid: u32,
    pub syskind: u32,
    pub lib_flags: u16,
    pub records: Vec<OleTypeData>,
    pub entries: Vec<Result<usize, i32>>,
}

/// A slot, where there is one, lies in an arena of `n` records.
pub open spec fn slot_in(r: Result<usize, i32>, n: int) -> bool {
    match r {
        Ok(t) => t < n,
        Err(_) => true,
    }
}

/// Every slot that a reference table names lies in the arena.
pub open spec fn refs_in_arena(refs: Seq<RefEntry>, n: int) -> bool {
    forall|k: int| 0 <= k < refs.len() ==> slot_in((#[trigger] refs[k]).target, n)
}

impl OleTypeData {
    /// Every arena slot that the record names lies in an arena of `n` records.
    pub open spec fn fits(&self, n: int) -> bool {
        &&& refs_in_arena(self.refs@, n)
        &&& slot_in(self.dual, n)
    }

    /// Resolves a reference handle found in one of this record's type
    /// descriptors to the arena slot of the record that it names.
    pub fn get_ref_type_info(&self, ref_type: u32) -> (r: Result<usize, i32>)
        ensures
            r == ref_lookup(self.refs@, ref_type),
            forall|n: int| self.fits(n) ==> slot_in(r, n),
    {
        let refs = &self.refs;
        proof {
            assert forall|n: int| self.fits(n) implies slot_in(ref_lookup(refs@, ref_type), n) by {
                lemma_ref_lookup_in_arena(refs@, ref_type, 0, n);
            }
        }
        let mut k: usize = 0;
        while k < refs.len()
            invariant
                k <= refs@.len(),
                refs@ == self.refs@,
                ref_lookup_from(refs@, ref_type, k as int) == ref_lookup_from(refs@, ref_type, 0),
            decreases refs@.len() - k,
        {
            if refs[k].href == ref_type {
                assert(ref_lookup_from(refs@, ref_type, k as int) == refs@[k as int].target);
                return match refs[k].target {
                    Ok(t) => Ok(t),
                    Err(e) => Err(e),
                };
            }
            k = k + 1;
        }
        Err(TYPE_E_ELEMENTNOTFOUND)
    }
}

impl OleTypeLibData {
    /// Every arena index held anywhere in the library is in bounds.
    pub open spec fn wf(&self) -> bool {
        &&& forall|i: int|
            0 <= i < self.entries@.len() ==> slot_in(
                #[trigger] self.entries@[i],
                self.records@.len() as int,
            )
        &&& forall|r: int|
            0 <= r < self.records@.len() ==> (#[trigger] self.records@[r]).fits(
                self.records@.len() as int,
            )
    }

    pub open spec fn has(&self, r: int) -> bool {
        0 <= r < self.records@.len()
    }

    pub open spec fn rec(&self, r: int) -> OleTypeData {
        self.records@[r]
    }

    /// Whether every arena index held anywhere in the library is in bounds.
    pub fn is_well_formed(&self) -> (r: bool)
        ensures
            r == self.wf(),
    {
        let n = self.records.len();
        let mut i: usize = 0;
        while i < self.entries.len()
            invariant
                n == self.records@.len(),
                i <= self.entries@.len(),
                forall|k: int| 0 <= k < i ==> slot_in(#[trigger] self.entries@[k], n as int),
            decreases self.entries@.len() - i,
        {
            match self.entries[i] {
                Ok(t) => {
                    if t >= n {
                        return false;
                    }
                },
                Err(_) => {},
            }
            i = i + 1;
        }
        let mut r: usize = 0;
        while r < n
            invariant
                n == self.records@.len(),
                r <= n,
                forall|k: int| 0 <= k < self.entries@.len() ==> slot_in(#[trigger] self.entries@[k], n as int),
                forall|k: int| 0 <= k < r ==> (#[trigger] self.records@[k]).fits(n as int),
            decreases n - r,
        {
            let rec = &self.records[r];
            match rec.dual {
                Ok(t) => {
                    if t >= n {
                        return false;
                    }
                },
                Err(_) => {},
            }
            let mut k: usize = 0;
            while k < rec.refs.len()
                invariant
                    n == self.records@.len(),
                    r < n,
                    *rec == self.records@[r as int],
                    k <= rec.refs@.len(),
                    forall|j: int| 0 <= j < k ==> slot_in((#[trigger] rec.refs@[j]).target, n as int),
                decreases rec.refs@.len() - k,
            {
                match rec.refs[k].target {
                    Ok(t) => {
                        if t >= n {
                            assert(!slot_in(rec.refs@[k as int].target, n as int));
                            assert(!refs_in_arena(rec.refs@, n as int));
                            assert(!self.records@[r as int].fits(n as int));
                            return false;
                        }
                    },
                    Err(_) => {},
                }
                k = k + 1;
            }
            r = r + 1;
        }
        true
    }

    /// Whether `t` is a record of the arena that fits it.
    pub open spec fn holds(&self, t: OleTypeData) -> bool {
        t.fits(self.records@.len() as int)
    }
}

/// The first entry of `refs` for `href`, looked up from index `k` on.
pub open spec fn ref_lookup_from(refs: Seq<RefEntry>, href: u32, k: int) -> Result<usize, i32>
    decreases refs.len() - k,
{
    if k < 0 || k >= refs.len() {
        Err(TYPE_E_ELEMENTNOTFOUND)
    } else if refs[k].href == href {
        refs[k].target
    } else {
        ref_lookup_from(refs, href, k + 1)
    }
}

/// What a reference handle of a record resolves to.
pub open spec fn ref_lookup(refs: Seq<RefEntry>, href: u32) -> Result<usize, i32> {
    ref_lookup_from(refs, href, 0)
}

proof fn lemma_ref_lookup_in_arena(refs: Seq<RefEntry>, href: u32, k: int, n: int)
    requires
        refs_in_arena(refs, n),
    ensures
        slot_in(ref_lookup_from(refs, href, k), n),
    decreases refs.len() - k,
{
    if k >= 0 && k < refs.len() && refs[k].href != href {
        lemma_ref_lookup_in_arena(refs, href, k + 1, n);
    }
}

} // verus!
