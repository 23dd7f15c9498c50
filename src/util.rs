//! Small helpers: version strings, wide strings for the platform, and the
//! per-thread runtime initialization decision.
use vstd::prelude::*;
use crate::error::Error;

verus! {

/// Whether `c` is one of the ASCII digits `0`..`9`.
pub fn isdigit(c: char) -> (r: bool)
    ensures
        r == ('0' <= c && c <= '9'),
{
    '0' <= c && c <= '9'
}

/// The version key `major.minor`, or `major` alone when there is no minor
/// part; nothing without a major part.
pub fn make_version_str(major: &str, minor: &str) -> (r: Option<String>)
    ensures
        major@.len() == 0 ==> r is None,
        major@.len() > 0 && minor@.len() == 0 ==> (r matches Some(v) && v@ == major@),
        major@.len() > 0 && minor@.len() > 0 ==> (r matches Some(v) && v@ == major@ + "."@
            + minor@),
{
    if major.is_empty() {
        return None;
    }
    let mut version_str = major.to_owned();
    if !minor.is_empty() {
        version_str.append(".");
        version_str.append(minor);
    }
    Some(version_str)
}

/// The UTF-16 code units of one character.
pub open spec fn utf16_units(c: char) -> Seq<u16> {
    let v = c as u32;
    if v < 0x10000 {
        seq![v as u16]
    } else {
        let w = (v - 0x10000) as u32;
        seq![(0xD800 + w / 0x400) as u16, (0xDC00 + w % 0x400) as u16]
    }
}

/// The UTF-16 encoding of a text.
pub open spec fn utf16(s: Seq<char>) -> Seq<u16>
    decreases s.len(),
{
    if s.len() == 0 {
        Seq::empty()
    } else {
        utf16(s.drop_last()) + utf16_units(s.last())
    }
}

fn push_units(out: &mut Vec<u16>, c: char)
    ensures
        final(out)@ == old(out)@ + utf16_units(c),
{
    let v = c as u32;
    if v < 0x10000 {
        out.push(v as u16);
        assert(final(out)@ =~= old(out)@ + utf16_units(c));
    } else {
        let w: u32 = v - 0x10000;
        assert(w / 0x400 < 0x400) by (nonlinear_arith)
            requires
                w <= 0x10FFFF - 0x10000,
        ;
        out.push((0xD800 + w / 0x400) as u16);
        out.push((0xDC00 + w % 0x400) as u16);
        assert(final(out)@ =~= old(out)@ + utf16_units(c));
    }
}

/// Conversion of text to the platform's wide strings.
pub trait ToWide: View<V = Seq<char>> {
    /// The UTF-16 code units of the text.
    fn to_wide(&self) -> (r: Vec<u16>)
        ensures
            r@ == utf16(self@),
    ;

    /// The UTF-16 code units of the text, then a terminating zero.
    fn to_wide_null(&self) -> (r: Vec<u16>)
        ensures
            r@ == utf16(self@).push(0),
    ;
}

impl ToWide for str {
    fn to_wide(&self) -> (r: Vec<u16>) {
        let n = self.unicode_len();
        let mut out: Vec<u16> = Vec::new();
        let mut i: usize = 0;
        while i < n
            invariant
                i <= n,
                n == self@.len(),
                out@ == utf16(self@.subrange(0, i as int)),
            decreases n - i,
        {
            let c = self.get_char(i);
            push_units(&mut out, c);
            proof {
                let next = self@.subrange(0, i + 1);
                assert(next.drop_last() =~= self@.subrange(0, i as int));
                assert(next.last() == c);
            }
            i = i + 1;
        }
        assert(self@.subrange(0, n as int) =~= self@);
        out
    }

    fn to_wide_null(&self) -> (r: Vec<u16>) {
        let mut out = self.to_wide();
        out.push(0);
        out
    }
}

/// The wide string that the platform takes: the text's code units and a
/// terminating zero. A text holding a zero unit cannot be passed.
pub fn to_u16s(s: &str) -> (r: Result<Vec<u16>, Error>)
    ensures
        utf16(s@).contains(0) ==> r is Err,
        !utf16(s@).contains(0) ==> (r matches Ok(v) && v@ == utf16(s@).push(0)),
{
    let units = s.to_wide();
    let mut k: usize = 0;
    while k < units.len()
        invariant
            k <= units@.len(),
            units@ == utf16(s@),
            forall|j: int| 0 <= j < k ==> units@[j] != 0,
        decreases units@.len() - k,
    {
        if units[k] == 0 {
            return Err(Error::Custom(String::from_str("strings passed to WinAPI cannot contain NULs")));
        }
        k = k + 1;
    }
    let mut out = units;
    out.push(0);
    Ok(out)
}

/// What the current thread must do before its first runtime call.
#[derive(PartialEq, Eq, Structural, Clone, Copy, Debug)]
pub enum ComInitAction {
    /// The thread is initialized already.
    Nothing,
    /// Initialize the single-threaded OLE apartment.
    OleInitialize,
    /// Join the multithreaded apartment (where OLE is not available).
    CoInitializeMultithreaded,
}

/// Whether the runtime has been initialized on a thread.
#[derive(Debug)]
pub struct ComApartment {
    pub initialized: bool,
}

/// Decides the runtime initialization of the current thread: once per
/// thread, and never again after that.
pub fn ole_initialized(state: &mut ComApartment, nano_server: bool) -> (r: ComInitAction)
    ensures
        final(state).initialized,
        old(state).initialized ==> r == ComInitAction::Nothing,
        !old(state).initialized ==> r == (if nano_server {
            ComInitAction::CoInitializeMultithreaded
        } else {
            ComInitAction::OleInitialize
        }),
{
    if state.initialized {
        ComInitAction::Nothing
    } else {
        state.initialized = true;
        if nano_server {
            ComInitAction::CoInitializeMultithreaded
        } else {
            ComInitAction::OleInitialize
        }
    }
}

/// The index that follows `id`, from dimension `i` on, in a safe array
/// whose dimension `k` runs from `lb[k]` to `ub[k]`: the first dimension
/// turns fastest, and a dimension that passes its upper bound restarts at
/// its lower bound and carries into the next. `None` after the last index.
pub open spec fn next_index(id: Seq<i32>, lb: Seq<i32>, ub: Seq<i32>, i: int) -> Option<Seq<i32>>
    decreases id.len() - i,
{
    if i < 0 || i >= id.len() {
        None
    } else if id[i] < ub[i] {
        Some(id.update(i, (id[i] + 1) as i32))
    } else {
        next_index(id.update(i, lb[i]), lb, ub, i + 1)
    }
}

/// Moves `id` to the next index of a safe array with bounds `lb` and `ub`
/// per dimension. After the last index every dimension is back at its lower
/// bound and the result is `false`.
pub fn ary_next_index(id: &mut Vec<i32>, lb: &Vec<i32>, ub: &Vec<i32>) -> (r: bool)
    requires
        old(id)@.len() == lb@.len(),
        lb@.len() == ub@.len(),
    ensures
        match next_index(old(id)@, lb@, ub@, 0) {
            Some(n) => r && final(id)@ == n,
            None => !r && final(id)@ == lb@,
        },
{
    let ghost start = id@;
    let mut i: usize = 0;
    while i < id.len()
        invariant
            id@.len() == lb@.len(),
            lb@.len() == ub@.len(),
            start == old(id)@,
            start.len() == id@.len(),
            i <= id@.len(),
            forall|k: int| 0 <= k < i ==> id@[k] == lb@[k],
            forall|k: int| i <= k < id@.len() ==> id@[k] == start[k],
            next_index(start, lb@, ub@, 0) == next_index(id@, lb@, ub@, i as int),
        decreases id@.len() - i,
    {
        if id[i] < ub[i] {
            let v = id[i] + 1;
            let ghost before = id@;
            assert(next_index(before, lb@, ub@, i as int) == Some(before.update(i as int, v)));
            id.set(i, v);
            assert(id@ == before.update(i as int, v));
            return true;
        }
        let low = lb[i];
        id.set(i, low);
        i = i + 1;
    }
    assert(id@ =~= lb@);
    false
}

} // verus!
