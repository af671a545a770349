//! Little-endian integers and NUL-terminated strings inside byte buffers.
use vstd::bytes::{
    spec_u16_from_le_bytes, spec_u32_from_le_bytes, spec_u64_from_le_bytes, u16_from_le_bytes,
    u32_from_le_bytes, u64_from_le_bytes,
};
use vstd::prelude::*;
use vstd::slice::slice_subrange;

verus! {

/// The 16-bit little-endian integer stored at `off`.
pub open spec fn u16_at(s: Seq<u8>, off: int) -> u16 {
    spec_u16_from_le_bytes(s.subrange(off, off + 2))
}

/// The 32-bit little-endian integer stored at `off`.
pub open spec fn u32_at(s: Seq<u8>, off: int) -> u32 {
    spec_u32_from_le_bytes(s.subrange(off, off + 4))
}

/// The 64-bit little-endian integer stored at `off`.
pub open spec fn u64_at(s: Seq<u8>, off: int) -> u64 {
    spec_u64_from_le_bytes(s.subrange(off, off + 8))
}

pub fn read_u16(b: &[u8], off: usize) -> (r: u16)
    requires
        off + 2 <= b@.len(),
    ensures
        r == u16_at(b@, off as int),
{
    let len: usize = b.len();
    assert(off + 2 <= len);
    u16_from_le_bytes(slice_subrange(b, off, off + 2))
}

pub fn read_u32(b: &[u8], off: usize) -> (r: u32)
    requires
        off + 4 <= b@.len(),
    ensures
        r == u32_at(b@, off as int),
{
    let len: usize = b.len();
    assert(off + 4 <= len);
    u32_from_le_bytes(slice_subrange(b, off, off + 4))
}

pub fn read_u64(b: &[u8], off: usize) -> (r: u64)
    requires
        off + 8 <= b@.len(),
    ensures
        r == u64_at(b@, off as int),
{
    let len: usize = b.len();
    assert(off + 8 <= len);
    u64_from_le_bytes(slice_subrange(b, off, off + 8))
}

/// The index of the first NUL byte at or after `i`, or the length of `s` when
/// there is none.
pub open spec fn terminator_from(s: Seq<u8>, i: int) -> int
    decreases s.len() - i,
{
    if i < 0 || i >= s.len() || s[i] == 0 {
        if i < 0 { 0 } else if i >= s.len() { s.len() as int } else { i }
    } else {
        terminator_from(s, i + 1)
    }
}

/// The string that starts at `off`: its bytes up to the first NUL, or up to the
/// end of `s`. An offset outside `s` gives the empty string.
pub open spec fn c_string_at(s: Seq<u8>, off: int) -> Seq<u8> {
    if 0 <= off < s.len() {
        s.subrange(off, terminator_from(s, off))
    } else {
        Seq::empty()
    }
}

pub proof fn lemma_terminator_from(s: Seq<u8>, i: int)
    requires
        0 <= i <= s.len(),
    ensures
        i <= terminator_from(s, i) <= s.len(),
        terminator_from(s, i) < s.len() ==> s[terminator_from(s, i)] == 0,
        forall|j: int| i <= j < terminator_from(s, i) ==> s[j] != 0,
    decreases s.len() - i,
{
    if i < s.len() && s[i] != 0 {
        lemma_terminator_from(s, i + 1);
    }
}

/// Copies the string that starts at `off` (see `c_string_at`).
pub fn string_at(s: &[u8], off: u64) -> (r: Vec<u8>)
    ensures
        r@ == c_string_at(s@, off as int),
{
    let mut r: Vec<u8> = Vec::new();
    if off >= s.len() as u64 {
        return r;
    }
    let start = off as usize;
    let mut i: usize = start;
    while i < s.len() && s[i] != 0
        invariant
            start <= i <= s@.len(),
            start < s@.len(),
            r@ == s@.subrange(start as int, i as int),
            terminator_from(s@, start as int) == terminator_from(s@, i as int),
        decreases s@.len() - i,
    {
        r.push(s[i]);
        i = i + 1;
        assert(r@ =~= s@.subrange(start as int, i as int));
    }
    r
}

} // verus!
