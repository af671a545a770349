//! The system linker cache: a binary index from library names to paths.
use crate::bytes::{c_string_at, read_u32, string_at, u32_at};
use vstd::prelude::*;

verus! {

/// Where the entry count is stored, after the magic and the version.
pub const CACHE_COUNT_OFFSET: usize = 20;

/// The size of the header that precedes the entries: the magic
/// `glibc-ld.so.cache`, the version `1.1`, the entry count, the size of the
/// string table, then reserved bytes.
pub const CACHE_HEADER_SIZE: usize = 48;

/// The size of one entry: flags, key, value, OS version and hardware
/// capabilities.
pub const CACHE_ENTRY_SIZE: usize = 24;

/// Why a cache file could not be read.
#[derive(Clone, Copy, Debug, PartialEq, Eq)]
pub enum CacheError {
    /// The file ends before the header or before the entries it announces.
    Truncated,
}

/// Library names with the absolute paths that the cache gives for them, in the
/// order of the cache file.
#[derive(Clone, Debug)]
pub struct LibraryCache {
    cache: Vec<(Vec<u8>, Vec<u8>)>,
}

pub open spec fn cache_entry_count(s: Seq<u8>) -> int {
    u32_at(s, CACHE_COUNT_OFFSET as int) as int
}

pub open spec fn cache_entries_in_file(s: Seq<u8>) -> bool {
    &&& s.len() >= CACHE_HEADER_SIZE
    &&& CACHE_HEADER_SIZE + CACHE_ENTRY_SIZE * cache_entry_count(s) <= s.len()
}

/// The `(key, value)` strings of entry `i`: each is read at the offset that the
/// entry gives, from the start of the file.
pub open spec fn cache_entry_at(s: Seq<u8>, i: int) -> (Seq<u8>, Seq<u8>) {
    let off = CACHE_HEADER_SIZE + CACHE_ENTRY_SIZE * i;
    (c_string_at(s, u32_at(s, off + 4) as int), c_string_at(s, u32_at(s, off + 8) as int))
}

pub open spec fn cache_entries_of(s: Seq<u8>) -> Seq<(Seq<u8>, Seq<u8>)> {
    Seq::new(cache_entry_count(s) as nat, |i: int| cache_entry_at(s, i))
}

/// The paths recorded for `key` among the first `k` entries, in order.
pub open spec fn paths_upto(entries: Seq<(Seq<u8>, Seq<u8>)>, key: Seq<u8>, k: int) -> Seq<Seq<u8>>
    decreases k,
{
    if k <= 0 {
        Seq::empty()
    } else if entries[k - 1].0 == key {
        paths_upto(entries, key, k - 1).push(entries[k - 1].1)
    } else {
        paths_upto(entries, key, k - 1)
    }
}

pub open spec fn paths_for(entries: Seq<(Seq<u8>, Seq<u8>)>, key: Seq<u8>) -> Seq<Seq<u8>> {
    paths_upto(entries, key, entries.len() as int)
}

pub open spec fn views_of(v: Seq<Vec<u8>>) -> Seq<Seq<u8>> {
    v.map_values(|b: Vec<u8>| b@)
}

impl View for LibraryCache {
    type V = Seq<(Seq<u8>, Seq<u8>)>;

    closed spec fn view(&self) -> Seq<(Seq<u8>, Seq<u8>)> {
        self.cache@.map_values(|e: (Vec<u8>, Vec<u8>)| (e.0@, e.1@))
    }
}

/// Whether two byte strings are equal.
pub fn bytes_equal(a: &[u8], b: &[u8]) -> (r: bool)
    ensures
        r == (a@ == b@),
{
    if a.len() != b.len() {
        return false;
    }
    let mut i: usize = 0;
    while i < a.len()
        invariant
            a@.len() == b@.len(),
            i <= a@.len(),
            a@.subrange(0, i as int) == b@.subrange(0, i as int),
        decreases a@.len() - i,
    {
        if a[i] != b[i] {
            assert(a@.subrange(0, i + 1)[i as int] != b@.subrange(0, i + 1)[i as int]);
            return false;
        }
        i = i + 1;
        assert(a@.subrange(0, i as int) =~= a@.subrange(0, i - 1).push(a@[i - 1]));
        assert(b@.subrange(0, i as int) =~= b@.subrange(0, i - 1).push(b@[i - 1]));
    }
    assert(a@ =~= a@.subrange(0, i as int));
    assert(b@ =~= b@.subrange(0, i as int));
    true
}

impl LibraryCache {
    /// A cache with no entries.
    pub fn new() -> (r: LibraryCache)
        ensures
            r@ == Seq::<(Seq<u8>, Seq<u8>)>::empty(),
    {
        let r = LibraryCache { cache: Vec::new() };
        assert(r@ =~= Seq::<(Seq<u8>, Seq<u8>)>::empty());
        r
    }

    /// Every path that the cache gives for `key`, in the order of the file;
    /// `None` when it has none.
    pub fn find(&self, key: &[u8]) -> (r: Option<Vec<Vec<u8>>>)
        ensures
            match r {
                Some(paths) => paths_for(self@, key@).len() > 0 && views_of(paths@) == paths_for(
                    self@,
                    key@,
                ),
                None => paths_for(self@, key@).len() == 0,
            },
    {
        let ghost entries = self@;
        let mut paths: Vec<Vec<u8>> = Vec::new();
        let mut k: usize = 0;
        assert(views_of(paths@) =~= paths_upto(entries, key@, 0));
        while k < self.cache.len()
            invariant
                entries == self@,
                entries.len() == self.cache@.len(),
                k <= entries.len(),
                views_of(paths@) == paths_upto(entries, key@, k as int),
            decreases entries.len() - k,
        {
            let entry = &self.cache[k];
            assert(entries[k as int] == (entry.0@, entry.1@));
            if bytes_equal(entry.0.as_slice(), key) {
                let ghost prev = paths@;
                paths.push(entry.1.clone());
                assert(views_of(paths@) =~= views_of(prev).push(entry.1@));
            }
            k = k + 1;
        }
        if paths.len() == 0 {
            None
        } else {
            Some(paths)
        }
    }

    /// Reads the entries of a cache file in the new glibc format.
    ///
    /// Fails exactly when the file ends before its header or before the
    /// entries that the header announces. A key or value offset outside the
    /// file reads as the empty string.
    pub fn parse(file: &[u8]) -> (r: Result<LibraryCache, CacheError>)
        ensures
            match r {
                Ok(c) => cache_entries_in_file(file@) && c@ == cache_entries_of(file@),
                Err(e) => !cache_entries_in_file(file@) && e == CacheError::Truncated,
            },
    {
        let len: usize = file.len();
        if len < CACHE_HEADER_SIZE {
            return Err(CacheError::Truncated);
        }
        let count = read_u32(file, CACHE_COUNT_OFFSET);
        if ((len - CACHE_HEADER_SIZE) as u64) < CACHE_ENTRY_SIZE as u64 * count as u64 {
            return Err(CacheError::Truncated);
        }
        let mut library_cache = LibraryCache::new();
        let ghost s = file@;
        let mut i: u32 = 0;
        while i < count
            invariant
                s == file@,
                len == s.len(),
                count == cache_entry_count(s),
                cache_entries_in_file(s),
                i <= count,
                library_cache@ == cache_entries_of(s).subrange(0, i as int),
            decreases count - i,
        {
            let off = CACHE_HEADER_SIZE + CACHE_ENTRY_SIZE * i as usize;
            let key = string_at(file, read_u32(file, off + 4) as u64);
            let value = string_at(file, read_u32(file, off + 8) as u64);
            let ghost prev = library_cache.cache@;
            library_cache.cache.push((key, value));
            assert(library_cache@ =~= prev.map_values(|e: (Vec<u8>, Vec<u8>)| (e.0@, e.1@)).push(
                (key@, value@),
            ));
            i = i + 1;
            assert(cache_entries_of(s).subrange(0, i as int) =~= cache_entries_of(s).subrange(
                0,
                i - 1,
            ).push(cache_entry_at(s, i - 1)));
        }
        assert(cache_entries_of(s).subrange(0, i as int) =~= cache_entries_of(s));
        Ok(library_cache)
    }
}

} // verus!
