//! Symbol maps: names bound to resolved symbols, where the first binding of a
//! name is the one that stays.
use crate::cache::bytes_equal;
use crate::elf::{Elf64ResolvedSymbolTableEntry, SymbolView};
use vstd::prelude::*;
use vstd::slice::{slice_subrange, slice_to_vec};

verus! {

/// `m` with `k` bound to `v`, unless `k` is bound already.
pub open spec fn insert_absent<V>(m: Map<Seq<u8>, V>, k: Seq<u8>, v: V) -> Map<Seq<u8>, V> {
    if m.contains_key(k) {
        m
    } else {
        m.insert(k, v)
    }
}

/// A map from names to symbols, kept as a list of bindings.
pub struct SymbolMap {
    entries: Vec<(Vec<u8>, Elf64ResolvedSymbolTableEntry)>,
    model: Ghost<Map<Seq<u8>, SymbolView>>,
}

impl View for SymbolMap {
    type V = Map<Seq<u8>, SymbolView>;

    closed spec fn view(&self) -> Map<Seq<u8>, SymbolView> {
        self.model@
    }
}

impl SymbolMap {
    pub closed spec fn wf(&self) -> bool {
        &&& forall|i: int|
            0 <= i < self.entries@.len() ==> #[trigger] self.model@.contains_key(
                self.entries@[i].0@,
            ) && self.model@[self.entries@[i].0@] == self.entries@[i].1@
        &&& forall|k: Seq<u8>|
            #[trigger] self.model@.contains_key(k) ==> exists|i: int|
                0 <= i < self.entries@.len() && #[trigger] self.entries@[i].0@ == k
    }

    /// The empty map.
    pub fn new() -> (r: SymbolMap)
        ensures
            r.wf(),
            r@ == Map::<Seq<u8>, SymbolView>::empty(),
    {
        SymbolMap { entries: Vec::new(), model: Ghost(Map::empty()) }
    }

    fn position(&self, name: &[u8]) -> (r: Option<usize>)
        requires
            self.wf(),
        ensures
            match r {
                Some(i) => i < self.entries@.len() && self.entries@[i as int].0@ == name@
                    && self@.contains_key(name@),
                None => !self@.contains_key(name@),
            },
    {
        let mut i: usize = 0;
        while i < self.entries.len()
            invariant
                self.wf(),
                i <= self.entries@.len(),
                forall|j: int| 0 <= j < i ==> self.entries@[j].0@ != name@,
            decreases self.entries@.len() - i,
        {
            if bytes_equal(self.entries[i].0.as_slice(), name) {
                assert(self.model@.contains_key(self.entries@[i as int].0@));
                return Some(i);
            }
            i = i + 1;
        }
        None
    }

    /// Whether `name` is bound.
    pub fn contains_key(&self, name: &[u8]) -> (r: bool)
        requires
            self.wf(),
        ensures
            r == self@.contains_key(name@),
    {
        self.position(name).is_some()
    }

    /// The symbol bound to `name`.
    pub fn get(&self, name: &[u8]) -> (r: Option<Elf64ResolvedSymbolTableEntry>)
        requires
            self.wf(),
        ensures
            match r {
                Some(e) => self@.contains_key(name@) && e@ == self@[name@],
                None => !self@.contains_key(name@),
            },
    {
        match self.position(name) {
            Some(i) => Some(self.entries[i].1.duplicate()),
            None => None,
        }
    }

    /// Binds `name` to `symbol` unless `name` is bound already.
    pub fn insert_if_absent(&mut self, name: Vec<u8>, symbol: Elf64ResolvedSymbolTableEntry)
        requires
            old(self).wf(),
        ensures
            final(self).wf(),
            final(self)@ == insert_absent(old(self)@, name@, symbol@),
    {
        if self.position(name.as_slice()).is_none() {
            let ghost k = name@;
            let ghost v = symbol@;
            let ghost old_entries = self.entries@;
            self.entries.push((name, symbol));
            self.model = Ghost(self.model@.insert(k, v));
            assert forall|i: int| 0 <= i < self.entries@.len() implies #[trigger] self.model@.contains_key(
                self.entries@[i].0@,
            ) && self.model@[self.entries@[i].0@] == self.entries@[i].1@ by {
                if i < old_entries.len() {
                    assert(self.entries@[i] == old_entries[i]);
                }
            }
            assert forall|key: Seq<u8>| #[trigger] self.model@.contains_key(key) implies exists|i: int|
                0 <= i < self.entries@.len() && #[trigger] self.entries@[i].0@ == key by {
                if key == k {
                    assert(self.entries@[old_entries.len() as int].0@ == key);
                } else {
                    let i = choose|i: int| 0 <= i < old_entries.len() && #[trigger] old_entries[i].0@ == key;
                    assert(self.entries@[i] == old_entries[i]);
                }
            }
        }
    }
}

/// The byte `@`, which separates a symbol's name from its version.
pub const VERSION_SEPARATOR: u8 = 64;

/// The index of the first `@@` at or after `i`; -1 when there is none.
pub open spec fn double_at_from(s: Seq<u8>, i: int) -> int
    decreases s.len() - i,
{
    if i < 0 || i + 1 >= s.len() {
        -1
    } else if s[i] == VERSION_SEPARATOR && s[i + 1] == VERSION_SEPARATOR {
        i
    } else {
        double_at_from(s, i + 1)
    }
}

/// For a name of the form `name@@version`, the part before the first `@@`.
pub open spec fn default_name(s: Seq<u8>) -> Option<Seq<u8>> {
    let j = double_at_from(s, 0);
    if j >= 0 {
        Some(s.subrange(0, j))
    } else {
        None
    }
}

/// The index of the first `@` at or after `i`; the length when there is none.
pub open spec fn at_from(s: Seq<u8>, i: int) -> int
    decreases s.len() - i,
{
    if i < 0 || i >= s.len() {
        s.len() as int
    } else if s[i] == VERSION_SEPARATOR {
        i
    } else {
        at_from(s, i + 1)
    }
}

/// The name without its version: the part before the first `@`.
pub open spec fn unversioned(s: Seq<u8>) -> Seq<u8> {
    s.subrange(0, at_from(s, 0))
}

/// Whether `pattern` occurs in `s`.
pub open spec fn contains_bytes(s: Seq<u8>, pattern: Seq<u8>) -> bool {
    exists|i: int|
        0 <= i && i + pattern.len() <= s.len() && #[trigger] s.subrange(i, i + pattern.len())
            == pattern
}

proof fn lemma_double_at_from(s: Seq<u8>, i: int)
    requires
        0 <= i,
    ensures
        double_at_from(s, i) == -1 || (i <= double_at_from(s, i) && double_at_from(s, i) + 1
            < s.len()),
    decreases s.len() - i,
{
    if i + 1 < s.len() && !(s[i] == VERSION_SEPARATOR && s[i + 1] == VERSION_SEPARATOR) {
        lemma_double_at_from(s, i + 1);
    }
}

proof fn lemma_at_from(s: Seq<u8>, i: int)
    requires
        0 <= i <= s.len(),
    ensures
        i <= at_from(s, i) <= s.len(),
    decreases s.len() - i,
{
    if i < s.len() && s[i] != VERSION_SEPARATOR {
        lemma_at_from(s, i + 1);
    }
}

/// The part of `name` before its first `@@`, when it has one.
pub fn default_symbol_name(name: &[u8]) -> (r: Option<Vec<u8>>)
    ensures
        match r {
            Some(v) => default_name(name@) == Some(v@),
            None => default_name(name@) is None,
        },
{
    let n: usize = name.len();
    let mut i: usize = 0;
    while n > 0 && i < n - 1
        invariant
            n == name@.len(),
            i <= name@.len(),
            double_at_from(name@, 0) == double_at_from(name@, i as int),
        decreases name@.len() - i,
    {
        if name[i] == VERSION_SEPARATOR && name[i + 1] == VERSION_SEPARATOR {
            return Some(slice_to_vec(slice_subrange(name, 0, i)));
        }
        i = i + 1;
    }
    None
}

/// The part of `name` before its first `@`.
pub fn unversioned_name(name: &[u8]) -> (r: Vec<u8>)
    ensures
        r@ == unversioned(name@),
{
    let mut i: usize = 0;
    while i < name.len() && name[i] != VERSION_SEPARATOR
        invariant
            i <= name@.len(),
            at_from(name@, 0) == at_from(name@, i as int),
        decreases name@.len() - i,
    {
        i = i + 1;
    }
    slice_to_vec(slice_subrange(name, 0, i))
}

/// Whether `pattern` occurs in `s`.
pub fn contains_pattern(s: &[u8], pattern: &[u8]) -> (r: bool)
    ensures
        r == contains_bytes(s@, pattern@),
{
    let len: usize = s.len();
    if pattern.len() > len {
        return false;
    }
    if pattern.len() == 0 {
        assert(s@.subrange(0, 0 + pattern@.len() as int) =~= pattern@);
        assert(contains_bytes(s@, pattern@));
        return true;
    }
    let last: usize = s.len() - pattern.len();
    let mut i: usize = 0;
    while i <= last
        invariant
            pattern@.len() <= s@.len(),
            len == s@.len(),
            pattern@.len() > 0,
            last == s@.len() - pattern@.len(),
            forall|j: int| 0 <= j < i ==> #[trigger] s@.subrange(j, j + pattern@.len()) != pattern@,
        decreases last + 1 - i,
    {
        if bytes_equal(slice_subrange(s, i, i + pattern.len()), pattern) {
            return true;
        }
        i = i + 1;
    }
    false
}

} // verus!
