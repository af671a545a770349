//! Libraries found through a colon-separated list of directories.
use crate::cache::bytes_equal;
use vstd::prelude::*;
use vstd::slice::{slice_subrange, slice_to_vec};

verus! {

/// The byte `:`, which separates the directories of a search path.
pub const PATH_SEPARATOR: u8 = 58;

/// A file found in one of the search directories: its name and its absolute
/// path.
#[derive(Clone, Debug, PartialEq, Eq)]
pub struct LibraryFile {
    pub name: Vec<u8>,
    pub path: Vec<u8>,
}

/// The pieces of the first `k` bytes of `s` between separators: the finished
/// non-empty pieces, and the piece still being read.
pub open spec fn split_upto(s: Seq<u8>, k: int) -> (Seq<Seq<u8>>, Seq<u8>)
    decreases k,
{
    if k <= 0 {
        (Seq::empty(), Seq::empty())
    } else {
        let prev = split_upto(s, k - 1);
        if s[k - 1] == PATH_SEPARATOR {
            (if prev.1.len() > 0 {
                prev.0.push(prev.1)
            } else {
                prev.0
            }, Seq::empty())
        } else {
            (prev.0, prev.1.push(s[k - 1]))
        }
    }
}

/// The non-empty pieces of `s` between separators, in order.
pub open spec fn search_directories(s: Seq<u8>) -> Seq<Seq<u8>> {
    let p = split_upto(s, s.len() as int);
    if p.1.len() > 0 {
        p.0.push(p.1)
    } else {
        p.0
    }
}

/// The value of the first of the first `k` entries whose key is `key`.
pub open spec fn first_value_upto(entries: Seq<(Seq<u8>, Seq<u8>)>, key: Seq<u8>, k: int) -> Option<
    Seq<u8>,
>
    decreases k,
{
    if k <= 0 {
        None
    } else {
        match first_value_upto(entries, key, k - 1) {
            Some(v) => Some(v),
            None => if entries[k - 1].0 == key {
                Some(entries[k - 1].1)
            } else {
                None
            },
        }
    }
}

pub open spec fn first_value(entries: Seq<(Seq<u8>, Seq<u8>)>, key: Seq<u8>) -> Option<Seq<u8>> {
    first_value_upto(entries, key, entries.len() as int)
}

proof fn lemma_first_value_stays(entries: Seq<(Seq<u8>, Seq<u8>)>, key: Seq<u8>, k: int, j: int)
    requires
        0 <= k <= j,
        first_value_upto(entries, key, k) is Some,
    ensures
        first_value_upto(entries, key, j) == first_value_upto(entries, key, k),
    decreases j - k,
{
    if j > k {
        lemma_first_value_stays(entries, key, k, j - 1);
    }
}

pub open spec fn files_view(files: Seq<LibraryFile>) -> Seq<(Seq<u8>, Seq<u8>)> {
    files.map_values(|f: LibraryFile| (f.name@, f.path@))
}

pub open spec fn pairs_view(v: Seq<(Vec<u8>, Vec<u8>)>) -> Seq<(Seq<u8>, Seq<u8>)> {
    v.map_values(|e: (Vec<u8>, Vec<u8>)| (e.0@, e.1@))
}

/// The value of the first entry whose key is `key`.
fn find_first(entries: &Vec<(Vec<u8>, Vec<u8>)>, key: &[u8]) -> (r: Option<Vec<u8>>)
    ensures
        match r {
            Some(v) => first_value(pairs_view(entries@), key@) == Some(v@),
            None => first_value(pairs_view(entries@), key@) is None,
        },
{
    let ghost es = pairs_view(entries@);
    let mut k: usize = 0;
    while k < entries.len()
        invariant
            es == pairs_view(entries@),
            k <= es.len(),
            first_value_upto(es, key@, k as int) is None,
        decreases es.len() - k,
    {
        if bytes_equal(entries[k].0.as_slice(), key) {
            proof {
                lemma_first_value_stays(es, key@, k + 1, es.len() as int);
            }
            return Some(entries[k].1.clone());
        }
        k = k + 1;
    }
    None
}

pub open spec fn path_view(r: Option<Vec<u8>>) -> Option<Seq<u8>> {
    match r {
        Some(v) => Some(v@),
        None => None,
    }
}

pub struct LdPathView {
    pub directories: Seq<Seq<u8>>,
    pub libraries: Seq<(Seq<u8>, Seq<u8>)>,
}

/// The directories of a search path, with the libraries found in them so far.
#[derive(Clone, Debug)]
pub struct LdPathLoader {
    paths: Vec<Vec<u8>>,
    libraries: Vec<(Vec<u8>, Vec<u8>)>,
}

impl View for LdPathLoader {
    type V = LdPathView;

    closed spec fn view(&self) -> LdPathView {
        LdPathView {
            directories: self.paths@.map_values(|p: Vec<u8>| p@),
            libraries: pairs_view(self.libraries@),
        }
    }
}

impl LdPathLoader {
    /// A loader for the directories listed in `ld_library_path`, separated by
    /// `:`; empty entries are dropped.
    pub fn new(ld_library_path: &[u8]) -> (r: LdPathLoader)
        ensures
            r@.directories == search_directories(ld_library_path@),
            r@.libraries == Seq::<(Seq<u8>, Seq<u8>)>::empty(),
    {
        let ghost s = ld_library_path@;
        let mut paths: Vec<Vec<u8>> = Vec::new();
        let mut start: usize = 0;
        let mut k: usize = 0;
        while k < ld_library_path.len()
            invariant
                s == ld_library_path@,
                start <= k <= s.len(),
                split_upto(s, k as int) == (
                    paths@.map_values(|p: Vec<u8>| p@),
                    s.subrange(start as int, k as int),
                ),
            decreases s.len() - k,
        {
            let ghost before = paths@;
            if ld_library_path[k] == PATH_SEPARATOR {
                if k > start {
                    paths.push(slice_to_vec(slice_subrange(ld_library_path, start, k)));
                    assert(paths@.map_values(|p: Vec<u8>| p@) =~= before.map_values(
                        |p: Vec<u8>| p@,
                    ).push(s.subrange(start as int, k as int)));
                }
                start = k + 1;
                k = k + 1;
                assert(s.subrange(start as int, k as int) =~= Seq::<u8>::empty());
            } else {
                k = k + 1;
                assert(s.subrange(start as int, k as int) =~= s.subrange(start as int, k - 1).push(
                    s[k - 1],
                ));
            }
        }
        if k > start {
            let ghost before = paths@;
            paths.push(slice_to_vec(slice_subrange(ld_library_path, start, k)));
            assert(paths@.map_values(|p: Vec<u8>| p@) =~= before.map_values(|p: Vec<u8>| p@).push(
                s.subrange(start as int, k as int),
            ));
        }
        let r = LdPathLoader { paths, libraries: Vec::new() };
        assert(r@.libraries =~= Seq::<(Seq<u8>, Seq<u8>)>::empty());
        r
    }

    /// The directories to scan, in order.
    pub fn directories(&self) -> (r: &Vec<Vec<u8>>)
        ensures
            r@.map_values(|p: Vec<u8>| p@) == self@.directories,
    {
        &self.paths
    }

    /// The path found earlier for `key`.
    pub fn cached(&self, key: &[u8]) -> (r: Option<Vec<u8>>)
        ensures
            match r {
                Some(p) => first_value(self@.libraries, key@) == Some(p@),
                None => first_value(self@.libraries, key@) is None,
            },
    {
        find_first(&self.libraries, key)
    }

    /// The absolute path of the library `key`. A path found earlier is given
    /// again. Otherwise the first file of `found` (the files of the
    /// directories, in the order of the directories) named `key` is the
    /// answer, and it is remembered.
    pub fn get(&mut self, key: &[u8], found: &Vec<LibraryFile>) -> (r: Option<Vec<u8>>)
        ensures
            final(self)@.directories == old(self)@.directories,
            match first_value(old(self)@.libraries, key@) {
                Some(p) => path_view(r) == Some(p) && final(self)@ == old(self)@,
                None => match first_value(files_view(found@), key@) {
                    Some(p) => path_view(r) == Some(p) && final(self)@.libraries == old(
                        self,
                    )@.libraries.push((key@, p)),
                    None => r is None && final(self)@ == old(self)@,
                },
            },
    {
        if let Some(p) = self.cached(key) {
            return Some(p);
        }
        let ghost fs = files_view(found@);
        let mut k: usize = 0;
        while k < found.len()
            invariant
                fs == files_view(found@),
                k <= fs.len(),
                first_value_upto(fs, key@, k as int) is None,
                first_value(old(self)@.libraries, key@) is None,
                self@ == old(self)@,
            decreases fs.len() - k,
        {
            if bytes_equal(found[k].name.as_slice(), key) {
                proof {
                    lemma_first_value_stays(fs, key@, k + 1, fs.len() as int);
                }
                let path = found[k].path.clone();
                let ghost before = self.libraries@;
                self.libraries.push((slice_to_vec(key), path.clone()));
                assert(pairs_view(self.libraries@) =~= pairs_view(before).push((key@, path@)));
                return Some(path);
            }
            k = k + 1;
        }
        None
    }
}

} // verus!
