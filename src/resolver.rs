//! Dependency resolution: locating required libraries and ordering images so
//! that each comes after the images it depends on.
use crate::cache::{bytes_equal, paths_for, views_of, LibraryCache};
use crate::elf::Elf64Metadata;
use crate::ld_path_loader::{files_view, first_value, LdPathLoader, LibraryFile};
use vstd::prelude::*;

verus! {

/// Whether one of the first `k` images of `s` has the path `p`.
pub open spec fn seen_path(s: Seq<Elf64Metadata>, k: int, p: Seq<u8>) -> bool {
    exists|j: int| 0 <= j < k && #[trigger] s[j].file_path@ == p
}

/// The first `k` images of `s`, without those whose path came earlier.
pub open spec fn dedup_upto(s: Seq<Elf64Metadata>, k: int) -> Seq<Elf64Metadata>
    decreases k,
{
    if k <= 0 {
        Seq::empty()
    } else if seen_path(s, k - 1, s[k - 1].file_path@) {
        dedup_upto(s, k - 1)
    } else {
        dedup_upto(s, k - 1).push(s[k - 1])
    }
}

pub open spec fn dedup_by_path(s: Seq<Elf64Metadata>) -> Seq<Elf64Metadata> {
    dedup_upto(s, s.len() as int)
}

/// The images in loading order before duplicates are dropped: those taken
/// from the traversal, the last taken first, then the root.
pub open spec fn load_sequence(root: Elf64Metadata, visited: Seq<Elf64Metadata>) -> Seq<
    Elf64Metadata,
> {
    visited.reverse().push(root)
}

/// The paths of `dedup_upto(s, k)` are those of the first `k` images of `s`.
proof fn lemma_dedup_paths(s: Seq<Elf64Metadata>, k: int)
    requires
        0 <= k <= s.len(),
    ensures
        forall|p: Seq<u8>|
            seen_path(s, k, p) <==> seen_path(dedup_upto(s, k), dedup_upto(s, k).len() as int, p),
    decreases k,
{
    if k > 0 {
        lemma_dedup_paths(s, k - 1);
        let d = dedup_upto(s, k - 1);
        let e = dedup_upto(s, k);
        assert forall|p: Seq<u8>| seen_path(s, k, p) <==> seen_path(e, e.len() as int, p) by {
            if seen_path(s, k, p) {
                let j = choose|j: int| 0 <= j < k && #[trigger] s[j].file_path@ == p;
                if j < k - 1 {
                    assert(seen_path(s, k - 1, p));
                    let i = choose|i: int| 0 <= i < d.len() && #[trigger] d[i].file_path@ == p;
                    assert(e[i] == d[i]);
                } else if seen_path(s, k - 1, p) {
                    let i = choose|i: int| 0 <= i < d.len() && #[trigger] d[i].file_path@ == p;
                    assert(e[i] == d[i]);
                } else {
                    assert(e[d.len() as int] == s[k - 1]);
                }
            }
            if seen_path(e, e.len() as int, p) {
                let i = choose|i: int| 0 <= i < e.len() && #[trigger] e[i].file_path@ == p;
                if i < d.len() {
                    assert(e[i] == d[i]);
                    assert(d[i].file_path@ == p);
                    assert(seen_path(d, d.len() as int, p));
                    assert(seen_path(s, k - 1, p));
                    let j = choose|j: int| 0 <= j < k - 1 && #[trigger] s[j].file_path@ == p;
                    assert(s[j].file_path@ == p);
                } else {
                    assert(s[k - 1].file_path@ == p);
                }
            }
        }
    }
}

/// The loading order holds each path once, and every path of the images it was
/// made from.
pub proof fn lemma_load_order_unique(s: Seq<Elf64Metadata>)
    ensures
        forall|i: int, j: int|
            0 <= i < j < dedup_by_path(s).len() ==> dedup_by_path(s)[i].file_path@ != dedup_by_path(
                s,
            )[j].file_path@,
        forall|p: Seq<u8>|
            seen_path(s, s.len() as int, p) <==> seen_path(
                dedup_by_path(s),
                dedup_by_path(s).len() as int,
                p,
            ),
{
    lemma_dedup_unique(s, s.len() as int);
    lemma_dedup_paths(s, s.len() as int);
}

proof fn lemma_dedup_unique(s: Seq<Elf64Metadata>, k: int)
    requires
        0 <= k <= s.len(),
    ensures
        forall|i: int, j: int|
            0 <= i < j < dedup_upto(s, k).len() ==> dedup_upto(s, k)[i].file_path@ != dedup_upto(
                s,
                k,
            )[j].file_path@,
    decreases k,
{
    if k > 0 {
        lemma_dedup_unique(s, k - 1);
        lemma_dedup_paths(s, k - 1);
        let d = dedup_upto(s, k - 1);
        let e = dedup_upto(s, k);
        assert forall|i: int, j: int| 0 <= i < j < e.len() implies e[i].file_path@
            != e[j].file_path@ by {
            if j < d.len() {
                assert(e[i] == d[i] && e[j] == d[j]);
            } else {
                assert(e[i] == d[i]);
                assert(e[j] == s[k - 1]);
                if e[i].file_path@ == e[j].file_path@ {
                    assert(seen_path(d, d.len() as int, s[k - 1].file_path@));
                }
            }
        }
    }
}

/// Whether one of `images` has the path `path`.
fn has_path(images: &Vec<Elf64Metadata>, path: &[u8]) -> (r: bool)
    ensures
        r == seen_path(images@, images@.len() as int, path@),
{
    let mut i: usize = 0;
    while i < images.len()
        invariant
            i <= images@.len(),
            !seen_path(images@, i as int, path@),
        decreases images@.len() - i,
    {
        if bytes_equal(images[i].file_path.as_slice(), path) {
            return true;
        }
        i = i + 1;
    }
    false
}

pub open spec fn loader_view(l: Option<LdPathLoader>) -> Option<crate::ld_path_loader::LdPathView> {
    match l {
        Some(loader) => Some(loader@),
        None => None,
    }
}

/// Locates the libraries that images require: first in the system cache, then
/// in the search-path directories.
#[derive(Clone, Debug)]
pub struct DependenciesResolver {
    library_cache: LibraryCache,
    ld_path_loader: Option<LdPathLoader>,
}

impl DependenciesResolver {
    pub fn new(library_cache: LibraryCache, ld_path_loader: Option<LdPathLoader>) -> (r:
        DependenciesResolver)
        ensures
            r.library_cache() == library_cache@,
            r.ld_path_loader() == loader_view(ld_path_loader),
    {
        DependenciesResolver { library_cache, ld_path_loader }
    }

    pub closed spec fn library_cache(&self) -> Seq<(Seq<u8>, Seq<u8>)> {
        self.library_cache@
    }

    pub closed spec fn ld_path_loader(&self) -> Option<crate::ld_path_loader::LdPathView> {
        loader_view(self.ld_path_loader)
    }

    /// Whether locating `library` needs the files of the search directories:
    /// the cache has no path for it, and the search path has not found it yet.
    pub fn needs_directory_scan(&self, library: &[u8]) -> (r: bool)
        ensures
            r == (paths_for(self.library_cache(), library@).len() == 0 && match self.ld_path_loader() {
                Some(l) => first_value(l.libraries, library@) is None,
                None => false,
            }),
    {
        if self.library_cache.find(library).is_some() {
            return false;
        }
        match &self.ld_path_loader {
            Some(loader) => loader.cached(library).is_none(),
            None => false,
        }
    }

    /// The absolute paths of `library`: those of the cache when it has any,
    /// else the one that the search path gives (see `LdPathLoader::get`), with
    /// `found` the files of its directories.
    pub fn resolve_path(&mut self, library: &[u8], found: &Vec<LibraryFile>) -> (r: Vec<Vec<u8>>)
        ensures
            final(self).library_cache() == old(self).library_cache(),
            paths_for(old(self).library_cache(), library@).len() > 0 ==> views_of(r@) == paths_for(
                old(self).library_cache(),
                library@,
            ) && final(self).ld_path_loader() == old(self).ld_path_loader(),
            paths_for(old(self).library_cache(), library@).len() == 0 ==> match old(
                self,
            ).ld_path_loader() {
                None => r@.len() == 0 && final(self).ld_path_loader() is None,
                Some(l) => {
                    let answer = match first_value(l.libraries, library@) {
                        Some(p) => Some(p),
                        None => first_value(files_view(found@), library@),
                    };
                    &&& final(self).ld_path_loader() is Some
                    &&& final(self).ld_path_loader()->Some_0.directories == l.directories
                    &&& final(self).ld_path_loader()->Some_0.libraries == match (
                        first_value(l.libraries, library@),
                        answer,
                    ) {
                        (None, Some(p)) => l.libraries.push((library@, p)),
                        _ => l.libraries,
                    }
                    &&& match answer {
                        Some(p) => views_of(r@) == seq![p],
                        None => r@.len() == 0,
                    }
                },
            },
    {
        match self.library_cache.find(library) {
            Some(paths) => paths,
            None => {
                let mut result: Vec<Vec<u8>> = Vec::new();
                match &mut self.ld_path_loader {
                    Some(loader) => match loader.get(library, found) {
                        Some(p) => {
                            result.push(p);
                            assert(views_of(result@) =~= seq![result@[0]@]);
                        },
                        None => {},
                    },
                    None => {},
                }
                result
            },
        }
    }

    /// Puts `vector` at the front of the traversal queue, whose front is the
    /// end of `queue`: the last of `vector` is taken first.
    pub fn add_front(queue: &mut Vec<Elf64Metadata>, vector: Vec<Elf64Metadata>)
        ensures
            final(queue)@ == old(queue)@ + vector@,
    {
        let mut v = vector;
        queue.append(&mut v);
    }

    /// The loading order: the images that the traversal took from its queue,
    /// the last taken first, then the root; an image whose path came earlier is
    /// dropped.
    pub fn resolve_in_loading_order(root: Elf64Metadata, visited: Vec<Elf64Metadata>) -> (r: Vec<
        Elf64Metadata,
    >)
        ensures
            r@ == dedup_by_path(load_sequence(root, visited@)),
    {
        let ghost order = load_sequence(root, visited@);
        let count: usize = visited.len();
        let ghost n = visited@.len();
        assert(order[n as int] == root);
        assert forall|j: int| 0 <= j < n implies visited@[j] == order[n - 1 - j] by {
            assert(visited@.reverse()[n - 1 - j] == visited@[j]);
        }
        let mut rest = visited;
        let mut result: Vec<Elf64Metadata> = Vec::new();
        let mut i: usize = 0;
        while rest.len() > 0
            invariant
                order.len() == n + 1,
                n == count,
                order[n as int] == root,
                i <= n,
                rest@.len() == n - i,
                forall|j: int| 0 <= j < rest@.len() ==> rest@[j] == order[n - 1 - j],
                result@ == dedup_upto(order, i as int),
            decreases rest@.len(),
        {
            let entry = rest.pop().unwrap();
            assert(entry == order[i as int]);
            proof {
                lemma_dedup_paths(order, i as int);
            }
            if !has_path(&result, entry.file_path.as_slice()) {
                result.push(entry);
            }
            i = i + 1;
        }
        assert(order[n as int] == root);
        proof {
            lemma_dedup_paths(order, n as int);
        }
        if !has_path(&result, root.file_path.as_slice()) {
            result.push(root);
        }
        result
    }
}

} // verus!
