//! Memoized directory-existence checks.
//!
//! The cache holds every directory path confirmed to exist so far; a path
//! found in it is answered without consulting the filesystem again. The
//! filesystem itself is reached through the caller: when the cache cannot
//! answer, the caller probes the path and hands the answer in.

use crate::text::str_eq;
use vstd::prelude::*;

verus! {

/// The set of directory paths confirmed, so far, to exist.
pub struct DirCache {
    confirmed: Vec<String>,
}

impl View for DirCache {
    type V = Set<Seq<char>>;

    closed spec fn view(&self) -> Set<Seq<char>> {
        self.confirmed.deep_view().to_set()
    }
}

impl DirCache {
    /// An empty cache: no directory is confirmed yet.
    pub fn new() -> (c: DirCache)
        ensures
            c@ == Set::<Seq<char>>::empty(),
    {
        let c = DirCache { confirmed: Vec::new() };
        proof {
            assert(c@ =~= Set::<Seq<char>>::empty());
        }
        c
    }

    /// Whether `path` is already confirmed, answered from the cache alone.
    pub fn contains(&self, path: &str) -> (r: bool)
        ensures
            r == self@.contains(path@),
    {
        let n = self.confirmed.len();
        let mut i: usize = 0;
        while i < n
            invariant
                n == self.confirmed.len(),
                i <= n,
                forall|j: int| 0 <= j < i ==> self.confirmed.deep_view()[j] != path@,
            decreases n - i,
        {
            if str_eq(self.confirmed[i].as_str(), path) {
                assert(self.confirmed.deep_view()[i as int] == path@);
                return true;
            }
            i = i + 1;
        }
        assert(!self.confirmed.deep_view().contains(path@));
        false
    }

    /// Records `path` as confirmed.
    fn insert(&mut self, path: &str)
        ensures
            final(self)@ == old(self)@.insert(path@),
    {
        let ghost before = self.confirmed.deep_view();
        self.confirmed.push(path.to_owned());
        proof {
            assert(self.confirmed.deep_view() =~= before.push(path@));
            assert forall|s: Seq<char>| #[trigger] self@.contains(s) implies old(
                self,
            )@.insert(path@).contains(s) by {
                let i = choose|i: int|
                    0 <= i < before.push(path@).len() && before.push(path@)[i] == s;
                if i < before.len() {
                    assert(before[i] == s);
                }
            }
            assert forall|s: Seq<char>| old(self)@.insert(path@).contains(s) implies #[trigger] self@.contains(s) by {
                if s == path@ {
                    assert(before.push(path@)[before.len() as int] == s);
                } else {
                    let i = choose|i: int| 0 <= i < before.len() && before[i] == s;
                    assert(before.push(path@)[i] == s);
                }
            }
            assert(self@ =~= old(self)@.insert(path@));
        }
    }
}

/// One memoized existence check: a cached path is confirmed outright, and
/// otherwise the probe's answer decides and a confirmed path enters the
/// cache. The pair is the answer and the cache afterwards.
pub open spec fn spec_dir_exists(cache: Set<Seq<char>>, path: Seq<char>, probe: Option<bool>) -> (
    bool,
    Set<Seq<char>>,
) {
    if cache.contains(path) {
        (true, cache)
    } else if probe == Some(true) {
        (true, cache.insert(path))
    } else {
        (false, cache)
    }
}

/// Decides whether the directory `path` exists. `probe` is the filesystem's
/// answer for `path`, asked for by the caller only when the cache does not
/// already hold the path; a cached path is confirmed without any probe.
pub fn dir_exists(path: &str, cache: &mut DirCache, probe: Option<bool>) -> (r: bool)
    ensures
        r == spec_dir_exists(old(cache)@, path@, probe).0,
        final(cache)@ == spec_dir_exists(old(cache)@, path@, probe).1,
{
    if cache.contains(path) {
        return true;
    }
    match probe {
        Some(true) => {
            cache.insert(path);
            true
        },
        _ => false,
    }
}

/// Once a check has confirmed a directory, every later check of the same
/// path is answered from the cache: it confirms the path whatever the
/// filesystem would now say, and leaves the cache unchanged.
pub proof fn lemma_confirmed_needs_no_probe(
    cache: Set<Seq<char>>,
    path: Seq<char>,
    probe1: Option<bool>,
    probe2: Option<bool>,
)
    requires
        spec_dir_exists(cache, path, probe1).0,
    ensures
        spec_dir_exists(spec_dir_exists(cache, path, probe1).1, path, probe2).0,
        spec_dir_exists(spec_dir_exists(cache, path, probe1).1, path, probe2).1
            == spec_dir_exists(cache, path, probe1).1,
{
}

} // verus!
