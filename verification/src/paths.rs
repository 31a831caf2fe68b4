//! Paths held as strings: the two questions the file explorer asks of
//! them, and a set of paths.
use vstd::prelude::*;
use crate::text::{str_eq, strs_view};

verus! {

/// What `Path::starts_with` answers for two paths given as strings: whether
/// `base`'s components are the first components of `path`.
pub uninterp spec fn path_starts_with(path: Seq<char>, base: Seq<char>) -> bool;

/// What `Path::parent` returns for a path given as a string: the path
/// without its final component, none for a root or an empty path.
pub uninterp spec fn path_parent(path: Seq<char>) -> Option<Seq<char>>;

/// `Path::starts_with`: whether `path` lies under `base`, compared by
/// whole components.
#[verifier::external_body]
pub(crate) fn starts_with_path(path: &str, base: &str) -> (r: bool)
    ensures
        r == path_starts_with(path@, base@),
{
    std::path::Path::new(path).starts_with(base)
}

/// `Path::parent`, the result given back as a string.
#[verifier::external_body]
pub(crate) fn parent_path(path: &str) -> (r: Option<String>)
    ensures
        match r {
            Some(p) => path_parent(path@) == Some(p@),
            None => path_parent(path@) is None,
        },
{
    match std::path::Path::new(path).parent() {
        Some(p) => Some(p.to_string_lossy().into_owned()),
        None => None,
    }
}

/// A set of paths, in the order they were added.
#[derive(Debug)]
pub struct PathSet {
    items: Vec<String>,
}

impl View for PathSet {
    type V = Set<Seq<char>>;

    closed spec fn view(&self) -> Set<Seq<char>> {
        strs_view(self.items@).to_set()
    }
}

impl PathSet {
    #[verifier::type_invariant]
    spec fn no_path_twice(self) -> bool {
        strs_view(self.items@).no_duplicates()
    }

    /// An empty set.
    pub fn new() -> (r: PathSet)
        ensures
            r@ == Set::<Seq<char>>::empty(),
    {
        let s = PathSet { items: Vec::new() };
        assert(s@ =~= Set::<Seq<char>>::empty());
        s
    }

    fn position(&self, p: &str) -> (r: Option<usize>)
        ensures
            match r {
                Some(i) => i < self.items@.len() && self.items@[i as int]@ == p@,
                None => !self@.contains(p@),
            },
    {
        let mut i: usize = 0;
        while i < self.items.len()
            invariant
                i <= self.items@.len(),
                forall|j: int| 0 <= j < i ==> (#[trigger] self.items@[j])@ != p@,
            decreases self.items@.len() - i,
        {
            if str_eq(self.items[i].as_str(), p) {
                return Some(i);
            }
            i = i + 1;
        }
        proof {
            if self@.contains(p@) {
                let j = choose|j: int| 0 <= j < self.items@.len() && strs_view(self.items@)[j] == p@;
                assert(self.items@[j]@ == p@);
            }
        }
        None
    }

    /// Whether `p` is in the set.
    pub fn contains(&self, p: &str) -> (r: bool)
        ensures
            r == self@.contains(p@),
    {
        match self.position(p) {
            Some(i) => {
                assert(strs_view(self.items@)[i as int] == p@);
                true
            },
            None => false,
        }
    }

    /// Adds `p`; nothing changes when it is there already.
    pub fn insert(&mut self, p: String)
        ensures
            final(self)@ == old(self)@.insert(p@),
    {
        proof {
            use_type_invariant(&*self);
        }
        if self.contains(p.as_str()) {
            assert(old(self)@.insert(p@) =~= old(self)@);
            return;
        }
        let ghost before = strs_view(self.items@);
        let mut items = Vec::new();
        std::mem::swap(&mut items, &mut self.items);
        items.push(p);
        assert(strs_view(items@) =~= before.push(p@));
        assert(before.push(p@).no_duplicates()) by {
            assert forall|a: int, b: int|
                0 <= a < before.len() + 1 && 0 <= b < before.len() + 1 && a != b implies before.push(p@)[a]
                != before.push(p@)[b] by {
                if a == before.len() {
                    assert(before[b] != p@) by {
                        if before[b] == p@ {
                            assert(before.contains(p@));
                        }
                    }
                } else if b == before.len() {
                    assert(before[a] != p@) by {
                        if before[a] == p@ {
                            assert(before.contains(p@));
                        }
                    }
                }
            }
        }
        assert(strs_view(items@).to_set() =~= before.to_set().insert(p@)) by {
            assert forall|x: Seq<char>| before.push(p@).contains(x) <==> before.contains(x) || x == p@ by {
                if before.push(p@).contains(x) {
                    let j = choose|j: int| 0 <= j < before.len() + 1 && before.push(p@)[j] == x;
                    if j < before.len() {
                        assert(before[j] == x);
                    }
                }
                if before.contains(x) {
                    let j = choose|j: int| 0 <= j < before.len() && before[j] == x;
                    assert(before.push(p@)[j] == x);
                }
                if x == p@ {
                    assert(before.push(p@)[before.len() as int] == x);
                }
            }
        }
        self.items = items;
    }

    /// Removes `p`; nothing changes when it is not there.
    pub fn remove(&mut self, p: &str)
        ensures
            final(self)@ == old(self)@.remove(p@),
    {
        proof {
            use_type_invariant(&*self);
        }
        match self.position(p) {
            None => {
                assert(old(self)@.remove(p@) =~= old(self)@);
            },
            Some(i) => {
                let ghost before = strs_view(self.items@);
                let mut items = Vec::new();
                std::mem::swap(&mut items, &mut self.items);
                let _ = items.remove(i);
                assert(strs_view(items@) =~= before.remove(i as int));
                assert(before[i as int] == p@);
                assert(before.remove(i as int).no_duplicates()) by {
                    assert forall|a: int, b: int|
                        0 <= a < before.len() - 1 && 0 <= b < before.len() - 1 && a != b implies before.remove(
                            i as int,
                        )[a] != before.remove(i as int)[b] by {
                        let a2 = if a < i { a } else { a + 1 };
                        let b2 = if b < i { b } else { b + 1 };
                        assert(before.remove(i as int)[a] == before[a2]);
                        assert(before.remove(i as int)[b] == before[b2]);
                    }
                }
                assert(strs_view(items@).to_set() =~= before.to_set().remove(p@)) by {
                    assert forall|x: Seq<char>| before.remove(i as int).contains(x) <==> before.contains(x) && x != p@ by {
                        if before.remove(i as int).contains(x) {
                            let j = choose|j: int| 0 <= j < before.len() - 1 && before.remove(i as int)[j] == x;
                            if j < i {
                                assert(before[j] == x);
                                assert(before[j] != before[i as int]);
                            } else {
                                assert(before[j + 1] == x);
                                assert(before[j + 1] != before[i as int]);
                            }
                        }
                        if before.contains(x) && x != p@ {
                            let j = choose|j: int| 0 <= j < before.len() && before[j] == x;
                            if j < i {
                                assert(before.remove(i as int)[j] == x);
                            } else {
                                assert(before.remove(i as int)[j - 1] == x);
                            }
                        }
                    }
                }
                self.items = items;
            },
        }
    }

    /// Empties the set.
    pub fn clear(&mut self)
        ensures
            final(self)@ == Set::<Seq<char>>::empty(),
    {
        self.items = Vec::new();
        assert(self@ =~= Set::<Seq<char>>::empty());
    }

    /// Whether the set is empty.
    pub fn is_empty(&self) -> (r: bool)
        ensures
            r == (self@ == Set::<Seq<char>>::empty()),
    {
        if self.items.len() == 0 {
            assert(self@ =~= Set::<Seq<char>>::empty());
            true
        } else {
            assert(self@.contains(self.items@[0]@)) by {
                assert(strs_view(self.items@)[0] == self.items@[0]@);
            }
            false
        }
    }

    /// The paths, each once, in the order they were added.
    pub fn to_vec(&self) -> (r: Vec<String>)
        ensures
            strs_view(r@).to_set() == self@,
            strs_view(r@).no_duplicates(),
    {
        proof {
            use_type_invariant(self);
        }
        let mut out: Vec<String> = Vec::new();
        let mut i: usize = 0;
        while i < self.items.len()
            invariant
                i <= self.items@.len(),
                out@ == self.items@.take(i as int),
            decreases self.items@.len() - i,
        {
            out.push(self.items[i].clone());
            assert(out@ =~= self.items@.take(i + 1));
            i = i + 1;
        }
        assert(out@ =~= self.items@);
        out
    }
}

impl Clone for PathSet {
    fn clone(&self) -> (r: PathSet)
        ensures
            r@ == self@,
    {
        PathSet { items: self.to_vec() }
    }
}

} // verus!
