use vstd::hash_set::StringHashSet;
use vstd::prelude::*;

verus! {

/// The set of flag values already forwarded. Entries are never removed.
pub struct DedupSet {
    seen: StringHashSet,
}

/// Whether the `i`-th of `flags`, presented in order after `seen`, is its
/// first presentation.
pub open spec fn first_presentation(seen: Set<Seq<char>>, flags: Seq<Seq<char>>, i: int) -> bool {
    &&& !seen.contains(flags[i])
    &&& forall|j: int| 0 <= j < i ==> flags[j] != flags[i]
}

/// The views of a sequence of strings.
pub open spec fn views(v: Seq<String>) -> Seq<Seq<char>> {
    v.map_values(|s: String| s@)
}

impl View for DedupSet {
    type V = Set<Seq<char>>;

    closed spec fn view(&self) -> Set<Seq<char>> {
        self.seen@
    }
}

impl DedupSet {
    /// An empty set: every flag is new.
    pub fn new() -> (r: Self)
        ensures
            r@ == Set::<Seq<char>>::empty(),
    {
        DedupSet { seen: StringHashSet::new() }
    }

    /// Records `flag`; true exactly when it had not been recorded before.
    pub fn admit_flag(&mut self, flag: &str) -> (r: bool)
        ensures
            r == !old(self)@.contains(flag@),
            final(self)@ == old(self)@.insert(flag@),
    {
        if self.seen.contains(flag) {
            false
        } else {
            self.seen.insert(flag.to_string())
        }
    }

    /// Presents each of `flags` in order; the result holds the answer of
    /// each presentation.
    pub fn admit_all(&mut self, flags: &Vec<String>) -> (r: Vec<bool>)
        ensures
            r@.len() == flags@.len(),
            forall|i: int|
                0 <= i < flags@.len() ==> r@[i] == first_presentation(
                    old(self)@,
                    views(flags@),
                    i,
                ),
            final(self)@ == old(self)@ + views(flags@).to_set(),
    {
        let mut r: Vec<bool> = Vec::new();
        let mut i: usize = 0;
        while i < flags.len()
            invariant
                0 <= i <= flags@.len(),
                r@.len() == i,
                forall|k: int|
                    0 <= k < i ==> r@[k] == first_presentation(old(self)@, views(flags@), k),
                self@ == old(self)@ + views(flags@).subrange(0, i as int).to_set(),
            decreases flags@.len() - i,
        {
            proof {
                let fs = views(flags@);
                let before = fs.subrange(0, i as int).to_set();
                assert(fs[i as int] == flags@[i as int]@);
                assert(before.contains(fs[i as int]) <==> exists|j: int|
                    0 <= j < i && fs[j] == fs[i as int]) by {
                    if before.contains(fs[i as int]) {
                        let j = choose|j: int| 0 <= j < i && fs.subrange(0, i as int)[j] == fs[i as int];
                        assert(fs[j] == fs[i as int]);
                    }
                    if exists|j: int| 0 <= j < i && fs[j] == fs[i as int] {
                        let j = choose|j: int| 0 <= j < i && fs[j] == fs[i as int];
                        assert(fs.subrange(0, i as int)[j] == fs[i as int]);
                    }
                }
                assert(fs.subrange(0, i + 1).to_set() == before.insert(fs[i as int])) by {
                    assert(fs.subrange(0, i + 1) == fs.subrange(0, i as int).push(fs[i as int]));
                    fs.subrange(0, i as int).lemma_push_to_set_commute(fs[i as int]);
                }
            }
            let b = self.admit_flag(flags[i].as_str());
            r.push(b);
            i = i + 1;
            proof {
                let fs = views(flags@);
                assert forall|k: int|
                    0 <= k < i implies r@[k] == first_presentation(old(self)@, fs, k) by {}
                assert(old(self)@ + fs.subrange(0, i as int).to_set() =~= (old(self)@
                    + fs.subrange(0, i - 1).to_set()).insert(fs[i - 1]));
            }
        }
        proof {
            assert(views(flags@).subrange(0, flags@.len() as int) == views(flags@));
        }
        r
    }
}

/// Among any number of presentations of one flag value not seen before,
/// the first is admitted and every later one is refused.
pub proof fn lemma_admitted_once(seen: Set<Seq<char>>, flags: Seq<Seq<char>>, f: Seq<char>)
    requires
        !seen.contains(f),
        flags.len() > 0,
        forall|i: int| 0 <= i < flags.len() ==> flags[i] == f,
    ensures
        first_presentation(seen, flags, 0),
        forall|i: int| 0 < i < flags.len() ==> !first_presentation(seen, flags, i),
{
    assert forall|i: int| 0 < i < flags.len() implies !first_presentation(seen, flags, i) by {
        assert(flags[0] == flags[i]);
    }
}

} // verus!
