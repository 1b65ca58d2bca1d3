use vstd::prelude::*;

verus! {

/// A set of URLs, each held by its serialization, as a sequence without repeats.
pub struct UrlSet {
    items: Vec<String>,
}

impl UrlSet {
    #[verifier::type_invariant]
    spec fn no_repeats(self) -> bool {
        forall|i: int, j: int|
            0 <= i < j < self.items@.len() ==> #[trigger] self.items@[i]@ != #[trigger] self.items@[j]@
    }

    /// How many URLs the set holds.
    pub closed spec fn size(&self) -> nat {
        self.items@.len()
    }

    pub fn new() -> (s: Self)
        ensures
            s@ == Set::<Seq<char>>::empty(),
            s.size() == 0,
    {
        let s = UrlSet { items: Vec::new() };
        assert(s@ =~= Set::<Seq<char>>::empty());
        s
    }

    pub fn len(&self) -> (n: usize)
        ensures
            n == self.size(),
    {
        self.items.len()
    }

    pub fn contains(&self, url: &str) -> (found: bool)
        ensures
            found == self@.contains(url@),
    {
        let target = url.to_string();
        let n = self.items.len();
        let mut i: usize = 0;
        while i < n
            invariant
                n == self.items@.len(),
                i <= n,
                target@ == url@,
                forall|j: int| 0 <= j < i ==> self.items@[j]@ != url@,
            decreases n - i,
        {
            if self.items[i] == target {
                return true;
            }
            i = i + 1;
        }
        false
    }

    /// Adds the URL; returns whether it was new.
    pub fn insert(&mut self, url: String) -> (added: bool)
        ensures
            added == !old(self)@.contains(url@),
            final(self)@ == old(self)@.insert(url@),
            final(self).size() == old(self).size() + if added { 1int } else { 0int },
    {
        if self.contains(url.as_str()) {
            assert(self@.insert(url@) =~= self@);
            return false;
        }
        proof {
            use_type_invariant(&*self);
        }
        let mut items = Vec::new();
        std::mem::swap(&mut items, &mut self.items);
        let ghost before = items@;
        items.push(url);
        assert forall|i: int, j: int| 0 <= i < j < items@.len() implies #[trigger] items@[i]@ != #[trigger] items@[j]@ by {
            if j == before.len() {
                assert(items@[i] == before[i]);
                if before[i]@ == url@ {
                    assert(old(self)@.contains(url@));
                }
            }
        }
        self.items = items;
        assert forall|u: Seq<char>| #[trigger] self@.contains(u) == old(self)@.insert(url@).contains(u) by {
            if u == url@ {
                assert(self.items@[before.len() as int]@ == u);
            }
            if old(self)@.contains(u) {
                let k = choose|k: int| 0 <= k < before.len() && before[k]@ == u;
                assert(self.items@[k]@ == u);
            }
            if self@.contains(u) && u != url@ {
                let k = choose|k: int| 0 <= k < self.items@.len() && self.items@[k]@ == u;
                assert(before[k]@ == u);
            }
        }
        assert(self@ =~= old(self)@.insert(url@));
        true
    }
}

impl View for UrlSet {
    type V = Set<Seq<char>>;

    closed spec fn view(&self) -> Set<Seq<char>> {
        Set::new(|u: Seq<char>| exists|i: int| 0 <= i < self.items@.len() && self.items@[i]@ == u)
    }
}

} // verus!
