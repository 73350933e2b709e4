//! Sets of strings.
use crate::text;
use vstd::prelude::*;

verus! {

/// The first of these texts that is not in the set, if there is one.
pub open spec fn first_missing(set: Set<Seq<char>>, ids: Seq<Seq<char>>) -> Option<Seq<char>>
    decreases ids.len(),
{
    if ids.len() == 0 {
        None
    } else if !set.contains(ids[0]) {
        Some(ids[0])
    } else {
        first_missing(set, ids.drop_first())
    }
}

/// Nothing is missing exactly where every text is in the set.
pub proof fn lemma_none_missing(set: Set<Seq<char>>, ids: Seq<Seq<char>>)
    ensures
        first_missing(set, ids) is None <==> forall|i: int|
            0 <= i < ids.len() ==> set.contains(#[trigger] ids[i]),
    decreases ids.len(),
{
    if ids.len() > 0 {
        let rest = ids.drop_first();
        lemma_none_missing(set, rest);
        if first_missing(set, ids) is None {
            assert forall|i: int| 0 <= i < ids.len() implies set.contains(#[trigger] ids[i]) by {
                if i > 0 {
                    assert(ids[i] == rest[i - 1]);
                }
            }
        }
        if forall|i: int| 0 <= i < ids.len() ==> set.contains(#[trigger] ids[i]) {
            assert(set.contains(ids[0]));
            assert forall|i: int| 0 <= i < rest.len() implies set.contains(#[trigger] rest[i]) by {
                assert(rest[i] == ids[i + 1]);
            }
        }
    }
}

/// A set of strings: a list in which no text occurs twice.
#[derive(Debug)]
pub struct StringSet {
    items: Vec<String>,
}

impl View for StringSet {
    type V = Set<Seq<char>>;

    closed spec fn view(&self) -> Set<Seq<char>> {
        text::texts(self.items@).to_set()
    }
}

impl StringSet {
    #[verifier::type_invariant]
    spec fn holds_no_text_twice(self) -> bool {
        text::texts(self.items@).no_duplicates()
    }

    /// The empty set.
    pub fn new() -> (r: Self)
        ensures
            r@ == Set::<Seq<char>>::empty(),
    {
        let r = StringSet { items: Vec::new() };
        assert(r@ =~= Set::<Seq<char>>::empty());
        r
    }

    /// Tells whether a text is in the set.
    pub fn contains(&self, id: &str) -> (r: bool)
        ensures
            r == self@.contains(id@),
    {
        let mut i: usize = 0;
        while i < self.items.len()
            invariant
                i <= self.items@.len(),
                forall|k: int| 0 <= k < i ==> id@ != #[trigger] self.items@[k]@,
            decreases self.items@.len() - i,
        {
            if text::same(id, self.items[i].as_str()) {
                assert(text::texts(self.items@)[i as int] == id@);
                return true;
            }
            i += 1;
        }
        proof {
            if self@.contains(id@) {
                let k = choose|k: int|
                    0 <= k < text::texts(self.items@).len() && text::texts(self.items@)[k] == id@;
                assert(self.items@[k]@ == id@);
            }
        }
        false
    }

    /// Puts a text into the set.
    pub fn insert(&mut self, id: &str)
        ensures
            final(self)@ == old(self)@.insert(id@),
    {
        if self.contains(id) {
            assert(self@ =~= self@.insert(id@));
            return;
        }
        proof {
            use_type_invariant(&*self);
        }
        let mut items: Vec<String> = Vec::new();
        std::mem::swap(&mut items, &mut self.items);
        let ghost before = text::texts(items@);
        items.push(id.to_owned());
        proof {
            assert(text::texts(items@) =~= before.push(id@));
            assert(before.push(id@).no_duplicates()) by {
                assert forall|i: int, j: int|
                    0 <= i < before.push(id@).len() && 0 <= j < before.push(id@).len() && i
                        != j implies before.push(id@)[i] != before.push(id@)[j] by {
                    assert(!before.contains(id@));
                }
            }
            assert(before.push(id@).to_set() =~= before.to_set().insert(id@)) by {
                assert forall|t: Seq<char>|
                    before.push(id@).contains(t) == (before.contains(t) || t == id@) by {
                    if before.contains(t) {
                        let k = choose|k: int| 0 <= k < before.len() && before[k] == t;
                        assert(before.push(id@)[k] == t);
                    }
                    if t == id@ {
                        assert(before.push(id@)[before.len() as int] == t);
                    }
                }
            }
        }
        self.items = items;
    }

    /// The set of these texts.
    pub fn of(ids: &[&str]) -> (r: Self)
        ensures
            r@ == text::slices(ids@).to_set(),
    {
        let mut r = StringSet::new();
        let mut i: usize = 0;
        assert(text::slices(ids@).take(0).to_set() =~= Set::<Seq<char>>::empty());
        while i < ids.len()
            invariant
                i <= ids@.len(),
                r@ == text::slices(ids@).take(i as int).to_set(),
            decreases ids@.len() - i,
        {
            r.insert(ids[i]);
            proof {
                let all = text::slices(ids@);
                let before = all.take(i as int);
                let after = all.take(i + 1);
                assert(after =~= before.push(all[i as int]));
                assert forall|t: Seq<char>|
                    after.contains(t) == (before.contains(t) || t == all[i as int]) by {
                    if before.contains(t) {
                        let k = choose|k: int| 0 <= k < before.len() && before[k] == t;
                        assert(after[k] == t);
                    }
                    if t == all[i as int] {
                        assert(after[i as int] == t);
                    }
                }
                assert(after.to_set() =~= before.to_set().insert(all[i as int]));
            }
            i += 1;
        }
        assert(text::slices(ids@).take(ids@.len() as int) =~= text::slices(ids@));
        r
    }

    /// The position of the first of these strings that is not in the set.
    pub fn first_missing(&self, ids: &Vec<String>) -> (r: Option<usize>)
        ensures
            match r {
                Some(i) => i < ids@.len() && first_missing(self@, text::texts(ids@)) == Some(
                    ids@[i as int]@,
                ),
                None => first_missing(self@, text::texts(ids@)) is None,
            },
    {
        let mut i: usize = 0;
        let ghost all = text::texts(ids@);
        assert(all.skip(0) =~= all);
        while i < ids.len()
            invariant
                i <= ids@.len(),
                all == text::texts(ids@),
                first_missing(self@, all) == first_missing(self@, all.skip(i as int)),
            decreases ids@.len() - i,
        {
            assert(all.skip(i as int)[0] == ids@[i as int]@);
            if !self.contains(ids[i].as_str()) {
                return Some(i);
            }
            assert(all.skip(i as int).drop_first() =~= all.skip(i + 1));
            i += 1;
        }
        None
    }
}

/// The first text missing is one of the texts, is not in the set, and every text
/// before it is.
pub proof fn law_first_missing(set: Set<Seq<char>>, ids: Seq<Seq<char>>)
    ensures
        first_missing(set, ids) matches Some(id) ==> exists|i: int|
            {
                &&& 0 <= i < ids.len()
                &&& #[trigger] ids[i] == id
                &&& !set.contains(id)
                &&& forall|j: int| 0 <= j < i ==> set.contains(#[trigger] ids[j])
            },
    decreases ids.len(),
{
    if ids.len() > 0 && set.contains(ids[0]) && first_missing(set, ids) is Some {
        let rest = ids.drop_first();
        law_first_missing(set, rest);
        let id = first_missing(set, ids)->0;
        let i = choose|i: int|
            {
                &&& 0 <= i < rest.len()
                &&& #[trigger] rest[i] == id
                &&& !set.contains(id)
                &&& forall|j: int| 0 <= j < i ==> set.contains(#[trigger] rest[j])
            };
        assert(ids[i + 1] == id);
        assert forall|j: int| 0 <= j < i + 1 implies set.contains(#[trigger] ids[j]) by {
            if j > 0 {
                assert(rest[j - 1] == ids[j]);
            }
        }
    } else if ids.len() > 0 && first_missing(set, ids) is Some {
        assert(ids[0] == first_missing(set, ids)->0);
    }
}

} // verus!
