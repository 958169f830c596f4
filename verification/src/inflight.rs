//! Which guides are being synchronised right now.
//!
//! Writes to one guide's record are serialised: while a sync of a guide is
//! under way, a second request for the same guide does not start another,
//! it waits for the first. Guides with different ids do not wait for each
//! other.
use vstd::prelude::*;

verus! {

/// Some text of `ids` is `id`.
pub open spec fn names(ids: Seq<String>, id: Seq<char>) -> bool {
    exists|i: int| 0 <= i < ids.len() && ids[i]@ == id
}

/// The ids of the guides whose sync is under way. Its view is that set.
#[derive(Debug)]
pub struct SyncRegistry {
    active: Vec<String>,
}

impl View for SyncRegistry {
    type V = Set<Seq<char>>;

    closed spec fn view(&self) -> Set<Seq<char>> {
        Set::new(|id: Seq<char>| names(self.active@, id))
    }
}

/// Whether some text of `ids` is `id`.
fn holds(ids: &Vec<String>, id: &String) -> (r: bool)
    ensures
        r == names(ids@, id@),
{
    let mut i: usize = 0;
    while i < ids.len()
        invariant
            i <= ids.len(),
            forall|a: int| 0 <= a < i ==> ids[a]@ != id@,
        decreases ids.len() - i,
    {
        if ids[i] == *id {
            return true;
        }
        i += 1;
    }
    false
}

impl SyncRegistry {
    /// A registry with no sync under way.
    pub fn new() -> (r: SyncRegistry)
        ensures
            r@ == Set::<Seq<char>>::empty(),
    {
        let r = SyncRegistry { active: Vec::new() };
        r
    }

    /// Whether a sync of guide `id` is under way.
    pub fn is_active(&self, id: &str) -> (r: bool)
        ensures
            r == self@.contains(id@),
    {
        let key = id.to_owned();
        holds(&self.active, &key)
    }

    /// Asks to start a sync of guide `id`. `true`: none was under way, and
    /// the caller's is now. `false`: one is under way already, and the caller
    /// has to wait for it and take its result.
    pub fn begin(&mut self, id: &str) -> (started: bool)
        ensures
            started == !old(self)@.contains(id@),
            final(self)@ == old(self)@.insert(id@),
    {
        let key = id.to_owned();
        if holds(&self.active, &key) {
            false
        } else {
            let ghost before = self.active@;
            self.active.push(key);
            assert(self@ =~= old(self)@.insert(id@)) by {
                assert forall|q: Seq<char>| self@.contains(q) == old(self)@.insert(id@).contains(
                    q,
                ) by {
                    if names(before, q) {
                        let i = choose|i: int| 0 <= i < before.len() && before[i]@ == q;
                        assert(self.active@[i]@ == q);
                    }
                    if q == id@ {
                        assert(self.active@[before.len() as int]@ == q);
                    }
                    if names(self.active@, q) && q != id@ {
                        let i = choose|i: int| 0 <= i < self.active@.len() && self.active@[i]@ == q;
                        assert(before[i]@ == q);
                    }
                }
            }
            true
        }
    }

    /// Records that the sync of guide `id` has ended, with or without
    /// success. Answers whether one was under way.
    pub fn finish(&mut self, id: &str) -> (was_active: bool)
        ensures
            was_active == old(self)@.contains(id@),
            final(self)@ == old(self)@.remove(id@),
    {
        let key = id.to_owned();
        let was_active = holds(&self.active, &key);
        let ghost before = self.active@;
        let mut kept: Vec<String> = Vec::new();
        let mut i: usize = 0;
        while i < self.active.len()
            invariant
                i <= self.active.len(),
                self.active@ == before,
                key@ == id@,
                forall|a: int| 0 <= a < kept.len() ==> (#[trigger] kept[a])@ != id@ && names(
                    before,
                    kept[a]@,
                ),
                forall|a: int|
                    0 <= a < i && (#[trigger] before[a])@ != id@ ==> names(kept@, before[a]@),
            decreases self.active.len() - i,
        {
            if self.active[i] != key {
                let ghost prior = kept@;
                kept.push(self.active[i].clone());
                proof {
                    assert(kept@[prior.len() as int]@ == before[i as int]@);
                    assert forall|a: int|
                        0 <= a < i + 1 && (#[trigger] before[a])@ != id@ implies names(
                        kept@,
                        before[a]@,
                    ) by {
                        if a < i {
                            let j = choose|j: int| 0 <= j < prior.len() && prior[j]@ == before[a]@;
                            assert(kept@[j]@ == before[a]@);
                        }
                    }
                }
            }
            i += 1;
        }
        self.active = kept;
        was_active
    }
}

} // verus!
