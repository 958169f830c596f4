//! The local store's catalogue of guides, held in memory: one record per
//! guide id, with the progress of each.
use crate::content::{
    copy_opt_text, entry_views, has_item, is_checked, EntryView, Guide, GuideCatalogEntry,
    GuideView,
};
use crate::error::GuideError;
use crate::sync::{merge_guide, merge_result};
use vstd::prelude::*;

verus! {

/// The views of a run of guides, in order.
pub open spec fn guide_views(guides: Seq<Guide>) -> Seq<GuideView> {
    Seq::new(guides.len(), |i: int| guides[i]@)
}

/// No two guides share an id.
pub open spec fn distinct_guide_ids(s: Seq<GuideView>) -> bool {
    forall|i: int, j: int| 0 <= i < j < s.len() ==> s[i].id != s[j].id
}

/// A catalogue is well formed where guide ids are unique in it and item ids
/// are unique within each guide.
pub open spec fn catalog_wf(s: Seq<GuideView>) -> bool {
    &&& distinct_guide_ids(s)
    &&& forall|i: int| 0 <= i < s.len() ==> (#[trigger] s[i]).wf()
}

/// Some guide of `s` has the id `id`.
pub open spec fn has_guide(s: Seq<GuideView>, id: Seq<char>) -> bool {
    exists|i: int| 0 <= i < s.len() && s[i].id == id
}

/// The guide of `s` with the id `id`, if there is one.
pub open spec fn copy_of(s: Seq<GuideView>, id: Seq<char>) -> Option<GuideView> {
    if has_guide(s, id) {
        Some(s[choose|i: int| 0 <= i < s.len() && s[i].id == id])
    } else {
        None
    }
}

/// `s` with `g` in the place of the guide that has its id, or at the end
/// where there is none.
pub open spec fn upserted(s: Seq<GuideView>, g: GuideView) -> Seq<GuideView> {
    if has_guide(s, g.id) {
        Seq::new(
            s.len(),
            |i: int|
                if s[i].id == g.id {
                    g
                } else {
                    s[i]
                },
        )
    } else {
        s.push(g)
    }
}

/// `s` after the fetched guide `remote` was merged into it.
pub open spec fn synced(s: Seq<GuideView>, remote: GuideView) -> Seq<GuideView> {
    upserted(s, merge_result(copy_of(s, remote.id), remote))
}

/// Guide `guide_id` of `s` has an item `item_id`.
pub open spec fn has_entry(s: Seq<GuideView>, guide_id: Seq<char>, item_id: u64) -> bool {
    exists|i: int| 0 <= i < s.len() && s[i].id == guide_id && has_item(s[i].items, item_id)
}

/// Guide `guide_id` of `s` has an item `item_id` that is checked.
pub open spec fn entry_checked(s: Seq<GuideView>, guide_id: Seq<char>, item_id: u64) -> bool {
    exists|i: int| 0 <= i < s.len() && s[i].id == guide_id && is_checked(s[i].items, item_id)
}

/// `s` after item `item_id` of guide `guide_id` was toggled.
pub open spec fn toggled(s: Seq<GuideView>, guide_id: Seq<char>, item_id: u64) -> Seq<GuideView> {
    Seq::new(
        s.len(),
        |i: int|
            if s[i].id == guide_id {
                s[i].toggled(item_id)
            } else {
                s[i]
            },
    )
}

/// Id and version of each guide of `s`, in order.
pub open spec fn entries_of(s: Seq<GuideView>) -> Seq<EntryView> {
    Seq::new(s.len(), |i: int| EntryView { id: s[i].id, version: s[i].version })
}

/// The locally cached guides, in the order in which they were first saved.
#[derive(Debug)]
pub struct GuideStore {
    guides: Vec<Guide>,
}

impl View for GuideStore {
    type V = Seq<GuideView>;

    closed spec fn view(&self) -> Seq<GuideView> {
        guide_views(self.guides@)
    }
}

/// The place of the guide with id `id` among `guides`, if there is one.
fn position(guides: &Vec<Guide>, id: &String) -> (r: Option<usize>)
    ensures
        r is Some <==> has_guide(guide_views(guides@), id@),
        r matches Some(k) ==> k < guides.len() && guides[k as int]@.id == id@,
{
    let ghost views = guide_views(guides@);
    let mut i: usize = 0;
    while i < guides.len()
        invariant
            i <= guides.len(),
            views == guide_views(guides@),
            forall|a: int| 0 <= a < i ==> views[a].id != id@,
        decreases guides.len() - i,
    {
        if *guides[i].id() == *id {
            assert(views[i as int].id == id@);
            return Some(i);
        }
        i += 1;
    }
    None
}

/// Among distinct ids, the guide found at `k` is the copy that `copy_of` names.
proof fn lemma_copy_at(s: Seq<GuideView>, k: int)
    requires
        distinct_guide_ids(s),
        0 <= k < s.len(),
    ensures
        copy_of(s, s[k].id) == Some(s[k]),
{
}

/// Whether no two of `guides` share an id.
fn guide_ids_are_distinct(guides: &Vec<Guide>) -> (ok: bool)
    ensures
        ok == distinct_guide_ids(guide_views(guides@)),
        forall|i: int| 0 <= i < guides.len() ==> (#[trigger] guide_views(guides@)[i]).wf(),
{
    let ghost views = guide_views(guides@);
    let mut ok = true;
    let mut i: usize = 0;
    while i < guides.len()
        invariant
            i <= guides.len(),
            views == guide_views(guides@),
            ok ==> forall|a: int, b: int| 0 <= a < b < i ==> views[a].id != views[b].id,
            !ok ==> !distinct_guide_ids(views),
            forall|a: int| 0 <= a < i ==> (#[trigger] views[a]).wf(),
        decreases guides.len() - i,
    {
        let id = guides[i].id();
        let mut j: usize = 0;
        while j < i
            invariant
                j <= i < guides.len(),
                views == guide_views(guides@),
                id@ == views[i as int].id,
                ok ==> forall|a: int, b: int| 0 <= a < b < i ==> views[a].id != views[b].id,
                ok ==> forall|a: int| 0 <= a < j ==> views[a].id != views[i as int].id,
                !ok ==> !distinct_guide_ids(views),
            decreases i - j,
        {
            if *guides[j].id() == *id {
                assert(views[j as int].id == views[i as int].id);
                ok = false;
            }
            j += 1;
        }
        i += 1;
    }
    ok
}

/// A copy of a run of guides.
fn copy_guides(guides: &Vec<Guide>) -> (r: Vec<Guide>)
    ensures
        guide_views(r@) == guide_views(guides@),
{
    let mut out: Vec<Guide> = Vec::new();
    let mut i: usize = 0;
    while i < guides.len()
        invariant
            i <= guides.len(),
            out.len() == i,
            forall|a: int| 0 <= a < i ==> (#[trigger] out[a])@ == guides[a]@,
        decreases guides.len() - i,
    {
        out.push(guides[i].clone());
        i += 1;
    }
    out
}

impl Clone for GuideStore {
    fn clone(&self) -> (r: GuideStore)
        ensures
            r@ == self@,
    {
        proof {
            use_type_invariant(self);
        }
        GuideStore { guides: copy_guides(&self.guides) }
    }
}

impl GuideStore {
    #[verifier::type_invariant]
    spec fn inv(self) -> bool {
        catalog_wf(guide_views(self.guides@))
    }

    /// A store without guides.
    pub fn new() -> (r: GuideStore)
        ensures
            r@ == Seq::<GuideView>::empty(),
    {
        let r = GuideStore { guides: Vec::new() };
        r
    }

    /// Opens a store on the records that storage holds. Records in which two
    /// guides share an id are corrupt: `StorageRead`.
    pub fn open(records: Vec<Guide>) -> (r: Result<GuideStore, GuideError>)
        ensures
            match r {
                Ok(s) => distinct_guide_ids(guide_views(records@)) && s@ == guide_views(
                    records@,
                ),
                Err(e) => !distinct_guide_ids(guide_views(records@)) && e
                    == GuideError::StorageRead,
            },
    {
        if guide_ids_are_distinct(&records) {
            Ok(GuideStore { guides: records })
        } else {
            Err(GuideError::StorageRead)
        }
    }

    /// The cached guides in order, each with its check marks as they were
    /// last saved.
    pub fn load_guides(&self) -> (r: Vec<Guide>)
        ensures
            guide_views(r@) == self@,
            catalog_wf(self@),
    {
        proof {
            use_type_invariant(self);
        }
        copy_guides(&self.guides)
    }

    /// Puts `guide` in the place of the record that has its id, or adds it at
    /// the end where the store has no such record.
    pub fn save_guide(&mut self, guide: Guide)
        ensures
            final(self)@ == upserted(old(self)@, guide@),
            catalog_wf(old(self)@),
            catalog_wf(final(self)@),
    {
        proof {
            use_type_invariant(&*self);
        }
        let ghost before = self@;
        let ghost g = guide@;
        let mut guides: Vec<Guide> = Vec::new();
        core::mem::swap(&mut self.guides, &mut guides);
        match position(&guides, guide.id()) {
            Some(k) => {
                guides.set(k, guide);
                proof {
                    let after = guide_views(guides@);
                    assert(after =~= upserted(before, g)) by {
                        assert forall|i: int| 0 <= i < before.len() implies after[i] == upserted(
                            before,
                            g,
                        )[i] by {
                            if i < k {
                                assert(before[i].id != before[k as int].id);
                            } else if k < i {
                                assert(before[k as int].id != before[i].id);
                            }
                        }
                    }
                }
            },
            None => {
                guides.push(guide);
                proof {
                    let after = guide_views(guides@);
                    assert(after =~= before.push(g));
                }
            },
        }
        self.guides = guides;
    }

    /// Flips the check mark of item `item_id` of guide `guide_id` and returns
    /// the item's new state. Where the store has no such guide, or the guide
    /// no such item, nothing changes and the answer is `NotFound`.
    pub fn toggle_item(&mut self, guide_id: &str, item_id: u64) -> (r: Result<bool, GuideError>)
        ensures
            match r {
                Ok(c) => has_entry(old(self)@, guide_id@, item_id) && final(self)@ == toggled(
                    old(self)@,
                    guide_id@,
                    item_id,
                ) && c == entry_checked(final(self)@, guide_id@, item_id) && c != entry_checked(
                    old(self)@,
                    guide_id@,
                    item_id,
                ),
                Err(e) => !has_entry(old(self)@, guide_id@, item_id) && final(self)@ == old(self)@
                    && e == GuideError::NotFound,
            },
            catalog_wf(old(self)@),
            catalog_wf(final(self)@),
    {
        proof {
            use_type_invariant(&*self);
        }
        let ghost before = self@;
        let key = guide_id.to_owned();
        let found = position(&self.guides, &key);
        let k = match found {
            Some(k) => k,
            None => {
                return Err(GuideError::NotFound);
            },
        };
        let mut guide = self.guides[k].clone();
        assert forall|i: int| 0 <= i < before.len() && before[i].id == guide_id@ implies i == k by {
            if i < k {
                assert(before[i].id != before[k as int].id);
            } else if k < i {
                assert(before[k as int].id != before[i].id);
            }
        }
        match guide.toggle_item(item_id) {
            None => Err(GuideError::NotFound),
            Some(c) => {
                let ghost g = guide@;
                let mut guides: Vec<Guide> = Vec::new();
                core::mem::swap(&mut self.guides, &mut guides);
                guides.set(k, guide);
                proof {
                    let after = guide_views(guides@);
                    assert(after[k as int] == g);
                    assert(distinct_guide_ids(after)) by {
                        assert forall|i: int, j: int| 0 <= i < j < after.len() implies after[i].id
                            != after[j].id by {
                            assert(after[i].id == before[i].id && after[j].id == before[j].id);
                        }
                    }
                    assert forall|i: int| 0 <= i < after.len() implies (#[trigger] after[i]).wf() by {
                        if i != k {
                            assert(after[i] == before[i]);
                        }
                    }
                }
                self.guides = guides;
                Ok(c)
            },
        }
    }

    /// Takes in what a fetch of one guide gave. A fetched guide is merged
    /// with the local copy, if there is one, stored in its place and
    /// returned. A failed fetch is handed on, and the store stays as it was.
    pub fn sync_guide(&mut self, fetched: Result<Guide, GuideError>) -> (r: Result<
        Guide,
        GuideError,
    >)
        ensures
            match fetched {
                Ok(remote) => r matches Ok(g) && g@ == merge_result(
                    copy_of(old(self)@, remote@.id),
                    remote@,
                ) && final(self)@ == synced(old(self)@, remote@),
                Err(e) => r matches Err(f) && f == e && final(self)@ == old(self)@,
            },
            catalog_wf(old(self)@),
            catalog_wf(final(self)@),
    {
        proof {
            use_type_invariant(&*self);
        }
        match fetched {
            Ok(remote) => {
                let merged = merge_guide(self.find(remote.id().as_str()), &remote);
                let kept = merged.clone();
                self.save_guide(merged);
                Ok(kept)
            },
            Err(e) => Err(e),
        }
    }

    /// Ends a change that was prepared on a copy: where saving the copy
    /// went well, the copy takes this store's place; where it failed, this
    /// store stays as it was and the failure is handed on. So the store never
    /// holds what storage does not.
    pub fn adopt(&mut self, next: GuideStore, saved: Result<(), GuideError>) -> (r: Result<
        (),
        GuideError,
    >)
        ensures
            r == saved,
            final(self)@ == if saved is Ok {
                next@
            } else {
                old(self)@
            },
    {
        if saved.is_ok() {
            proof {
                use_type_invariant(&next);
            }
            *self = next;
        }
        saved
    }

    /// The number of guides.
    pub fn len(&self) -> (n: usize)
        ensures
            n == self@.len(),
    {
        self.guides.len()
    }

    /// The guides in order, each with its check marks.
    pub fn guides(&self) -> (r: &Vec<Guide>)
        ensures
            guide_views(r@) == self@,
            catalog_wf(self@),
    {
        proof {
            use_type_invariant(self);
        }
        &self.guides
    }

    /// What is known locally of each guide without looking at its content:
    /// its id and its version.
    pub fn entries(&self) -> (r: Vec<GuideCatalogEntry>)
        ensures
            entry_views(r@) == entries_of(self@),
    {
        let ghost want = entries_of(self@);
        let mut out: Vec<GuideCatalogEntry> = Vec::new();
        let mut i: usize = 0;
        while i < self.guides.len()
            invariant
                i <= self.guides.len(),
                want == entries_of(self@),
                out.len() == i,
                forall|a: int| 0 <= a < i ==> (#[trigger] out[a])@ == want[a],
            decreases self.guides.len() - i,
        {
            let g = &self.guides[i];
            out.push(GuideCatalogEntry { id: g.id().clone(), version: copy_opt_text(g.version()) });
            i += 1;
        }
        out
    }

    /// The guide with id `id`, if the store has it.
    pub fn find(&self, id: &str) -> (r: Option<&Guide>)
        ensures
            match r {
                Some(g) => copy_of(self@, id@) == Some(g@),
                None => !has_guide(self@, id@),
            },
            catalog_wf(self@),
    {
        proof {
            use_type_invariant(self);
        }
        let key = id.to_owned();
        match position(&self.guides, &key) {
            Some(k) => {
                proof {
                    lemma_copy_at(self@, k as int);
                }
                Some(&self.guides[k])
            },
            None => None,
        }
    }
}

/// Toggling an item twice restores the catalogue.
pub proof fn toggle_twice_restores(s: Seq<GuideView>, guide_id: Seq<char>, item_id: u64)
    ensures
        toggled(toggled(s, guide_id, item_id), guide_id, item_id) == s,
{
    let once = toggled(s, guide_id, item_id);
    let twice = toggled(once, guide_id, item_id);
    assert forall|i: int| 0 <= i < s.len() implies twice[i] == s[i] by {
        if s[i].id == guide_id {
            assert(twice[i].items =~= s[i].items);
        }
    }
}

/// In a well-formed catalogue a toggle changes what is read back of the item:
/// its check mark after the toggle is the opposite of the one before.
pub proof fn toggle_flips_mark(s: Seq<GuideView>, guide_id: Seq<char>, item_id: u64)
    requires
        catalog_wf(s),
        has_entry(s, guide_id, item_id),
    ensures
        has_entry(toggled(s, guide_id, item_id), guide_id, item_id),
        entry_checked(toggled(s, guide_id, item_id), guide_id, item_id) != entry_checked(
            s,
            guide_id,
            item_id,
        ),
{
    let t = toggled(s, guide_id, item_id);
    let g = choose|g: int| 0 <= g < s.len() && s[g].id == guide_id && has_item(s[g].items, item_id);
    let k = choose|k: int| 0 <= k < s[g].items.len() && s[g].items[k].id == item_id;
    assert(entry_checked(t, guide_id, item_id) == t[g].items[k].checked) by {
        if t[g].items[k].checked {
            assert(is_checked(t[g].items, item_id));
        }
        if entry_checked(t, guide_id, item_id) {
            let i = choose|i: int|
                0 <= i < t.len() && t[i].id == guide_id && is_checked(t[i].items, item_id);
            assert(s[i].id == guide_id);
            let j = choose|j: int|
                0 <= j < t[i].items.len() && t[i].items[j].id == item_id && t[i].items[j].checked;
            assert(s[g].items[j].id == item_id);
        }
    }
}

/// Toggles do not interfere: in either order two toggles give the same
/// catalogue, and a toggle leaves every guide with another id as it was.
pub proof fn toggles_commute(
    s: Seq<GuideView>,
    guide_a: Seq<char>,
    item_a: u64,
    guide_b: Seq<char>,
    item_b: u64,
)
    ensures
        toggled(toggled(s, guide_a, item_a), guide_b, item_b) == toggled(
            toggled(s, guide_b, item_b),
            guide_a,
            item_a,
        ),
        forall|i: int|
            0 <= i < s.len() && s[i].id != guide_a ==> #[trigger] toggled(s, guide_a, item_a)[i]
                == s[i],
{
    let ab = toggled(toggled(s, guide_a, item_a), guide_b, item_b);
    let ba = toggled(toggled(s, guide_b, item_b), guide_a, item_a);
    assert forall|i: int| 0 <= i < s.len() implies ab[i] == ba[i] by {
        assert(ab[i].items =~= ba[i].items);
    }
}

/// Saving a well-formed guide in a well-formed catalogue keeps it well formed,
/// leaves every guide with another id as it was, and makes the saved guide
/// the copy under its id.
pub proof fn upsert_replaces_one(s: Seq<GuideView>, g: GuideView)
    requires
        catalog_wf(s),
        g.wf(),
    ensures
        catalog_wf(upserted(s, g)),
        copy_of(upserted(s, g), g.id) == Some(g),
        forall|i: int| 0 <= i < s.len() && s[i].id != g.id ==> #[trigger] upserted(s, g)[i] == s[i],
        upserted(s, g).len() == if has_guide(s, g.id) {
            s.len()
        } else {
            s.len() + 1
        },
{
    let u = upserted(s, g);
    if has_guide(s, g.id) {
        let k = choose|k: int| 0 <= k < s.len() && s[k].id == g.id;
        lemma_copy_at(u, k);
    } else {
        lemma_copy_at(u, s.len() as int);
    }
}

/// A sync stores one answer whole: afterwards the record under the fetched
/// guide's id has exactly the fetched items, by id and label and in the
/// fetched order, every other guide is as it was, and the catalogue is still
/// well formed.
pub proof fn sync_stores_one_answer(s: Seq<GuideView>, remote: GuideView)
    requires
        catalog_wf(s),
        remote.wf(),
    ensures
        catalog_wf(synced(s, remote)),
        copy_of(synced(s, remote), remote.id) == Some(
            merge_result(copy_of(s, remote.id), remote),
        ),
        merge_result(copy_of(s, remote.id), remote).items.len() == remote.items.len(),
        forall|k: int|
            0 <= k < remote.items.len() ==> (#[trigger] merge_result(
                copy_of(s, remote.id),
                remote,
            ).items[k]).id == remote.items[k].id && merge_result(
                copy_of(s, remote.id),
                remote,
            ).items[k].label == remote.items[k].label,
        forall|i: int|
            0 <= i < s.len() && s[i].id != remote.id ==> #[trigger] synced(s, remote)[i] == s[i],
{
    let m = merge_result(copy_of(s, remote.id), remote);
    upsert_replaces_one(s, m);
}

/// Syncing the same answer a second time changes nothing.
pub proof fn sync_twice_is_sync_once(s: Seq<GuideView>, remote: GuideView)
    requires
        catalog_wf(s),
        remote.wf(),
    ensures
        synced(synced(s, remote), remote) == synced(s, remote),
{
    let m = merge_result(copy_of(s, remote.id), remote);
    sync_stores_one_answer(s, remote);
    assert(merge_result(Some(m), remote).items =~= m.items);
}

} // verus!
