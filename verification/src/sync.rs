//! The catalogue synchroniser: which local copies are out of date, and how a
//! fetched guide takes the place of the local copy without losing progress.
use crate::content::{
    copy_opt_text, distinct_ids, entry_views, has_item, is_checked, item_views, same_opt_text,
    summary_views, EntryView, Guide, GuideCatalogEntry, GuideSummary, GuideView, Item, ItemView,
    SummaryView,
};
use crate::store::{copy_of, guide_views, GuideStore};
use vstd::prelude::*;

verus! {

/// Whether the guide that `entry` names has to be fetched: there is no local
/// copy, or the catalogue gives no version, or the local copy's version is
/// not the catalogue's. Only the version markers are compared, never content.
pub open spec fn stale(entry: EntryView, local: Seq<GuideView>) -> bool {
    match copy_of(local, entry.id) {
        Some(g) => entry.version is None || g.version != entry.version,
        None => true,
    }
}

/// The summaries of the catalogue `remote` against the local guides: one for
/// each entry, in the catalogue's order.
pub open spec fn summaries(remote: Seq<EntryView>, local: Seq<GuideView>) -> Seq<SummaryView> {
    Seq::new(
        remote.len(),
        |k: int|
            SummaryView { id: remote[k].id, version: remote[k].version, stale: stale(remote[k], local) },
    )
}

/// Whether the guide that `entry` names has to be fetched.
pub fn is_stale(entry: &GuideCatalogEntry, local: &GuideStore) -> (r: bool)
    ensures
        r == stale(entry@, local@),
{
    match local.find(entry.id.as_str()) {
        Some(g) => entry.version.is_none() || !same_opt_text(g.version(), &entry.version),
        None => true,
    }
}

/// Lists the remote catalogue with a verdict on each local copy.
pub fn list_guides(remote_entries: &Vec<GuideCatalogEntry>, local: &GuideStore) -> (r: Vec<
    GuideSummary,
>)
    ensures
        summary_views(r@) == summaries(entry_views(remote_entries@), local@),
{
    let ghost want = summaries(entry_views(remote_entries@), local@);
    let mut out: Vec<GuideSummary> = Vec::new();
    let mut k: usize = 0;
    while k < remote_entries.len()
        invariant
            k <= remote_entries.len(),
            want == summaries(entry_views(remote_entries@), local@),
            out.len() == k,
            forall|a: int| 0 <= a < k ==> (#[trigger] out[a])@ == want[a],
        decreases remote_entries.len() - k,
    {
        let entry = &remote_entries[k];
        let flag = is_stale(entry, local);
        out.push(
            GuideSummary {
                id: entry.id.clone(),
                version: copy_opt_text(&entry.version),
                stale: flag,
            },
        );
        k += 1;
    }
    out
}

/// The items of a fetched guide after the merge with the local copy's items:
/// the remote ids and labels in the remote order, each checked exactly where
/// the local copy had that id checked. Check marks that the remote copy
/// carries count for nothing.
pub open spec fn merged_items(local: Seq<ItemView>, remote: Seq<ItemView>) -> Seq<ItemView> {
    Seq::new(
        remote.len(),
        |k: int|
            ItemView {
                id: remote[k].id,
                label: remote[k].label,
                checked: is_checked(local, remote[k].id),
            },
    )
}

/// The fetched guide `remote` with the progress of the local copy `local`.
pub open spec fn merged(local: GuideView, remote: GuideView) -> GuideView {
    GuideView { items: merged_items(local.items, remote.items), ..remote }
}

/// The fetched guide `remote` where there is no local copy: nothing is
/// checked.
pub open spec fn first_copy(remote: GuideView) -> GuideView {
    GuideView { items: merged_items(Seq::empty(), remote.items), ..remote }
}

/// What `merge_guide` returns.
pub open spec fn merge_result(local: Option<GuideView>, remote: GuideView) -> GuideView {
    match local {
        Some(l) => merged(l, remote),
        None => first_copy(remote),
    }
}

/// Merges a fetched guide with the local copy, if there is one.
///
/// The result has the remote id, title, version and items. An item is checked
/// exactly where the local copy has an item of the same id that is checked.
/// Items that only the local copy has are gone, and their check marks with
/// them.
pub fn merge_guide(local: Option<&Guide>, remote: &Guide) -> (r: Guide)
    ensures
        r@ == merge_result(
            match local {
                Some(l) => Some(l@),
                None => None,
            },
            remote@,
        ),
{
    let fetched = remote.items();
    let ghost local_items: Seq<ItemView> = match local {
        Some(l) => l@.items,
        None => Seq::empty(),
    };
    let ghost want = merged_items(local_items, remote@.items);
    let mut items: Vec<Item> = Vec::new();
    let mut k: usize = 0;
    while k < fetched.len()
        invariant
            k <= fetched.len(),
            item_views(fetched@) == remote@.items,
            want == merged_items(local_items, remote@.items),
            local_items == match local {
                Some(l) => l@.items,
                None => Seq::<ItemView>::empty(),
            },
            items.len() == k,
            forall|a: int| 0 <= a < k ==> (#[trigger] items[a])@ == want[a],
        decreases fetched.len() - k,
    {
        let id = fetched[k].id;
        let checked = match local {
            Some(l) => match l.item_checked(id) {
                Some(c) => c,
                None => false,
            },
            None => false,
        };
        items.push(Item { id, label: fetched[k].label.clone(), checked });
        k += 1;
    }
    proof {
        assert(item_views(items@) =~= want);
    }
    let version = copy_opt_text(remote.version());
    Guide::new(remote.id().clone(), remote.title().clone(), version, items).unwrap()
}

/// The ids of the items whose check marks a merge loses: the checked items
/// of the local copy that the fetched guide no longer has, in local order.
pub open spec fn lost_marks(local: Seq<ItemView>, remote: Seq<ItemView>) -> Seq<u64>
    decreases local.len(),
{
    if local.len() == 0 {
        Seq::empty()
    } else if local.last().checked && !has_item(remote, local.last().id) {
        lost_marks(local.drop_last(), remote).push(local.last().id)
    } else {
        lost_marks(local.drop_last(), remote)
    }
}

/// Names the progress that merging `remote` into `local` gives up, so that
/// the user can be told of it: the ids of the checked local items that the
/// fetched guide no longer has.
pub fn lost_progress(local: &Guide, remote: &Guide) -> (r: Vec<u64>)
    ensures
        r@ == lost_marks(local@.items, remote@.items),
{
    let mine = local.items();
    let ghost views = item_views(mine@);
    let mut out: Vec<u64> = Vec::new();
    let mut i: usize = 0;
    while i < mine.len()
        invariant
            i <= mine.len(),
            views == item_views(mine@),
            views == local@.items,
            out@ == lost_marks(views.take(i as int), remote@.items),
        decreases mine.len() - i,
    {
        let it = &mine[i];
        proof {
            assert(views.take(i + 1).drop_last() =~= views.take(i as int));
        }
        if it.checked && remote.item_checked(it.id).is_none() {
            out.push(it.id);
        }
        i += 1;
    }
    assert(views.take(mine.len() as int) =~= views);
    out
}

/// Some entry of `remote` has the id `id`.
pub open spec fn lists(remote: Seq<EntryView>, id: Seq<char>) -> bool {
    exists|i: int| 0 <= i < remote.len() && remote[i].id == id
}

/// The ids of the local guides that the catalogue `remote` does not list, in
/// local order.
pub open spec fn unlisted_ids(local: Seq<GuideView>, remote: Seq<EntryView>) -> Seq<Seq<char>>
    decreases local.len(),
{
    if local.len() == 0 {
        Seq::empty()
    } else if !lists(remote, local.last().id) {
        unlisted_ids(local.drop_last(), remote).push(local.last().id)
    } else {
        unlisted_ids(local.drop_last(), remote)
    }
}

/// The views of a run of texts, in order.
pub open spec fn text_views(texts: Seq<String>) -> Seq<Seq<char>> {
    Seq::new(texts.len(), |i: int| texts[i]@)
}

/// Whether some entry of `remote_entries` has the id `id`.
fn is_listed(remote_entries: &Vec<GuideCatalogEntry>, id: &String) -> (r: bool)
    ensures
        r == lists(entry_views(remote_entries@), id@),
{
    let ghost views = entry_views(remote_entries@);
    let mut i: usize = 0;
    while i < remote_entries.len()
        invariant
            i <= remote_entries.len(),
            views == entry_views(remote_entries@),
            forall|a: int| 0 <= a < i ==> views[a].id != id@,
        decreases remote_entries.len() - i,
    {
        if remote_entries[i].id == *id {
            assert(views[i as int].id == id@);
            return true;
        }
        i += 1;
    }
    false
}

/// Names the local guides that the remote catalogue has dropped. They are
/// no longer listed, but the store keeps them and their progress: the caller
/// tells the user instead of deleting anything.
pub fn unlisted_guides(remote_entries: &Vec<GuideCatalogEntry>, local: &GuideStore) -> (r: Vec<
    String,
>)
    ensures
        text_views(r@) == unlisted_ids(local@, entry_views(remote_entries@)),
{
    let guides = local.guides();
    let ghost views = guide_views(guides@);
    let ghost remote = entry_views(remote_entries@);
    let mut out: Vec<String> = Vec::new();
    let mut i: usize = 0;
    while i < guides.len()
        invariant
            i <= guides.len(),
            views == guide_views(guides@),
            remote == entry_views(remote_entries@),
            text_views(out@) == unlisted_ids(views.take(i as int), remote),
        decreases guides.len() - i,
    {
        let g = &guides[i];
        proof {
            assert(views.take(i + 1).drop_last() =~= views.take(i as int));
        }
        if !is_listed(remote_entries, g.id()) {
            out.push(g.id().clone());
        }
        i += 1;
    }
    assert(views.take(guides.len() as int) =~= views);
    out
}

/// A merged item has the check mark of the local item that shares its id:
/// where item `k` of the fetched guide and item `j` of a well-formed local
/// copy have one id, item `k` of the result is checked exactly if local item
/// `j` is.
pub proof fn merge_carries_mark(local: GuideView, remote: GuideView, j: int, k: int)
    requires
        local.wf(),
        0 <= j < local.items.len(),
        0 <= k < remote.items.len(),
        local.items[j].id == remote.items[k].id,
    ensures
        merged(local, remote).items[k].id == remote.items[k].id,
        merged(local, remote).items[k].label == remote.items[k].label,
        merged(local, remote).items[k].checked == local.items[j].checked,
{
}

/// An item that only the fetched guide has starts unchecked.
pub proof fn merge_starts_new_items_unchecked(local: GuideView, remote: GuideView, k: int)
    requires
        0 <= k < remote.items.len(),
        !has_item(local.items, remote.items[k].id),
    ensures
        merged(local, remote).items[k].id == remote.items[k].id,
        !merged(local, remote).items[k].checked,
{
}

/// An item that the fetched guide no longer has is gone after the merge, and
/// its check mark with it.
pub proof fn merge_drops_removed_items(local: GuideView, remote: GuideView, id: u64)
    requires
        !has_item(remote.items, id),
    ensures
        !has_item(merged(local, remote).items, id),
        !is_checked(merged(local, remote).items, id),
{
}

/// The merge has exactly the items of the fetched guide, by id and label and
/// in its order, and is well formed where the fetched guide is.
pub proof fn merge_has_remote_items(local: GuideView, remote: GuideView)
    ensures
        merged(local, remote).id == remote.id,
        merged(local, remote).title == remote.title,
        merged(local, remote).version == remote.version,
        merged(local, remote).items.len() == remote.items.len(),
        forall|k: int|
            0 <= k < remote.items.len() ==> (#[trigger] merged(local, remote).items[k]).id
                == remote.items[k].id && merged(local, remote).items[k].label
                == remote.items[k].label,
        remote.wf() ==> merged(local, remote).wf(),
{
}

/// Merging the same fetched guide a second time changes nothing.
pub proof fn merge_twice_is_merge_once(local: GuideView, remote: GuideView)
    ensures
        merged(merged(local, remote), remote) == merged(local, remote),
{
    assert(merged(merged(local, remote), remote).items =~= merged(local, remote).items);
}

/// A local copy is fresh exactly where the catalogue gives a version and the
/// copy has that very version: in a well-formed catalogue that holds guide
/// `g` at place `i`, an entry for `g` is stale unless both versions are
/// present and equal.
pub proof fn stale_unless_same_version(entry: EntryView, local: Seq<GuideView>, i: int)
    requires
        crate::store::distinct_guide_ids(local),
        0 <= i < local.len(),
        local[i].id == entry.id,
    ensures
        stale(entry, local) <==> !(entry.version is Some && local[i].version == entry.version),
{
}

/// Without a local copy the guide is stale, whatever the versions.
pub proof fn stale_without_local_copy(entry: EntryView, local: Seq<GuideView>)
    requires
        !crate::store::has_guide(local, entry.id),
    ensures
        stale(entry, local),
{
}

} // verus!
