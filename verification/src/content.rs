//! The content model: guides, their items, and catalogue entries.
use crate::error::GuideError;
use vstd::prelude::*;

verus! {

/// An item as contracts see it.
pub struct ItemView {
    pub id: u64,
    pub label: Seq<char>,
    pub checked: bool,
}

/// One step of a guide. `checked` is local progress: the remote catalogue
/// never has a say in it.
#[derive(Debug, PartialEq, Eq)]
pub struct Item {
    pub id: u64,
    pub label: String,
    pub checked: bool,
}

impl View for Item {
    type V = ItemView;

    open spec fn view(&self) -> ItemView {
        ItemView { id: self.id, label: self.label@, checked: self.checked }
    }
}

impl Clone for Item {
    fn clone(&self) -> (r: Item)
        ensures
            r == *self,
    {
        Item { id: self.id, label: self.label.clone(), checked: self.checked }
    }
}

/// The views of a run of items, in order.
pub open spec fn item_views(items: Seq<Item>) -> Seq<ItemView> {
    Seq::new(items.len(), |i: int| items[i]@)
}

/// No two items share an id.
pub open spec fn distinct_ids(items: Seq<ItemView>) -> bool {
    forall|i: int, j: int| 0 <= i < j < items.len() ==> items[i].id != items[j].id
}

/// Some item of `items` has the id `id`.
pub open spec fn has_item(items: Seq<ItemView>, id: u64) -> bool {
    exists|i: int| 0 <= i < items.len() && items[i].id == id
}

/// Some item of `items` has the id `id` and is checked.
pub open spec fn is_checked(items: Seq<ItemView>, id: u64) -> bool {
    exists|i: int| 0 <= i < items.len() && items[i].id == id && items[i].checked
}

/// `items` with the check mark flipped on every item whose id is `id`; among
/// distinct ids that is at most one item.
pub open spec fn toggled_items(items: Seq<ItemView>, id: u64) -> Seq<ItemView> {
    Seq::new(
        items.len(),
        |i: int|
            if items[i].id == id {
                ItemView { checked: !items[i].checked, ..items[i] }
            } else {
                items[i]
            },
    )
}

/// The view of an optional text.
pub open spec fn opt_text(t: Option<String>) -> Option<Seq<char>> {
    match t {
        Some(s) => Some(s@),
        None => None,
    }
}

/// A guide as contracts see it.
pub struct GuideView {
    pub id: Seq<char>,
    pub title: Seq<char>,
    pub version: Option<Seq<char>>,
    pub items: Seq<ItemView>,
}

impl GuideView {
    /// Item ids are unique within the guide.
    pub open spec fn wf(self) -> bool {
        distinct_ids(self.items)
    }

    /// The guide after the item `item_id` was toggled.
    pub open spec fn toggled(self, item_id: u64) -> GuideView {
        GuideView { items: toggled_items(self.items, item_id), ..self }
    }
}

/// A copy of an optional text.
pub(crate) fn copy_opt_text(t: &Option<String>) -> (r: Option<String>)
    ensures
        r == *t,
{
    match t {
        Some(s) => Some(s.clone()),
        None => None,
    }
}

/// Whether two optional texts are both absent or both present and equal.
pub fn same_opt_text(a: &Option<String>, b: &Option<String>) -> (r: bool)
    ensures
        r == (opt_text(*a) == opt_text(*b)),
{
    match (a, b) {
        (Some(x), Some(y)) => *x == *y,
        (None, None) => true,
        _ => false,
    }
}

/// A copy of a run of items.
fn copy_items(items: &Vec<Item>) -> (r: Vec<Item>)
    ensures
        r@ == items@,
{
    let mut out: Vec<Item> = Vec::new();
    let mut i: usize = 0;
    while i < items.len()
        invariant
            i <= items.len(),
            out@ == items@.subrange(0, i as int),
        decreases items.len() - i,
    {
        out.push(items[i].clone());
        i += 1;
    }
    out
}

/// The place of the item with id `id` among `items`, if there is one.
pub fn find_item(items: &Vec<Item>, id: u64) -> (r: Option<usize>)
    ensures
        r is Some <==> has_item(item_views(items@), id),
        r matches Some(k) ==> k < items.len() && items[k as int].id == id,
{
    let ghost views = item_views(items@);
    let mut i: usize = 0;
    while i < items.len()
        invariant
            i <= items.len(),
            views == item_views(items@),
            forall|a: int| 0 <= a < i ==> views[a].id != id,
        decreases items.len() - i,
    {
        if items[i].id == id {
            assert(views[i as int].id == id);
            return Some(i);
        }
        i += 1;
    }
    None
}

/// A guide: an ordered run of items under a server-assigned id.
///
/// The id is the guide's identity; neither its title nor its place in a list
/// is. Within a guide no two items share an id.
#[derive(Debug, PartialEq, Eq)]
pub struct Guide {
    id: String,
    title: String,
    version: Option<String>,
    items: Vec<Item>,
}

impl View for Guide {
    type V = GuideView;

    closed spec fn view(&self) -> GuideView {
        GuideView {
            id: self.id@,
            title: self.title@,
            version: opt_text(self.version),
            items: item_views(self.items@),
        }
    }
}

/// Whether no two of `items` share an id.
pub fn ids_are_distinct(items: &Vec<Item>) -> (ok: bool)
    ensures
        ok == distinct_ids(item_views(items@)),
{
    let ghost views = item_views(items@);
    let mut i: usize = 0;
    while i < items.len()
        invariant
            i <= items.len(),
            views == item_views(items@),
            forall|a: int, b: int| 0 <= a < b < i ==> views[a].id != views[b].id,
        decreases items.len() - i,
    {
        let mut j: usize = 0;
        while j < i
            invariant
                j <= i < items.len(),
                views == item_views(items@),
                forall|a: int| 0 <= a < j ==> views[a].id != views[i as int].id,
            decreases i - j,
        {
            if items[j].id == items[i].id {
                assert(views[j as int].id == views[i as int].id);
                return false;
            }
            j += 1;
        }
        i += 1;
    }
    true
}

impl Guide {
    #[verifier::type_invariant]
    spec fn inv(self) -> bool {
        distinct_ids(item_views(self.items@))
    }

    /// Builds a guide, or `None` where two of `items` share an id.
    pub fn new(id: String, title: String, version: Option<String>, items: Vec<Item>) -> (r: Option<
        Guide,
    >)
        ensures
            r is Some <==> distinct_ids(item_views(items@)),
            r matches Some(g) ==> g@ == (GuideView {
                id: id@,
                title: title@,
                version: opt_text(version),
                items: item_views(items@),
            }),
    {
        if ids_are_distinct(&items) {
            Some(Guide { id, title, version, items })
        } else {
            None
        }
    }

    /// Builds a guide from what the server sent. An answer in which two
    /// items share an id is malformed: `Decode`.
    pub fn from_remote(
        id: String,
        title: String,
        version: Option<String>,
        items: Vec<Item>,
    ) -> (r: Result<Guide, GuideError>)
        ensures
            match r {
                Ok(g) => distinct_ids(item_views(items@)) && g@ == (GuideView {
                    id: id@,
                    title: title@,
                    version: opt_text(version),
                    items: item_views(items@),
                }),
                Err(e) => !distinct_ids(item_views(items@)) && e == GuideError::Decode,
            },
    {
        match Guide::new(id, title, version, items) {
            Some(g) => Ok(g),
            None => Err(GuideError::Decode),
        }
    }

    /// Builds a guide from a stored record. A record in which two items
    /// share an id is corrupt: `StorageRead`.
    pub fn from_storage(
        id: String,
        title: String,
        version: Option<String>,
        items: Vec<Item>,
    ) -> (r: Result<Guide, GuideError>)
        ensures
            match r {
                Ok(g) => distinct_ids(item_views(items@)) && g@ == (GuideView {
                    id: id@,
                    title: title@,
                    version: opt_text(version),
                    items: item_views(items@),
                }),
                Err(e) => !distinct_ids(item_views(items@)) && e == GuideError::StorageRead,
            },
    {
        match Guide::new(id, title, version, items) {
            Some(g) => Ok(g),
            None => Err(GuideError::StorageRead),
        }
    }

    /// The server-assigned id.
    pub fn id(&self) -> (r: &String)
        ensures
            r@ == self@.id,
            self@.wf(),
    {
        proof {
            use_type_invariant(self);
        }
        &self.id
    }

    /// The title.
    pub fn title(&self) -> (r: &String)
        ensures
            r@ == self@.title,
    {
        &self.title
    }

    /// The version marker, where the server gave one.
    pub fn version(&self) -> (r: &Option<String>)
        ensures
            opt_text(*r) == self@.version,
    {
        &self.version
    }

    /// Whether the item `item_id` is checked; `None` where the guide has no
    /// such item.
    pub fn item_checked(&self, item_id: u64) -> (r: Option<bool>)
        ensures
            r is Some <==> has_item(self@.items, item_id),
            r matches Some(c) ==> c == is_checked(self@.items, item_id),
    {
        proof {
            use_type_invariant(self);
        }
        let ghost views = item_views(self.items@);
        match find_item(&self.items, item_id) {
            Some(k) => {
                let c = self.items[k].checked;
                assert(views[k as int].id == item_id && views[k as int].checked == c);
                Some(c)
            },
            None => None,
        }
    }

    /// Flips the check mark of the item `item_id` and returns its new state;
    /// `None`, and nothing changed, where the guide has no such item.
    pub fn toggle_item(&mut self, item_id: u64) -> (r: Option<bool>)
        ensures
            r is Some <==> has_item(old(self)@.items, item_id),
            r is Some ==> final(self)@ == old(self)@.toggled(item_id),
            r is None ==> final(self)@ == old(self)@,
            r matches Some(c) ==> c == is_checked(final(self)@.items, item_id),
            r matches Some(c) ==> c != is_checked(old(self)@.items, item_id),
            final(self)@.wf(),
    {
        proof {
            use_type_invariant(&*self);
        }
        let ghost before = item_views(self.items@);
        match find_item(&self.items, item_id) {
            Some(k) => {
                let c = !self.items[k].checked;
                let flipped = Item { id: item_id, label: self.items[k].label.clone(), checked: c };
                let mut items: Vec<Item> = Vec::new();
                core::mem::swap(&mut self.items, &mut items);
                items.set(k, flipped);
                proof {
                    let after = item_views(items@);
                    assert(after =~= toggled_items(before, item_id)) by {
                        assert forall|i: int| 0 <= i < before.len() implies after[i]
                            == toggled_items(before, item_id)[i] by {
                            if i != k {
                                assert(before[i].id != before[k as int].id);
                            }
                        }
                    }
                    assert(after[k as int].id == item_id && after[k as int].checked == c);
                }
                self.items = items;
                Some(c)
            },
            None => None,
        }
    }

    /// The items in order.
    pub fn items(&self) -> (r: &Vec<Item>)
        ensures
            item_views(r@) == self@.items,
            self@.wf(),
    {
        proof {
            use_type_invariant(self);
        }
        &self.items
    }
}

/// A catalogue entry as contracts see it.
pub struct EntryView {
    pub id: Seq<char>,
    pub version: Option<Seq<char>>,
}

/// What a catalogue says of one guide: its id and, where the server gives
/// one, its version marker.
#[derive(Debug, PartialEq, Eq)]
pub struct GuideCatalogEntry {
    pub id: String,
    pub version: Option<String>,
}

impl View for GuideCatalogEntry {
    type V = EntryView;

    open spec fn view(&self) -> EntryView {
        EntryView { id: self.id@, version: opt_text(self.version) }
    }
}

impl Clone for GuideCatalogEntry {
    fn clone(&self) -> (r: GuideCatalogEntry)
        ensures
            r == *self,
    {
        GuideCatalogEntry { id: self.id.clone(), version: copy_opt_text(&self.version) }
    }
}

/// The views of a run of catalogue entries, in order.
pub open spec fn entry_views(entries: Seq<GuideCatalogEntry>) -> Seq<EntryView> {
    Seq::new(entries.len(), |i: int| entries[i]@)
}

/// A guide summary as contracts see it.
pub struct SummaryView {
    pub id: Seq<char>,
    pub version: Option<Seq<char>>,
    pub stale: bool,
}

/// A catalogue entry together with the verdict on the local copy: `stale`
/// says that the guide has to be fetched anew.
#[derive(Debug, PartialEq, Eq)]
pub struct GuideSummary {
    pub id: String,
    pub version: Option<String>,
    pub stale: bool,
}

impl View for GuideSummary {
    type V = SummaryView;

    open spec fn view(&self) -> SummaryView {
        SummaryView { id: self.id@, version: opt_text(self.version), stale: self.stale }
    }
}

impl Clone for GuideSummary {
    fn clone(&self) -> (r: GuideSummary)
        ensures
            r == *self,
    {
        GuideSummary {
            id: self.id.clone(),
            version: copy_opt_text(&self.version),
            stale: self.stale,
        }
    }
}

/// The views of a run of summaries, in order.
pub open spec fn summary_views(summaries: Seq<GuideSummary>) -> Seq<SummaryView> {
    Seq::new(summaries.len(), |i: int| summaries[i]@)
}

impl Clone for Guide {
    fn clone(&self) -> (r: Guide)
        ensures
            r@ == self@,
    {
        proof {
            use_type_invariant(self);
        }
        Guide {
            id: self.id.clone(),
            title: self.title.clone(),
            version: copy_opt_text(&self.version),
            items: copy_items(&self.items),
        }
    }
}

} // verus!
