use vstd::prelude::*;

use crate::entry::StaticItem;
use crate::error::DockError;

verus! {

/// The named sections of the document.
#[derive(Debug, Clone, Copy, PartialEq, Eq, Structural)]
pub enum Sections {
    PersistentApps,
    PersistentOthers,
    RecentApps,
    StaticApps,
    StaticOther,
}

/// Where a new entry goes in its section.
#[derive(Debug, Clone, Copy, PartialEq, Eq, Structural)]
pub enum Location {
    /// Before every entry.
    Beginning,
    /// At index `len / 2` of the section as it was.
    Middle,
    /// After every entry.
    End,
}

/// The document's key for a section.
pub open spec fn section_key(s: Sections) -> Seq<char> {
    match s {
        Sections::PersistentApps => "persistent-apps"@,
        Sections::PersistentOthers => "persistent-others"@,
        Sections::RecentApps => "recent-apps"@,
        Sections::StaticApps => "static-apps"@,
        Sections::StaticOther => "static-others"@,
    }
}

impl Sections {
    /// The key under which this section is stored in the document.
    pub fn key(&self) -> (r: &'static str)
        ensures
            r@ == section_key(*self),
    {
        match self {
            Sections::PersistentApps => "persistent-apps",
            Sections::PersistentOthers => "persistent-others",
            Sections::RecentApps => "recent-apps",
            Sections::StaticApps => "static-apps",
            Sections::StaticOther => "static-others",
        }
    }
}

/// The index at which `loc` places a new entry in a section of `len` entries.
pub open spec fn insert_index(len: nat, loc: Location) -> int {
    match loc {
        Location::Beginning => 0,
        Location::Middle => (len / 2) as int,
        Location::End => len as int,
    }
}

/// The section `s` after `item` was inserted at `loc`.
pub open spec fn placed(s: Seq<StaticItem>, item: StaticItem, loc: Location) -> Seq<StaticItem> {
    s.insert(insert_index(s.len(), loc), item)
}

/// The Dock document: a flag and five sections, each of which may be absent.
#[derive(Debug, Clone, PartialEq, Eq)]
pub struct Dockm {
    pub static_only: Option<bool>,
    pub persistent_apps: Option<Vec<StaticItem>>,
    pub persistent_others: Option<Vec<StaticItem>>,
    pub recent_apps: Option<Vec<StaticItem>>,
    pub static_apps: Option<Vec<StaticItem>>,
    pub static_others: Option<Vec<StaticItem>>,
}

/// The entries of a section slot, or `None` where the section is absent.
pub open spec fn slot_view(o: Option<Vec<StaticItem>>) -> Option<Seq<StaticItem>> {
    match o {
        Some(v) => Some(v@),
        None => None,
    }
}

impl Dockm {
    /// The entries of section `s`, or `None` where it is absent.
    pub open spec fn section(self, s: Sections) -> Option<Seq<StaticItem>> {
        match s {
            Sections::PersistentApps => slot_view(self.persistent_apps),
            Sections::PersistentOthers => slot_view(self.persistent_others),
            Sections::RecentApps => slot_view(self.recent_apps),
            Sections::StaticApps => slot_view(self.static_apps),
            Sections::StaticOther => slot_view(self.static_others),
        }
    }

    /// `self` and `other` hold the same flag and the same sections, but
    /// maybe for section `s`.
    pub open spec fn same_except(self, other: Dockm, s: Sections) -> bool {
        &&& self.static_only == other.static_only
        &&& forall|t: Sections| t != s ==> #[trigger] self.section(t) == other.section(t)
    }

    /// The result of inserting `item` at `loc` into section `s` of `pre`.
    pub open spec fn inserted(
        pre: Dockm,
        post: Dockm,
        s: Sections,
        item: StaticItem,
        loc: Location,
    ) -> bool {
        &&& pre.section(s) is Some
        &&& post.section(s) == Some(placed(pre.section(s)->0, item, loc))
        &&& post.same_except(pre, s)
    }

    /// Appends `item` to section `section`. Fails, leaving the document
    /// unchanged, when that section is absent.
    pub fn add_item_to_section(&mut self, item: StaticItem, section: Sections) -> (r: Result<
        (),
        DockError,
    >)
        ensures
            r is Ok <==> old(self).section(section) is Some,
            r is Ok ==> Dockm::inserted(*old(self), *final(self), section, item, Location::End),
            r is Err ==> r == Err::<(), DockError>(DockError::SectionMissing(section))
                && *final(self) == *old(self),
    {
        self.add_item_to_section_with_location(item, section, Location::End)
    }

    /// Inserts `item` into section `section` at `location`. Fails, leaving
    /// the document unchanged, when that section is absent.
    pub fn add_item_to_section_with_location(
        &mut self,
        item: StaticItem,
        section: Sections,
        location: Location,
    ) -> (r: Result<(), DockError>)
        ensures
            r is Ok <==> old(self).section(section) is Some,
            r is Ok ==> Dockm::inserted(*old(self), *final(self), section, item, location),
            r is Err ==> r == Err::<(), DockError>(DockError::SectionMissing(section))
                && *final(self) == *old(self),
    {
        let done = match section {
            Sections::PersistentApps => insert_in_slot(&mut self.persistent_apps, item, location),
            Sections::PersistentOthers => insert_in_slot(
                &mut self.persistent_others,
                item,
                location,
            ),
            Sections::RecentApps => insert_in_slot(&mut self.recent_apps, item, location),
            Sections::StaticApps => insert_in_slot(&mut self.static_apps, item, location),
            Sections::StaticOther => insert_in_slot(&mut self.static_others, item, location),
        };
        if done {
            Ok(())
        } else {
            Err(DockError::SectionMissing(section))
        }
    }
}

/// Inserting at the beginning puts the new entry first, ahead of the old
/// entries in their old order.
pub proof fn lemma_insert_at_beginning(s: Seq<StaticItem>, item: StaticItem)
    ensures
        placed(s, item, Location::Beginning) == seq![item] + s,
{
    assert(placed(s, item, Location::Beginning) =~= seq![item] + s);
}

/// Inserting at the end appends the new entry after the old entries.
pub proof fn lemma_insert_at_end(s: Seq<StaticItem>, item: StaticItem)
    ensures
        placed(s, item, Location::End) == s.push(item),
{
    assert(placed(s, item, Location::End) =~= s.push(item));
}

/// Inserting in the middle puts the new entry after the first `len / 2` old
/// entries; of two entries, it goes between them.
pub proof fn lemma_insert_at_middle(s: Seq<StaticItem>, item: StaticItem)
    ensures
        placed(s, item, Location::Middle) == s.take((s.len() / 2) as int) + seq![item]
            + s.skip((s.len() / 2) as int),
        s.len() == 2 ==> placed(s, item, Location::Middle) == seq![s[0], item, s[1]],
{
    let h = (s.len() / 2) as int;
    assert(placed(s, item, Location::Middle) =~= s.take(h) + seq![item] + s.skip(h));
    if s.len() == 2 {
        assert(placed(s, item, Location::Middle) =~= seq![s[0], item, s[1]]);
    }
}

/// Into an empty section, every location gives the one-entry section.
pub proof fn lemma_insert_into_empty(s: Seq<StaticItem>, item: StaticItem, loc: Location)
    requires
        s.len() == 0,
    ensures
        placed(s, item, loc) == seq![item],
{
    assert(placed(s, item, loc) =~= seq![item]);
}

/// An insertion adds exactly one entry, at the index its location gives,
/// and keeps the old entries in their relative order.
pub proof fn lemma_insert_keeps_order(s: Seq<StaticItem>, item: StaticItem, loc: Location)
    ensures
        0 <= insert_index(s.len(), loc) <= s.len(),
        placed(s, item, loc).len() == s.len() + 1,
        placed(s, item, loc)[insert_index(s.len(), loc)] == item,
        placed(s, item, loc).remove(insert_index(s.len(), loc)) == s,
{
    let i = insert_index(s.len(), loc);
    assert(placed(s, item, loc).remove(i) =~= s);
}

/// Inserts `item` at `loc` into the section held by `slot`; returns `false`,
/// touching nothing, when the section is absent.
fn insert_in_slot(slot: &mut Option<Vec<StaticItem>>, item: StaticItem, loc: Location) -> (r: bool)
    ensures
        r <==> (*old(slot)) is Some,
        r ==> slot_view(*final(slot)) == Some(placed((*old(slot))->0@, item, loc)),
        !r ==> *final(slot) == *old(slot),
{
    match slot {
        Some(v) => {
            let i: usize = match loc {
                Location::Beginning => 0,
                Location::Middle => v.len() / 2,
                Location::End => v.len(),
            };
            v.insert(i, item);
            true
        },
        None => false,
    }
}

} // verus!
