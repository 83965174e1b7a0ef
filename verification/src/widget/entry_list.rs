//! A list of entries with the filter that narrows it and the menu that
//! points into what the filter lets through.

use vstd::prelude::*;
use crate::backend::RevisionEntry;
use crate::platform::Key;
use crate::widget::filter::{
    Filter,
    FilterEntry,
    FilterView,
    lemma_listing_without,
    listing_without,
    lists_matches,
    rows_below,
    valid_listing,
};
use crate::widget::select_menu::{SelectMenu, SelectMenuAction};

verus! {

/// The entries, the filter over them, and the menu over the visible ones.
#[derive(Debug)]
pub struct EntryList<E> {
    pub entries: Vec<E>,
    pub select: SelectMenu,
    pub filter: Filter,
}

/// A copy holds copies of the entries, in their order, under the same
/// filter and with the same cursor.
impl<E: Clone> Clone for EntryList<E> {
    fn clone(&self) -> (r: Self)
        ensures
            r.entries@.len() == self.entries@.len(),
            forall|i: int|
                #![all_triggers]
                0 <= i < self.entries@.len() ==> cloned::<E>(self.entries@[i], r.entries@[i]),
            r.select == self.select,
            r.filter@ == self.filter@,
    {
        EntryList { entries: self.entries.clone(), select: self.select, filter: self.filter.clone() }
    }
}

impl<E> EntryList<E> {
    /// `other` holds the same entries under the same filter and with the
    /// same cursor.
    pub open spec fn same_as(&self, other: &Self) -> bool {
        &&& other.entries@ == self.entries@
        &&& other.select == self.select
        &&& other.filter@ == self.filter@
    }
}

impl<E: FilterEntry> EntryList<E> {
    /// What the filter lists are indices of entries, in ascending order.
    pub open spec fn wf(&self) -> bool {
        valid_listing(self.filter@.visible, self.entries@.len() as int)
    }

    /// The indices of the visible entries, in the order shown.
    pub open spec fn visible(&self) -> Seq<usize> {
        self.filter@.visible
    }

    /// The index of the entry under the cursor, if the cursor is on one.
    pub open spec fn current(&self) -> Option<usize> {
        if self.select.cursor < self.visible().len() {
            Some(self.visible()[self.select.cursor as int])
        } else {
            None
        }
    }

    /// The filter lists exactly the entries that its pattern matches, and
    /// the cursor is on the list.
    pub open spec fn filtered(&self) -> bool {
        &&& lists_matches(self.visible(), self.entries@, self.filter@.pattern)
        &&& self.wf()
    }

    /// The list as it is made: no entries, no filter, the cursor at the
    /// top.
    pub open spec fn is_new(&self) -> bool {
        &&& self.entries@.len() == 0
        &&& self.select == (SelectMenu { cursor: 0, scroll: 0 })
        &&& self.filter@ == (FilterView { has_focus: false, pattern: Seq::empty(), visible: Seq::empty() })
    }

    pub fn new() -> (r: Self)
        ensures
            r.wf(),
            r.is_new(),
    {
        EntryList { entries: Vec::new(), select: SelectMenu::new(), filter: Filter::new() }
    }

    /// Lists the matching entries anew and pulls the cursor back onto them.
    pub fn refilter(&mut self)
        ensures
            final(self).filtered(),
            final(self).entries == old(self).entries,
            final(self).filter@.has_focus == old(self).filter@.has_focus,
            final(self).filter@.pattern == old(self).filter@.pattern,
            final(self).select == old(self).select.saturated(final(self).visible().len() as usize),
    {
        self.filter.filter(&self.entries);
        self.select.saturate_cursor(self.filter.visible_indices().len());
    }

    /// Replaces the entries, lists the matching ones and pulls the cursor
    /// back onto them.
    pub fn set_entries(&mut self, entries: Vec<E>)
        ensures
            final(self).filtered(),
            final(self).entries == entries,
            final(self).filter@.has_focus == old(self).filter@.has_focus,
            final(self).filter@.pattern == old(self).filter@.pattern,
            final(self).select == old(self).select.saturated(final(self).visible().len() as usize),
    {
        self.entries = entries;
        self.refilter();
    }

    /// Puts `entries` behind the first `start` entries, or behind all where
    /// there are fewer, in place of what stood there; then lists the
    /// matching entries and pulls the cursor back onto them.
    pub fn splice_entries(&mut self, start: usize, entries: Vec<E>)
        ensures
            final(self).filtered(),
            final(self).entries@ == old(self).entries@.take(
                if start <= old(self).entries@.len() {
                    start as int
                } else {
                    old(self).entries@.len() as int
                },
            ) + entries@,
            final(self).filter@.has_focus == old(self).filter@.has_focus,
            final(self).filter@.pattern == old(self).filter@.pattern,
            final(self).select == old(self).select.saturated(final(self).visible().len() as usize),
    {
        let mut entries = entries;
        self.entries.truncate(start);
        self.entries.append(&mut entries);
        proof {
            let kept: int = if start <= old(self).entries@.len() {
                start as int
            } else {
                old(self).entries@.len() as int
            };
            assert(old(self).entries@.take(kept) =~= if start <= old(self).entries@.len() {
                old(self).entries@.subrange(0, start as int)
            } else {
                old(self).entries@
            });
        }
        self.refilter();
    }

    /// Hands a key to the filter and lists the matching entries anew.
    pub fn on_filter_key(&mut self, key: Key)
        ensures
            final(self).filtered(),
            final(self).entries == old(self).entries,
            final(self).filter@.has_focus == old(self).filter@.after_key(key).has_focus,
            final(self).filter@.pattern == old(self).filter@.after_key(key).pattern,
            final(self).select == old(self).select.saturated(final(self).visible().len() as usize),
    {
        self.filter.on_key(key);
        self.refilter();
    }

    /// Hands a key to the menu over the visible entries.
    pub fn on_key(&mut self, available_height: usize, key: Key) -> (action: SelectMenuAction)
        ensures
            final(self).entries == old(self).entries,
            final(self).filter == old(self).filter,
            final(self).select == old(self).select.after_key(
                old(self).visible().len() as usize,
                available_height,
                key,
            ),
            action == final(self).select.action_of(old(self).visible().len() as usize, key),
            action matches SelectMenuAction::Toggle(i) ==> i < old(self).visible().len(),
    {
        self.select.on_key(self.filter.visible_indices().len(), available_height, key)
    }

    /// The index of the entry under the cursor, if the cursor is on one.
    pub fn current_entry_index(&self) -> (r: Option<usize>)
        requires
            self.wf(),
        ensures
            r == self.current(),
            r matches Some(i) ==> i < self.entries@.len(),
    {
        self.filter.get_visible_index(self.select.cursor)
    }

    /// Takes the entry at `entry_index` out of the list and has the filter
    /// follow. The menu is left as it is.
    pub fn remove_entry(&mut self, entry_index: usize) -> (removed: E)
        requires
            old(self).wf(),
            entry_index < old(self).entries@.len(),
        ensures
            final(self).wf(),
            removed == old(self).entries@[entry_index as int],
            final(self).entries@ == old(self).entries@.remove(entry_index as int),
            final(self).filter@.has_focus == old(self).filter@.has_focus,
            final(self).filter@.pattern == old(self).filter@.pattern,
            final(self).visible() == listing_without(old(self).visible(), entry_index),
            final(self).select == old(self).select,
    {
        let removed = self.entries.remove(entry_index);
        self.filter.on_remove_entry(entry_index);
        proof {
            lemma_listing_without(old(self).visible(), entry_index, old(self).entries@.len() as int);
        }
        removed
    }

    /// Empties the list and the filter and puts the cursor at the top.
    pub fn clear(&mut self)
        ensures
            final(self).wf(),
            final(self).entries@.len() == 0,
            final(self).filter@ == (FilterView {
                has_focus: false,
                pattern: Seq::empty(),
                visible: Seq::empty(),
            }),
            final(self).select == (SelectMenu { cursor: 0, scroll: old(self).select.scroll }),
    {
        self.entries.clear();
        self.select.cursor = 0;
        self.filter.clear();
    }
}

/// The entries that are selected, in their order.
pub open spec fn selected_of(entries: Seq<RevisionEntry>) -> Seq<RevisionEntry>
    decreases entries.len(),
{
    if entries.len() == 0 {
        Seq::empty()
    } else if entries.last().selected {
        selected_of(entries.drop_last()).push(entries.last())
    } else {
        selected_of(entries.drop_last())
    }
}

/// The entries that are not selected, in their order.
pub open spec fn unselected_of(entries: Seq<RevisionEntry>) -> Seq<RevisionEntry>
    decreases entries.len(),
{
    if entries.len() == 0 {
        Seq::empty()
    } else if entries.last().selected {
        unselected_of(entries.drop_last())
    } else {
        unselected_of(entries.drop_last()).push(entries.last())
    }
}

/// An entry with its selection turned over.
pub open spec fn flipped(entry: RevisionEntry) -> RevisionEntry {
    RevisionEntry { selected: !entry.selected, name: entry.name, status: entry.status }
}

/// An entry with its selection set.
pub open spec fn marked(entry: RevisionEntry, selected: bool) -> RevisionEntry {
    RevisionEntry { selected, name: entry.name, status: entry.status }
}

/// A list while selected entries are taken out of it: the entries left, the
/// indices listed, and the cursor.
pub struct Removal {
    pub entries: Seq<RevisionEntry>,
    pub visible: Seq<usize>,
    pub cursor: usize,
}

/// The list after the selected entries at the indices from `from` on have
/// been taken out, the last one first. With each entry that leaves, the
/// listing follows, and the cursor moves up by one if the entry stood at or
/// above its row.
pub open spec fn without_selected_from(
    entries: Seq<RevisionEntry>,
    visible: Seq<usize>,
    cursor: usize,
    from: int,
) -> Removal
    decreases entries.len() - from,
{
    if from < 0 || from >= entries.len() {
        Removal { entries, visible, cursor }
    } else {
        let rest = without_selected_from(entries, visible, cursor, from + 1);
        if entries[from].selected {
            let listed = listing_without(rest.visible, from as usize);
            Removal {
                entries: rest.entries.remove(from),
                visible: listed,
                cursor: if rows_below(listed, from as usize) <= rest.cursor && rest.cursor > 0 {
                    (rest.cursor - 1) as usize
                } else {
                    rest.cursor
                },
            }
        } else {
            rest
        }
    }
}

/// Taking the selected entries out leaves the unselected ones, in their
/// order.
pub proof fn lemma_without_selected_entries(
    entries: Seq<RevisionEntry>,
    visible: Seq<usize>,
    cursor: usize,
    from: int,
)
    requires
        0 <= from <= entries.len(),
    ensures
        without_selected_from(entries, visible, cursor, from).entries == entries.take(from) + unselected_of(
            entries.skip(from),
        ),
    decreases entries.len() - from,
{
    let result = without_selected_from(entries, visible, cursor, from).entries;
    if from >= entries.len() {
        assert(entries.skip(from) =~= Seq::<RevisionEntry>::empty());
        assert(entries.take(from) + unselected_of(entries.skip(from)) =~= entries);
    } else {
        lemma_without_selected_entries(entries, visible, cursor, from + 1);
        lemma_unselected_first(entries.skip(from));
        assert(entries.skip(from).drop_first() =~= entries.skip(from + 1));
        let tail = unselected_of(entries.skip(from + 1));
        if entries[from].selected {
            assert((entries.take(from + 1) + tail).remove(from) =~= entries.take(from) + tail);
        } else {
            assert(entries.take(from + 1) + tail =~= entries.take(from) + (seq![entries[from]] + tail));
        }
    }
}

/// `unselected_of` read from the front.
pub proof fn lemma_unselected_first(entries: Seq<RevisionEntry>)
    requires
        entries.len() > 0,
    ensures
        unselected_of(entries) == if entries[0].selected {
            unselected_of(entries.drop_first())
        } else {
            seq![entries[0]] + unselected_of(entries.drop_first())
        },
    decreases entries.len(),
{
    if entries.len() == 1 {
        assert(entries.drop_last() =~= Seq::<RevisionEntry>::empty());
        assert(entries.drop_first() =~= Seq::<RevisionEntry>::empty());
        assert(unselected_of(entries.drop_last()) =~= Seq::<RevisionEntry>::empty());
        assert(entries.last() == entries[0]);
        assert(unselected_of(entries) =~= if entries[0].selected {
            Seq::<RevisionEntry>::empty()
        } else {
            seq![entries[0]]
        });
    } else {
        lemma_unselected_first(entries.drop_last());
        assert(entries.drop_last().drop_first() =~= entries.drop_first().drop_last());
        assert(entries.drop_last()[0] == entries[0]);
        assert(entries.drop_first().last() == entries.last());
        let inner = unselected_of(entries.drop_first().drop_last());
        if !entries.last().selected && !entries[0].selected {
            assert((seq![entries[0]] + inner).push(entries.last()) =~= seq![entries[0]] + inner.push(
                entries.last(),
            ));
        }
    }
}

impl EntryList<RevisionEntry> {
    /// Every visible entry is selected.
    pub open spec fn all_visible_selected(&self) -> bool {
        forall|row: int| 0 <= row < self.visible().len() ==> self.entries@[(#[trigger] self.visible()[row]) as int].selected
    }

    /// The entries after what a key asked of them: the entry of one visible
    /// row has its selection turned over; or all visible entries are
    /// selected, unless they all were, in which case none of them is.
    pub open spec fn entries_after(&self, action: SelectMenuAction) -> Seq<RevisionEntry> {
        match action {
            SelectMenuAction::Nothing => self.entries@,
            SelectMenuAction::Toggle(row) => if row < self.visible().len() {
                self.entries@.update(
                    self.visible()[row as int] as int,
                    flipped(self.entries@[self.visible()[row as int] as int]),
                )
            } else {
                self.entries@
            },
            SelectMenuAction::ToggleAll => Seq::new(
                self.entries@.len(),
                |i: int|
                    if self.visible().contains(i as usize) {
                        marked(self.entries@[i], !self.all_visible_selected())
                    } else {
                        self.entries@[i]
                    },
            ),
        }
    }

    /// Does to the entries what a key asked of them.
    pub fn apply(&mut self, action: SelectMenuAction)
        requires
            old(self).wf(),
        ensures
            final(self).wf(),
            final(self).entries@ == old(self).entries_after(action),
            final(self).entries@.len() == old(self).entries@.len(),
            final(self).filter == old(self).filter,
            final(self).select == old(self).select,
    {
        match action {
            SelectMenuAction::Nothing => {},
            SelectMenuAction::Toggle(row) => {
                if let Some(i) = self.filter.get_visible_index(row) {
                    let selected = self.entries[i].selected;
                    self.entries[i].selected = !selected;
                    assert(self.entries@ =~= old(self).entries_after(action));
                }
            },
            SelectMenuAction::ToggleAll => {
                let mut all_selected = true;
                let mut row: usize = 0;
                while row < self.filter.visible_indices().len()
                    invariant
                        *self == *old(self),
                        self.wf(),
                        row <= self.visible().len(),
                        all_selected == forall|k: int|
                            0 <= k < row ==> self.entries@[(#[trigger] self.visible()[k]) as int].selected,
                    decreases self.visible().len() - row,
                {
                    let i = self.filter.visible_indices()[row];
                    if !self.entries[i].selected {
                        all_selected = false;
                    }
                    row += 1;
                }
                assert(all_selected == old(self).all_visible_selected());
                let mut row: usize = 0;
                while row < self.filter.visible_indices().len()
                    invariant
                        self.filter == old(self).filter,
                        self.select == old(self).select,
                        old(self).wf(),
                        self.entries@.len() == old(self).entries@.len(),
                        row <= self.visible().len(),
                        forall|i: int|
                            0 <= i < self.entries@.len() ==> #[trigger] self.entries@[i] == if exists|k: int|
                                0 <= k < row && self.visible()[k] == i {
                                marked(old(self).entries@[i], !all_selected)
                            } else {
                                old(self).entries@[i]
                            },
                    decreases self.visible().len() - row,
                {
                    let i = self.filter.visible_indices()[row];
                    let ghost before = self.entries@;
                    self.entries[i].selected = !all_selected;
                    proof {
                        assert forall|x: int| 0 <= x < self.entries@.len() implies #[trigger] self.entries@[x]
                            == if exists|k: int| 0 <= k < row + 1 && self.visible()[k] == x {
                            marked(old(self).entries@[x], !all_selected)
                        } else {
                            old(self).entries@[x]
                        } by {
                            if x == i {
                                assert(self.visible()[row as int] == x);
                            } else {
                                assert(self.entries@[x] == before[x]);
                                if exists|k: int| 0 <= k < row + 1 && self.visible()[k] == x {
                                    let k = choose|k: int| 0 <= k < row + 1 && self.visible()[k] == x;
                                    assert(k < row);
                                }
                            }
                        }
                    }
                    row += 1;
                }
                proof {
                    let want = old(self).entries_after(action);
                    assert(self.entries@.len() == self.entries.len() <= usize::MAX);
                    assert forall|x: int| 0 <= x < self.entries@.len() implies self.entries@[x] == want[x] by {
                        if old(self).visible().contains(x as usize) {
                            let k = choose|k: int|
                                0 <= k < old(self).visible().len() && old(self).visible()[k] == x as usize;
                            assert(self.visible()[k] == x);
                        }
                    }
                    assert(self.entries@ =~= want);
                }
            },
        }
    }

    /// Copies of the selected entries, in their order.
    pub fn get_selected_entries(&self) -> (r: Vec<RevisionEntry>)
        ensures
            r@ == selected_of(self.entries@),
    {
        let mut r: Vec<RevisionEntry> = Vec::new();
        let mut i: usize = 0;
        while i < self.entries.len()
            invariant
                i <= self.entries.len(),
                r@ == selected_of(self.entries@.take(i as int)),
            decreases self.entries.len() - i,
        {
            assert(self.entries@.take(i + 1).drop_last() =~= self.entries@.take(i as int));
            if self.entries[i].selected {
                r.push(self.entries[i].clone());
            }
            i += 1;
        }
        assert(self.entries@.take(i as int) =~= self.entries@);
        r
    }

    /// Takes the selected entries out of the list, with the filter and the
    /// cursor following each that leaves. Where none is selected, all
    /// entries leave, and the filter and the cursor start over.
    pub fn remove_selected_entries(&mut self)
        requires
            old(self).wf(),
        ensures
            final(self).wf(),
            final(self).select.scroll == old(self).select.scroll,
            ({
                let left = without_selected_from(
                    old(self).entries@,
                    old(self).visible(),
                    old(self).select.cursor,
                    0,
                );
                if left.entries.len() == old(self).entries@.len() {
                    &&& final(self).entries@.len() == 0
                    &&& final(self).filter@ == (FilterView {
                        has_focus: false,
                        pattern: Seq::empty(),
                        visible: Seq::empty(),
                    })
                    &&& final(self).select.cursor == 0
                } else {
                    &&& final(self).entries@ == left.entries
                    &&& final(self).entries@ == unselected_of(old(self).entries@)
                    &&& final(self).visible() == left.visible
                    &&& final(self).select.cursor == left.cursor
                    &&& final(self).filter@.has_focus == old(self).filter@.has_focus
                    &&& final(self).filter@.pattern == old(self).filter@.pattern
                }
            }),
    {
        let previous_len = self.entries.len();
        let mut i: usize = previous_len;
        while i > 0
            invariant
                self.wf(),
                i <= self.entries@.len() <= previous_len == old(self).entries@.len(),
                self.entries@.take(i as int) == old(self).entries@.take(i as int),
                self.select.scroll == old(self).select.scroll,
                self.filter@.has_focus == old(self).filter@.has_focus,
                self.filter@.pattern == old(self).filter@.pattern,
                without_selected_from(old(self).entries@, old(self).visible(), old(self).select.cursor, i as int)
                    == (Removal {
                    entries: self.entries@,
                    visible: self.visible(),
                    cursor: self.select.cursor,
                }),
            decreases i,
        {
            i -= 1;
            assert(self.entries@[i as int] == self.entries@.take(i + 1)[i as int]);
            assert(old(self).entries@[i as int] == old(self).entries@.take(i + 1)[i as int]);
            let ghost before = self.entries@;
            if self.entries[i].selected {
                let _ = self.remove_entry(i);
                let row = self.filter.rows_before(i);
                self.select.on_remove_entry(row);
            }
            assert(self.entries@.take(i as int) =~= before.take(i + 1).take(i as int));
            assert(old(self).entries@.take(i as int) =~= old(self).entries@.take(i + 1).take(i as int));
        }
        proof {
            lemma_without_selected_entries(old(self).entries@, old(self).visible(), old(self).select.cursor, 0);
            assert(old(self).entries@.skip(0) =~= old(self).entries@);
            assert(old(self).entries@.take(0) + unselected_of(old(self).entries@) =~= unselected_of(
                old(self).entries@,
            ));
        }
        if self.entries.len() == previous_len {
            self.clear();
        }
    }
}

} // verus!
