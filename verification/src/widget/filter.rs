//! A pattern, the focus that decides whether keys edit it, and the indices
//! of the entries that it lets through.

use vstd::prelude::*;
use crate::platform::Key;
use crate::widget::readline::{ReadLine, input_after_key};

verus! {

/// An entry that a filter can test against its pattern.
pub trait FilterEntry {
    /// Whether the entry passes a filter with this pattern.
    spec fn matches(&self, pattern: Seq<char>) -> bool;

    fn fuzzy_matches(&self, pattern: &str) -> (r: bool)
        ensures
            r == self.matches(pattern@),
    ;
}

/// Whether keys go to the pattern, the pattern, and the entries shown.
#[derive(Debug)]
pub struct Filter {
    has_focus: bool,
    readline: ReadLine,
    visible_indices: Vec<usize>,
}

/// What a `Filter` holds.
pub struct FilterView {
    pub has_focus: bool,
    pub pattern: Seq<char>,
    pub visible: Seq<usize>,
}

/// Each element is smaller than the next.
pub open spec fn strictly_ascending(s: Seq<usize>) -> bool {
    forall|a: int, b: int| 0 <= a < b < s.len() ==> s[a] < s[b]
}

/// `visible` lists, in ascending order, exactly the indices of the entries
/// that `pattern` matches.
pub open spec fn lists_matches<E: FilterEntry>(visible: Seq<usize>, entries: Seq<E>, pattern: Seq<char>) -> bool {
    &&& strictly_ascending(visible)
    &&& forall|k: int|
        0 <= k < visible.len() ==> 0 <= #[trigger] visible[k] < entries.len() && entries[visible[k] as int].matches(
            pattern,
        )
    &&& forall|i: int|
        0 <= i < entries.len() && (#[trigger] entries[i]).matches(pattern) ==> visible.contains(i as usize)
}

/// `visible` is in ascending order and points into a list of `len` entries.
pub open spec fn valid_listing(visible: Seq<usize>, len: int) -> bool {
    &&& strictly_ascending(visible)
    &&& forall|k: int| 0 <= k < visible.len() ==> 0 <= #[trigger] visible[k] < len
}

/// The listing after the entry at `index` has left the list: that index is
/// dropped, greater ones move down by one, smaller ones stay.
pub open spec fn listing_without(visible: Seq<usize>, index: usize) -> Seq<usize>
    decreases visible.len(),
{
    if visible.len() == 0 {
        Seq::empty()
    } else {
        let rest = listing_without(visible.drop_last(), index);
        let v = visible.last();
        if v == index {
            rest
        } else if v > index {
            rest.push((v - 1) as usize)
        } else {
            rest.push(v)
        }
    }
}

/// How many elements of `visible` are smaller than `index`.
pub open spec fn rows_below(visible: Seq<usize>, index: usize) -> nat
    decreases visible.len(),
{
    if visible.len() == 0 {
        0
    } else {
        rows_below(visible.drop_last(), index) + if visible.last() < index {
            1nat
        } else {
            0nat
        }
    }
}

impl FilterView {
    /// The filter after it was given the focus.
    pub open spec fn entered(self) -> FilterView {
        FilterView { has_focus: true, pattern: Seq::empty(), visible: self.visible }
    }

    /// The filter after one key: `Enter` and `Ctrl-F` give up the focus and
    /// keep the pattern, `Esc` gives it up and empties the pattern, every
    /// other key edits the pattern.
    pub open spec fn after_key(self, key: Key) -> FilterView {
        if key.is_submit() || key == Key::Ctrl('f') {
            FilterView { has_focus: false, pattern: self.pattern, visible: self.visible }
        } else if key.is_cancel() {
            FilterView { has_focus: false, pattern: Seq::empty(), visible: self.visible }
        } else {
            FilterView {
                has_focus: self.has_focus,
                pattern: input_after_key(self.pattern, key),
                visible: self.visible,
            }
        }
    }

    /// The filter narrows the list or is about to: it has the focus or a pattern.
    pub open spec fn is_filtering(self) -> bool {
        self.has_focus || self.pattern.len() > 0
    }
}

impl View for Filter {
    type V = FilterView;

    closed spec fn view(&self) -> FilterView {
        FilterView {
            has_focus: self.has_focus,
            pattern: self.readline@,
            visible: self.visible_indices@,
        }
    }
}

impl Filter {
    pub fn new() -> (r: Self)
        ensures
            r@ == (FilterView { has_focus: false, pattern: Seq::empty(), visible: Seq::empty() }),
    {
        Filter { has_focus: false, readline: ReadLine::new(), visible_indices: Vec::new() }
    }

    /// Back to the start: no focus, no pattern, nothing listed.
    pub fn clear(&mut self)
        ensures
            final(self)@ == (FilterView { has_focus: false, pattern: Seq::empty(), visible: Seq::empty() }),
    {
        self.has_focus = false;
        self.readline.clear();
        self.visible_indices.clear();
    }

    /// Takes the focus and starts from an empty pattern.
    pub fn enter(&mut self)
        ensures
            final(self)@ == old(self)@.entered(),
    {
        self.has_focus = true;
        self.readline.clear();
    }

    /// Hands a key to the filter, which gives up the focus or edits its pattern.
    pub fn on_key(&mut self, key: Key)
        ensures
            final(self)@ == old(self)@.after_key(key),
    {
        if key.is_submit() || key == Key::Ctrl('f') {
            self.has_focus = false;
        } else if key.is_cancel() {
            self.has_focus = false;
            self.readline.clear();
        } else {
            self.readline.on_key(key);
        }
    }

    /// Lists anew the entries that the pattern matches.
    pub fn filter<E: FilterEntry>(&mut self, entries: &Vec<E>)
        ensures
            final(self)@.has_focus == old(self)@.has_focus,
            final(self)@.pattern == old(self)@.pattern,
            lists_matches(final(self)@.visible, entries@, final(self)@.pattern),
            valid_listing(final(self)@.visible, entries@.len() as int),
    {
        self.visible_indices.clear();
        let mut i: usize = 0;
        while i < entries.len()
            invariant
                i <= entries.len(),
                self.has_focus == old(self).has_focus,
                self.readline@ == old(self).readline@,
                strictly_ascending(self.visible_indices@),
                forall|k: int|
                    0 <= k < self.visible_indices@.len() ==> 0 <= #[trigger] self.visible_indices@[k] < i
                        && entries@[self.visible_indices@[k] as int].matches(self.readline@),
                forall|x: int|
                    0 <= x < i && (#[trigger] entries@[x]).matches(self.readline@)
                        ==> self.visible_indices@.contains(x as usize),
            decreases entries.len() - i,
        {
            let ghost before = self.visible_indices@;
            if entries[i].fuzzy_matches(self.readline.input()) {
                self.visible_indices.push(i);
                proof {
                    let now = self.visible_indices@;
                    assert(now[before.len() as int] == i);
                    assert forall|x: int|
                        0 <= x < i + 1 && (#[trigger] entries@[x]).matches(self.readline@) implies now.contains(
                        x as usize,
                    ) by {
                        if x < i {
                            let k = choose|k: int| 0 <= k < before.len() && before[k] == x as usize;
                            assert(now[k] == x as usize);
                        }
                    }
                    assert forall|a: int, b: int| 0 <= a < b < now.len() implies now[a] < now[b] by {
                        if b < before.len() {
                            assert(before[a] < before[b]);
                        } else {
                            assert(now[a] == before[a]);
                        }
                    }
                }
            }
            i += 1;
        }
    }

    /// Follows the removal of the entry at `entry_index` from the list.
    pub fn on_remove_entry(&mut self, entry_index: usize)
        ensures
            final(self)@.has_focus == old(self)@.has_focus,
            final(self)@.pattern == old(self)@.pattern,
            final(self)@.visible == listing_without(old(self)@.visible, entry_index),
    {
        let mut kept: Vec<usize> = Vec::new();
        let mut i: usize = 0;
        while i < self.visible_indices.len()
            invariant
                i <= self.visible_indices.len(),
                self.visible_indices@ == old(self).visible_indices@,
                kept@ == listing_without(self.visible_indices@.take(i as int), entry_index),
            decreases self.visible_indices.len() - i,
        {
            let v: usize = self.visible_indices[i];
            assert(self.visible_indices@.take(i + 1).drop_last() =~= self.visible_indices@.take(i as int));
            if v > entry_index {
                kept.push(v - 1);
            } else if v < entry_index {
                kept.push(v);
            }
            i += 1;
        }
        assert(self.visible_indices@.take(i as int) =~= self.visible_indices@);
        self.visible_indices = kept;
    }

    /// The entry index behind the `index`-th visible row.
    pub fn get_visible_index(&self, index: usize) -> (r: Option<usize>)
        ensures
            r == if index < self@.visible.len() {
                Some(self@.visible[index as int])
            } else {
                None
            },
    {
        if index < self.visible_indices.len() {
            Some(self.visible_indices[index])
        } else {
            None
        }
    }

    /// The row at which the entry at `entry_index` is visible, if it is.
    pub fn position_of(&self, entry_index: usize) -> (r: Option<usize>)
        ensures
            match r {
                Some(row) => row < self@.visible.len() && self@.visible[row as int] == entry_index,
                None => !self@.visible.contains(entry_index),
            },
    {
        let mut row: usize = 0;
        while row < self.visible_indices.len()
            invariant
                row <= self.visible_indices.len(),
                forall|k: int| 0 <= k < row ==> self.visible_indices@[k] != entry_index,
            decreases self.visible_indices.len() - row,
        {
            if self.visible_indices[row] == entry_index {
                return Some(row);
            }
            row += 1;
        }
        None
    }

    /// How many of the visible entries stand before the entry at
    /// `entry_index` in the list.
    pub fn rows_before(&self, entry_index: usize) -> (r: usize)
        ensures
            r == rows_below(self@.visible, entry_index),
    {
        let mut count: usize = 0;
        let mut row: usize = 0;
        while row < self.visible_indices.len()
            invariant
                row <= self.visible_indices.len(),
                count <= row,
                count == rows_below(self.visible_indices@.take(row as int), entry_index),
            decreases self.visible_indices.len() - row,
        {
            assert(self.visible_indices@.take(row + 1).drop_last() =~= self.visible_indices@.take(row as int));
            if self.visible_indices[row] < entry_index {
                count += 1;
            }
            row += 1;
        }
        assert(self.visible_indices@.take(row as int) =~= self.visible_indices@);
        count
    }

    /// The indices of the entries that pass, in ascending order.
    pub fn visible_indices(&self) -> (r: &[usize])
        ensures
            r@ == self@.visible,
    {
        self.visible_indices.as_slice()
    }

    /// Whether the filter has the focus or a pattern.
    pub fn is_filtering(&self) -> (r: bool)
        ensures
            r == self@.is_filtering(),
    {
        self.has_focus || !self.readline.input().is_empty()
    }

    /// Whether keys go to the pattern.
    pub fn has_focus(&self) -> (r: bool)
        ensures
            r == self@.has_focus,
    {
        self.has_focus
    }

    /// The pattern.
    pub fn as_str(&self) -> (r: &str)
        ensures
            r@ == self@.pattern,
    {
        self.readline.input()
    }
}

/// A copy has the same focus and pattern and lists the same entries.
impl Clone for Filter {
    fn clone(&self) -> (r: Self)
        ensures
            r@ == self@,
    {
        let visible_indices = self.visible_indices.clone();
        assert(visible_indices@ =~= self.visible_indices@);
        Filter { has_focus: self.has_focus, readline: self.readline.clone(), visible_indices }
    }
}

impl Default for Filter {
    fn default() -> (r: Self)
        ensures
            r@ == (FilterView { has_focus: false, pattern: Seq::empty(), visible: Seq::empty() }),
    {
        Filter::new()
    }
}

/// Taking the focus and then cancelling leaves the filter without focus and
/// with an empty pattern, as it started, and lists what it listed.
pub proof fn lemma_enter_then_cancel(filter: FilterView)
    ensures
        filter.entered().after_key(Key::Esc) == (FilterView {
            has_focus: false,
            pattern: Seq::empty(),
            visible: filter.visible,
        }),
        !filter.entered().after_key(Key::Esc).is_filtering(),
{
}

/// What `listing_without` does to a listing of a list of `len` entries: the
/// result lists the shorter list; a smaller index stays, a greater one is
/// found one lower, and nothing else is in it; its length drops by one
/// exactly when `index` was listed.
pub proof fn lemma_listing_without(visible: Seq<usize>, index: usize, len: int)
    requires
        valid_listing(visible, len),
        index < len,
    ensures
        valid_listing(listing_without(visible, index), len - 1),
        forall|v: usize| v < index && visible.contains(v) ==> listing_without(visible, index).contains(v),
        forall|v: usize|
            v > index && visible.contains(v) ==> listing_without(visible, index).contains((v - 1) as usize),
        forall|w: usize| #[trigger]
            listing_without(visible, index).contains(w) ==> (w < index && visible.contains(w)) || (index
                <= w < usize::MAX && visible.contains((w + 1) as usize)),
        listing_without(visible, index).len() == visible.len() - (if visible.contains(index) {
            1int
        } else {
            0int
        }),
    decreases visible.len(),
{
    let result = listing_without(visible, index);
    if visible.len() > 0 {
        let front = visible.drop_last();
        let v = visible.last();
        let rest = listing_without(front, index);
        assert(valid_listing(front, len)) by {
            assert forall|k: int| 0 <= k < front.len() implies 0 <= #[trigger] front[k] < len by {
                assert(front[k] == visible[k]);
            }
            assert forall|a: int, b: int| 0 <= a < b < front.len() implies front[a] < front[b] by {
                assert(front[a] == visible[a] && front[b] == visible[b]);
            }
        }
        lemma_listing_without(front, index, len);
        assert forall|x: usize| front.contains(x) implies x < v by {
            let k = choose|k: int| 0 <= k < front.len() && front[k] == x;
            assert(visible[k] < visible[visible.len() - 1]);
        }
        assert forall|x: usize| visible.contains(x) implies front.contains(x) || x == v by {
            let k = choose|k: int| 0 <= k < visible.len() && visible[k] == x;
            if k < front.len() {
                assert(front[k] == x);
            }
        }
        assert forall|x: usize| front.contains(x) implies visible.contains(x) by {
            let k = choose|k: int| 0 <= k < front.len() && front[k] == x;
            assert(visible[k] == x);
        }
        assert(visible[visible.len() - 1] == v);
        assert(visible.contains(v));
        if v == index {
            assert(!front.contains(index));
        } else {
            let moved: usize = if v > index {
                (v - 1) as usize
            } else {
                v
            };
            assert(result == rest.push(moved));
            assert(result[rest.len() as int] == moved);
            assert forall|w: usize| rest.contains(w) implies result.contains(w) && w < moved by {
                let k = choose|k: int| 0 <= k < rest.len() && rest[k] == w;
                assert(result[k] == w);
            }
            assert forall|w: usize| #[trigger] result.contains(w) implies rest.contains(w) || w == moved by {
                let k = choose|k: int| 0 <= k < result.len() && result[k] == w;
                if k < rest.len() {
                    assert(rest[k] == w);
                }
            }
            assert forall|a: int, b: int| 0 <= a < b < result.len() implies result[a] < result[b] by {
                if b < rest.len() {
                    assert(rest[a] < rest[b]);
                } else {
                    assert(rest[a] == result[a]);
                    assert(rest.contains(rest[a]));
                }
            }
            assert forall|k: int| 0 <= k < result.len() implies 0 <= #[trigger] result[k] < len - 1 by {
                if k < rest.len() {
                    assert(rest[k] == result[k]);
                }
            }
        }
    }
}

/// Two ascending sequences that hold the same values are the same
/// sequence.
pub proof fn lemma_ascending_unique(a: Seq<usize>, b: Seq<usize>)
    requires
        strictly_ascending(a),
        strictly_ascending(b),
        forall|x: usize| a.contains(x) <==> b.contains(x),
    ensures
        a == b,
    decreases a.len(),
{
    if a.len() == 0 {
        if b.len() > 0 {
            assert(b.contains(b[0]));
        }
        assert(a =~= b);
    } else {
        assert(a.contains(a.last()));
        if b.len() == 0 {
            assert(!b.contains(a.last()));
        }
        assert(b.contains(b.last()));
        // Each sequence ends in its greatest value, which is the same.
        let i = choose|i: int| 0 <= i < b.len() && b[i] == a.last();
        let j = choose|j: int| 0 <= j < a.len() && a[j] == b.last();
        if i < b.len() - 1 {
            assert(b[i] < b[b.len() - 1]);
        }
        if j < a.len() - 1 {
            assert(a[j] < a[a.len() - 1]);
        }
        assert(a.last() == b.last());
        let a0 = a.drop_last();
        let b0 = b.drop_last();
        assert forall|x: usize| a0.contains(x) <==> b0.contains(x) by {
            if a0.contains(x) {
                let k = choose|k: int| 0 <= k < a0.len() && a0[k] == x;
                assert(a[k] == x && a[k] < a[a.len() - 1]);
                assert(a.contains(x));
                let m = choose|m: int| 0 <= m < b.len() && b[m] == x;
                assert(m < b.len() - 1);
                assert(b0[m] == x);
            }
            if b0.contains(x) {
                let k = choose|k: int| 0 <= k < b0.len() && b0[k] == x;
                assert(b[k] == x && b[k] < b[b.len() - 1]);
                assert(b.contains(x));
                let m = choose|m: int| 0 <= m < a.len() && a[m] == x;
                assert(m < a.len() - 1);
                assert(a0[m] == x);
            }
        }
        assert(strictly_ascending(a0)) by {
            assert forall|p: int, q: int| 0 <= p < q < a0.len() implies a0[p] < a0[q] by {
                assert(a[p] < a[q]);
            }
        }
        assert(strictly_ascending(b0)) by {
            assert forall|p: int, q: int| 0 <= p < q < b0.len() implies b0[p] < b0[q] by {
                assert(b[p] < b[q]);
            }
        }
        lemma_ascending_unique(a0, b0);
        assert(a =~= a0.push(a.last()));
        assert(b =~= b0.push(b.last()));
    }
}

/// There is one listing of the matches only: what `filter` leaves is
/// decided by the entries and the pattern.
pub proof fn lemma_listing_unique<E: FilterEntry>(a: Seq<usize>, b: Seq<usize>, entries: Seq<E>, pattern: Seq<char>)
    requires
        lists_matches(a, entries, pattern),
        lists_matches(b, entries, pattern),
    ensures
        a == b,
{
    assert forall|x: usize| a.contains(x) <==> b.contains(x) by {
        if a.contains(x) {
            let k = choose|k: int| 0 <= k < a.len() && a[k] == x;
            assert(entries[a[k] as int].matches(pattern));
            assert(b.contains(x as int as usize));
        }
        if b.contains(x) {
            let k = choose|k: int| 0 <= k < b.len() && b[k] == x;
            assert(entries[b[k] as int].matches(pattern));
            assert(a.contains(x as int as usize));
        }
    }
    lemma_ascending_unique(a, b);
}

} // verus!
