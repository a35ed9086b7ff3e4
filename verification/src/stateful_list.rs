//! An ordered list with a selection cursor and a scroll offset.
//!
//! Items keep their insertion order (callers pre-sort; the list never
//! re-sorts). The selection and the offset are independent: cursor movement
//! is used by the directory pane, offset-only scrolling by the folder
//! preview. All operations are total: out-of-range requests clamp, and on an
//! empty list every movement is a no-op.
//!
//! Well-formed states keep the selection, when present, inside
//! `[0, len - 1]`, and an empty list has no selection and offset `0`.

use vstd::prelude::*;

verus! {

pub struct StatefulList<T> {
    pub items: Vec<T>,
    pub selected: Option<usize>,
    pub offset: usize,
}

impl<T> StatefulList<T> {
    pub open spec fn spec_items(self) -> Seq<T> {
        self.items@
    }

    pub open spec fn spec_len(self) -> nat {
        self.items@.len()
    }

    pub open spec fn sel(self) -> Option<usize> {
        self.selected
    }

    pub open spec fn off(self) -> usize {
        self.offset
    }

    /// Greatest valid index: `len - 1`, or `0` for an empty list.
    pub open spec fn spec_upper(self) -> usize {
        if self.spec_len() > 0 {
            (self.spec_len() - 1) as usize
        } else {
            0
        }
    }

    /// The invariant every operation preserves: a present selection is in
    /// bounds, the offset never passes the last item, and an empty list has
    /// no selection and offset `0`.
    pub open spec fn wf(self) -> bool {
        &&& self.spec_len() <= usize::MAX
        &&& (self.selected matches Some(s) ==> s < self.spec_len())
        &&& self.offset <= self.spec_upper()
        &&& (self.spec_len() == 0 ==> self.selected is None && self.offset == 0)
    }

    pub open spec fn with_sel(self, s: Option<usize>) -> Self {
        StatefulList { selected: s, ..self }
    }

    pub open spec fn with_off(self, o: usize) -> Self {
        StatefulList { offset: o, ..self }
    }

    /// The selection a movement starts from: the current one, or the first
    /// index when nothing is selected.
    pub open spec fn start_sel(self) -> usize {
        match self.selected {
            Some(s) => s,
            None => 0,
        }
    }

    pub open spec fn is_first_spec(self) -> bool {
        self.selected == Some(0usize)
    }

    pub open spec fn is_last_spec(self) -> bool {
        self.selected == Some(self.spec_upper())
    }

    /// `start + d`, clamped so it never passes `up`.
    pub open spec fn clamped_add(start: usize, d: usize, up: usize) -> usize {
        if start + d < up {
            (start + d) as usize
        } else {
            up
        }
    }

    /// `start - d`, clamped so it never passes `0`.
    pub open spec fn clamped_sub(start: usize, d: usize) -> usize {
        if start < d {
            0
        } else {
            (start - d) as usize
        }
    }

    /// Result of `first`: select index `0`; unchanged (and reported so) when
    /// the list is empty or the first item is already selected.
    pub open spec fn first_t(self) -> (Self, bool) {
        if self.spec_len() == 0 || self.is_first_spec() {
            (self, false)
        } else {
            (self.with_sel(Some(0usize)), true)
        }
    }

    /// Result of `last`: select the greatest index; unchanged when the list
    /// is empty or the last item is already selected.
    pub open spec fn last_t(self) -> (Self, bool) {
        if self.spec_len() == 0 || self.is_last_spec() {
            (self, false)
        } else {
            (self.with_sel(Some(self.spec_upper())), true)
        }
    }

    /// Result of `advance`: move the selection `distance` forward, clamped
    /// to the last index; a no-op at the last index or on an empty list.
    pub open spec fn advance_t(self, distance: usize) -> (Self, bool) {
        if self.spec_len() == 0 || self.is_last_spec() {
            (self, false)
        } else {
            (
                self.with_sel(
                    Some(Self::clamped_add(self.start_sel(), distance, self.spec_upper())),
                ),
                true,
            )
        }
    }

    /// Result of `retreat`: move the selection `distance` backward, clamped
    /// to index `0`; a no-op at the first index or on an empty list.
    pub open spec fn retreat_t(self, distance: usize) -> (Self, bool) {
        if self.spec_len() == 0 || self.is_first_spec() {
            (self, false)
        } else {
            (self.with_sel(Some(Self::clamped_sub(self.start_sel(), distance))), true)
        }
    }

    /// Result of `advance_offset`: move the offset forward, clamped to the
    /// last index. The selection is not touched.
    pub open spec fn advance_offset_t(self, distance: usize) -> Self {
        self.with_off(Self::clamped_add(self.off(), distance, self.spec_upper()))
    }

    /// Result of `retreat_offset`: move the offset backward, clamped to `0`.
    pub open spec fn retreat_offset_t(self, distance: usize) -> Self {
        self.with_off(Self::clamped_sub(self.off(), distance))
    }

    pub fn with_items(items: Vec<T>) -> (r: StatefulList<T>)
        ensures
            r.wf(),
            r.spec_items() == items@,
            r.sel() is None,
            r.off() == 0,
    {
        // The length fits in usize, which is what `wf` records of it.
        let n = items.len();
        assert(items@.len() == n);
        StatefulList { items, selected: None, offset: 0 }
    }

    pub fn len(&self) -> (r: usize)
        ensures
            r == self.spec_len(),
    {
        self.items.len()
    }

    pub fn lower_bound(&self) -> (r: usize)
        ensures
            r == 0,
    {
        0
    }

    pub fn upper_bound(&self) -> (r: usize)
        ensures
            r == self.spec_upper(),
    {
        let len = self.items.len();
        if len > 0 {
            len - 1
        } else {
            0
        }
    }

    pub fn get(&self, index: usize) -> (r: &T)
        requires
            index < self.spec_len(),
        ensures
            *r == self.spec_items()[index as int],
    {
        &self.items[index]
    }

    pub fn items(&self) -> (r: &Vec<T>)
        ensures
            r@ == self.spec_items(),
    {
        &self.items
    }

    pub fn selected(&self) -> (r: Option<usize>)
        ensures
            r == self.sel(),
    {
        self.selected
    }

    pub fn set_selected(&mut self, index: Option<usize>)
        requires
            old(self).wf(),
            index matches Some(i) ==> i < old(self).spec_len(),
        ensures
            final(self).wf(),
            *final(self) == old(self).with_sel(index),
    {
        self.selected = index;
    }

    pub fn unselect(&mut self)
        requires
            old(self).wf(),
        ensures
            final(self).wf(),
            *final(self) == old(self).with_sel(None),
    {
        self.selected = None;
    }

    pub fn offset(&self) -> (r: usize)
        ensures
            r == self.off(),
    {
        self.offset
    }

    pub fn set_offset(&mut self, offset: usize)
        requires
            old(self).wf(),
            offset <= old(self).spec_upper(),
            old(self).spec_len() == 0 ==> offset == 0,
        ensures
            final(self).wf(),
            *final(self) == old(self).with_off(offset),
    {
        self.offset = offset;
    }

    pub fn at_offset_first(&self) -> (r: bool)
        ensures
            r == (self.off() == 0),
    {
        self.offset == 0
    }

    pub fn at_offset_last(&self) -> (r: bool)
        ensures
            r == (self.off() == self.spec_upper()),
    {
        self.offset == self.upper_bound()
    }

    pub fn offset_first(&mut self)
        requires
            old(self).wf(),
        ensures
            final(self).wf(),
            *final(self) == old(self).with_off(0usize),
    {
        self.offset = 0;
    }

    pub fn offset_last(&mut self)
        requires
            old(self).wf(),
        ensures
            final(self).wf(),
            *final(self) == old(self).with_off(old(self).spec_upper()),
    {
        self.offset = self.upper_bound();
    }

    pub fn advance_offset(&mut self, distance: usize)
        requires
            old(self).wf(),
        ensures
            final(self).wf(),
            *final(self) == old(self).advance_offset_t(distance),
    {
        let up = self.upper_bound();
        if self.offset < up && distance < up - self.offset {
            self.offset = self.offset + distance;
        } else {
            self.offset = up;
        }
    }

    pub fn retreat_offset(&mut self, distance: usize)
        requires
            old(self).wf(),
        ensures
            final(self).wf(),
            *final(self) == old(self).retreat_offset_t(distance),
    {
        if self.offset < distance {
            self.offset = 0;
        } else {
            self.offset = self.offset - distance;
        }
    }

    pub fn next_offset(&mut self)
        requires
            old(self).wf(),
        ensures
            final(self).wf(),
            *final(self) == old(self).advance_offset_t(1),
    {
        self.advance_offset(1)
    }

    pub fn previous_offset(&mut self)
        requires
            old(self).wf(),
        ensures
            final(self).wf(),
            *final(self) == old(self).retreat_offset_t(1),
    {
        self.retreat_offset(1)
    }

    pub fn is_first(&self) -> (r: bool)
        ensures
            r == self.is_first_spec(),
    {
        match self.selected {
            Some(selected) => selected == 0,
            None => false,
        }
    }

    pub fn is_last(&self) -> (r: bool)
        ensures
            r == self.is_last_spec(),
    {
        match self.selected {
            Some(selected) => selected == self.upper_bound(),
            None => false,
        }
    }

    pub fn first(&mut self) -> (changed: bool)
        requires
            old(self).wf(),
        ensures
            final(self).wf(),
            (*final(self), changed) == old(self).first_t(),
    {
        if self.items.len() == 0 || self.is_first() {
            return false;
        }
        self.selected = Some(0);
        true
    }

    pub fn last(&mut self) -> (changed: bool)
        requires
            old(self).wf(),
        ensures
            final(self).wf(),
            (*final(self), changed) == old(self).last_t(),
    {
        if self.items.len() == 0 || self.is_last() {
            return false;
        }
        self.selected = Some(self.upper_bound());
        true
    }

    pub fn advance(&mut self, distance: usize) -> (changed: bool)
        requires
            old(self).wf(),
        ensures
            final(self).wf(),
            (*final(self), changed) == old(self).advance_t(distance),
    {
        if self.items.len() == 0 || self.is_last() {
            return false;
        }
        let start = match self.selected {
            Some(selected) => selected,
            None => 0,
        };
        let up = self.upper_bound();
        if start < up && distance < up - start {
            self.selected = Some(start + distance);
        } else {
            self.selected = Some(up);
        }
        true
    }

    pub fn retreat(&mut self, distance: usize) -> (changed: bool)
        requires
            old(self).wf(),
        ensures
            final(self).wf(),
            (*final(self), changed) == old(self).retreat_t(distance),
    {
        if self.items.len() == 0 || self.is_first() {
            return false;
        }
        let start = match self.selected {
            Some(selected) => selected,
            None => 0,
        };
        if start < distance {
            self.selected = Some(0);
        } else {
            self.selected = Some(start - distance);
        }
        true
    }

    pub fn next(&mut self) -> (changed: bool)
        requires
            old(self).wf(),
        ensures
            final(self).wf(),
            (*final(self), changed) == old(self).advance_t(1),
    {
        self.advance(1)
    }

    pub fn previous(&mut self) -> (changed: bool)
        requires
            old(self).wf(),
        ensures
            final(self).wf(),
            (*final(self), changed) == old(self).retreat_t(1),
    {
        self.retreat(1)
    }
}

/// Law: from any interior index, moving the selection forward one step and
/// then back one step returns to the original state, and both steps report a
/// change.
pub proof fn lemma_next_then_previous<T>(s: StatefulList<T>, i: usize)
    requires
        s.wf(),
        s.sel() == Some(i),
        i + 1 < s.spec_len(),
    ensures
        ({
            let (s1, c1) = s.advance_t(1);
            let (s2, c2) = s1.retreat_t(1);
            c1 && c2 && s1.sel() == Some((i + 1) as usize) && s2 == s
        }),
{
    let (s1, c1) = s.advance_t(1);
    let (s2, c2) = s1.retreat_t(1);
    assert(s2.sel() == Some(i));
    assert(s2 == s);
}

/// Law: at the last index, moving the selection forward is a no-op and
/// reports no change.
pub proof fn lemma_advance_at_last<T>(s: StatefulList<T>, distance: usize)
    requires
        s.wf(),
        s.spec_len() > 0,
        s.sel() == Some(s.spec_upper()),
    ensures
        s.advance_t(distance) == (s, false),
{
}

/// Law: jumping to the end, paging up, and jumping to the end again selects
/// the same index as a single jump to the end.
pub proof fn lemma_end_page_up_end<T>(s: StatefulList<T>, page: usize)
    requires
        s.wf(),
        s.spec_len() > 0,
    ensures
        ({
            let s1 = s.last_t().0;
            let s2 = s1.retreat_t(page).0;
            let s3 = s2.last_t().0;
            s3.sel() == s.last_t().0.sel()
        }),
{
}

} // verus!
