//! Scrollbar geometry, kept consistent with the list or text it mirrors.
//!
//! The state is recomputed from the owning pane's content length, viewport
//! extent and offset after every mutation; recomputation is a pure function
//! of those three values. A scrollbar whose content fits its viewport is
//! hidden, which is encoded as `content_length == 0`.

use crate::rect::Rect;
use crate::spec_page_limit;
use vstd::prelude::*;

verus! {

#[derive(Clone, Copy, PartialEq, Eq, Structural, Debug)]
pub struct ScrollbarState {
    pub content_length: usize,
    pub viewport_length: usize,
    pub position: usize,
}

/// Where on a scrollbar a mouse click landed: the arrow at either end, the
/// thumb, or the track before or after the thumb.
#[derive(Clone, Copy, PartialEq, Eq, Structural, Debug)]
pub enum ScrollbarHit {
    Begin,
    TrackLow,
    Thumb,
    TrackHigh,
    End,
}

/// The scrollbar state that mirrors content of `len` rows seen through a
/// viewport of `viewport` rows at scroll position `offset`: hidden when the
/// content fits, else showing the full extent and the current position.
pub open spec fn sync_spec(len: usize, viewport: usize, offset: usize) -> ScrollbarState {
    if len <= viewport {
        ScrollbarState { content_length: 0, viewport_length: viewport, position: 0 }
    } else {
        ScrollbarState { content_length: len, viewport_length: viewport, position: offset }
    }
}

impl ScrollbarState {
    /// A hidden scrollbar draws nothing and ignores position queries.
    pub open spec fn hidden(self) -> bool {
        self.content_length == 0
    }

    pub open spec fn wf(self) -> bool {
        self.position <= self.content_length || self.hidden()
    }

    pub fn new_hidden() -> (r: ScrollbarState)
        ensures
            r == (ScrollbarState { content_length: 0usize, viewport_length: 0usize, position: 0usize }),
            r.wf(),
    {
        ScrollbarState { content_length: 0, viewport_length: 0, position: 0 }
    }

    /// Recompute the state from the owning pane's values.
    pub fn synced(len: usize, viewport: usize, offset: usize) -> (r: ScrollbarState)
        requires
            offset <= len,
        ensures
            r == sync_spec(len, viewport, offset),
            r.wf(),
    {
        if len <= viewport {
            ScrollbarState { content_length: 0, viewport_length: viewport, position: 0 }
        } else {
            ScrollbarState { content_length: len, viewport_length: viewport, position: offset }
        }
    }

    pub fn is_hidden(&self) -> (r: bool)
        ensures
            r == self.hidden(),
    {
        self.content_length == 0
    }
}

/// Law: the synchronized scrollbar is hidden exactly when the content fits
/// the viewport.
pub proof fn lemma_hidden_iff_fits(len: usize, viewport: usize, offset: usize)
    ensures
        sync_spec(len, viewport, offset).hidden() <==> len <= viewport,
        sync_spec(len, viewport, offset).hidden() <==> spec_page_limit(
            len as nat,
            viewport as nat,
        ) == 0,
{
}

/// Cell index of the thumb within a track of `track` cells, proportional to
/// `position` out of `content`.
pub open spec fn spec_thumb_index(position: usize, track: usize, content: usize) -> int
    recommends
        content > 0,
{
    position * track / (content as int)
}

/// Where a click at cross-axis coordinate `along` lands on a scrollbar that
/// runs from cell `lo` to cell `hi` inclusive: arrows at both ends, and a
/// one-cell thumb placed proportionally on the track between them.
pub open spec fn spec_strip_hit(lo: int, hi: int, along: int, state: ScrollbarState) -> ScrollbarHit
    recommends
        lo <= along <= hi,
        !state.hidden(),
{
    if along == lo {
        ScrollbarHit::Begin
    } else if along == hi {
        ScrollbarHit::End
    } else {
        let thumb = lo + 1 + spec_thumb_index(state.position, (hi - lo - 2) as usize, state.content_length);
        if along < thumb {
            ScrollbarHit::TrackLow
        } else if along == thumb {
            ScrollbarHit::Thumb
        } else {
            ScrollbarHit::TrackHigh
        }
    }
}

/// Where a click lands on a vertical scrollbar drawn along the rightmost
/// column of `area`; nothing when the scrollbar is hidden or the click is
/// outside that column.
pub open spec fn spec_hit_vertical(area: Rect, state: ScrollbarState, x: u16, y: u16) -> Option<
    ScrollbarHit,
> {
    if state.hidden() || area.width == 0 || area.height == 0 || x != area.x + area.width - 1 || !(
    area.y <= y < area.y + area.height) {
        None
    } else {
        Some(spec_strip_hit(area.y as int, area.y + area.height - 1, y as int, state))
    }
}

/// Where a click lands on a horizontal scrollbar drawn along the bottom row
/// of `area`.
pub open spec fn spec_hit_horizontal(area: Rect, state: ScrollbarState, x: u16, y: u16) -> Option<
    ScrollbarHit,
> {
    if state.hidden() || area.width == 0 || area.height == 0 || y != area.y + area.height - 1 || !(
    area.x <= x < area.x + area.width) {
        None
    } else {
        Some(spec_strip_hit(area.x as int, area.x + area.width - 1, x as int, state))
    }
}

/// Hit-test a click against a vertical scrollbar drawn along the rightmost
/// column of `area`. Returns nothing when the scrollbar is hidden or the
/// click is outside that column.
pub fn hit_test_vertical(area: Rect, state: &ScrollbarState, x: u16, y: u16) -> (r: Option<
    ScrollbarHit,
>)
    requires
        state.wf(),
    ensures
        r == spec_hit_vertical(area, *state, x, y),
{
    if state.content_length == 0 || area.width == 0 || area.height == 0 {
        return None;
    }
    let col = area.x as u32 + area.width as u32 - 1;
    if (x as u32) != col || y < area.y || (y as u32) >= area.y as u32 + area.height as u32 {
        return None;
    }
    Some(strip_hit(area.y, area.height, y, state))
}

/// Hit-test a click against a horizontal scrollbar drawn along the bottom
/// row of `area`.
pub fn hit_test_horizontal(area: Rect, state: &ScrollbarState, x: u16, y: u16) -> (r: Option<
    ScrollbarHit,
>)
    requires
        state.wf(),
    ensures
        r == spec_hit_horizontal(area, *state, x, y),
{
    if state.content_length == 0 || area.width == 0 || area.height == 0 {
        return None;
    }
    let row = area.y as u32 + area.height as u32 - 1;
    if (y as u32) != row || x < area.x || (x as u32) >= area.x as u32 + area.width as u32 {
        return None;
    }
    Some(strip_hit(area.x, area.width, x, state))
}

/// Shared strip geometry: the strip starts at cell `lo`, spans `extent`
/// cells, and the click is at `along`.
fn strip_hit(lo: u16, extent: u16, along: u16, state: &ScrollbarState) -> (r: ScrollbarHit)
    requires
        state.wf(),
        !state.hidden(),
        extent > 0,
        lo <= along < lo + extent,
    ensures
        r == spec_strip_hit(lo as int, lo + extent - 1, along as int, *state),
{
    let hi = lo as u32 + extent as u32 - 1;
    if along as u32 == lo as u32 {
        ScrollbarHit::Begin
    } else if along as u32 == hi {
        ScrollbarHit::End
    } else {
        // Not at either arrow, so the strip has at least three cells; the
        // thumb index ranges over the track cells `0..=extent - 3`.
        let track = extent - 3;
        let p = state.position as u128;
        let t = track as u128;
        let c = state.content_length as u128;
        proof {
            assert(p * t <= 0xffff_ffff_ffff_ffff_ffffu128) by (nonlinear_arith)
                requires
                    p <= 0xffff_ffff_ffff_ffffu128,
                    t <= 0xffffu128,
            ;
            assert(p as int * t as int / (c as int) <= t as int) by (nonlinear_arith)
                requires
                    c > 0,
                    p <= c,
                    t >= 0,
            ;
        }
        let idx = p * t / c;
        assert(idx == spec_thumb_index(state.position, track as usize, state.content_length));
        let thumb = lo as u32 + 1 + idx as u32;
        if (along as u32) < thumb {
            ScrollbarHit::TrackLow
        } else if along as u32 == thumb {
            ScrollbarHit::Thumb
        } else {
            ScrollbarHit::TrackHigh
        }
    }
}

} // verus!
