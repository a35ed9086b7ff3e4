//! The text preview pane: a file's lines with independent vertical and
//! horizontal scrolling. Unmodified Home/End and Left/Right work on the
//! horizontal position; Ctrl selects the vertical axis for Home/End and
//! page-wise steps for Left/Right. Each axis has its own scrollbar, kept in
//! sync with its offset.

use crate::entry::Entry;
use crate::events::{spec_is_down_key, spec_is_up_key, KeyCode, KeyEvent, KeyModifiers, MouseButton,
    MouseEvent, MouseEventKind};
use crate::events;
use crate::rect::Rect;
use crate::scrollbar::{spec_hit_horizontal, spec_hit_vertical, sync_spec, ScrollbarHit,
    ScrollbarState};
use crate::scrollbar;
use crate::spec_page_limit;
use vstd::prelude::*;
use vstd::string::StrSliceExecFns;

verus! {

/// Length, in characters, of the longest line.
pub open spec fn spec_widest(lines: Seq<String>) -> nat
    decreases lines.len(),
{
    if lines.len() == 0 {
        0
    } else {
        let rest = spec_widest(lines.drop_last());
        if lines.last()@.len() > rest {
            lines.last()@.len()
        } else {
            rest
        }
    }
}

/// `start + d`, clamped so it never passes `up`.
pub open spec fn clamped_add(start: usize, d: usize, up: usize) -> usize {
    if start + d < up {
        (start + d) as usize
    } else {
        up
    }
}

/// `start - d`, clamped so it never passes `0`.
pub open spec fn clamped_sub(start: usize, d: usize) -> usize {
    if start < d {
        0
    } else {
        (start - d) as usize
    }
}

pub struct Text {
    /// The file being previewed, or nothing when the pane is empty.
    pub entry: Option<Entry>,
    /// The file's lines.
    pub file_text: Vec<String>,
    /// Length of the longest line, in characters.
    pub widest_line_len: usize,
    pub vertical_offset: usize,
    pub horizontal_offset: usize,
    pub vertical_scrollbar_state: ScrollbarState,
    pub horizontal_scrollbar_state: ScrollbarState,
    pub area: Rect,
    pub inner_area: Rect,
    pub vertical_scrollbar_area: Rect,
    pub horizontal_scrollbar_area: Rect,
}

impl Text {
    pub open spec fn n_lines(self) -> nat {
        self.file_text@.len()
    }

    /// Greatest vertical offset: the pagination ceiling over the lines.
    pub open spec fn v_limit(self) -> nat {
        spec_page_limit(self.n_lines(), self.inner_area.height as nat)
    }

    /// Greatest horizontal offset: the pagination ceiling over the widest
    /// line.
    pub open spec fn h_limit(self) -> nat {
        spec_page_limit(self.widest_line_len as nat, self.inner_area.width as nat)
    }

    pub open spec fn can_scroll_vertically(self) -> bool {
        self.n_lines() > self.inner_area.height as nat
    }

    pub open spec fn can_scroll_horizontally(self) -> bool {
        self.widest_line_len > self.inner_area.width
    }

    /// The offsets are within their ceilings and the recorded widest-line
    /// length is the real one.
    pub open spec fn offsets_ok(self) -> bool {
        &&& self.n_lines() <= usize::MAX
        &&& self.widest_line_len == spec_widest(self.file_text@)
        &&& self.vertical_offset <= self.v_limit()
        &&& self.horizontal_offset <= self.h_limit()
    }

    /// The invariant every operation preserves: offsets in bounds and both
    /// scrollbars mirroring their offset.
    pub open spec fn wf(self) -> bool {
        &&& self.offsets_ok()
        &&& self.vertical_scrollbar_state == sync_spec(
            self.n_lines() as usize,
            self.inner_area.height as usize,
            self.vertical_offset,
        )
        &&& self.horizontal_scrollbar_state == sync_spec(
            self.widest_line_len,
            self.inner_area.width as usize,
            self.horizontal_offset,
        )
    }

    /// The two offsets after a key press. Up/Down and PageUp/PageDown move
    /// vertically; Home, End, Left and Right move vertically under Ctrl
    /// where noted and horizontally otherwise.
    pub open spec fn offsets_after_key(self, key: KeyEvent) -> (usize, usize) {
        let v = self.vertical_offset;
        let h = self.horizontal_offset;
        let vl = self.v_limit() as usize;
        let hl = self.h_limit() as usize;
        let page_v = self.inner_area.height as usize;
        let page_h = self.inner_area.width as usize;
        let ctrl = key.modifiers == KeyModifiers::Control;
        if spec_is_up_key(key) {
            (clamped_sub(v, 1), h)
        } else if spec_is_down_key(key) {
            (clamped_add(v, 1, vl), h)
        } else {
            match key.code {
                KeyCode::Home => if ctrl {
                    (0usize, h)
                } else {
                    (v, 0usize)
                },
                KeyCode::End => if ctrl {
                    (vl, h)
                } else {
                    (v, hl)
                },
                KeyCode::PageUp => (clamped_sub(v, page_v), h),
                KeyCode::PageDown => (clamped_add(v, page_v, vl), h),
                KeyCode::Left => if ctrl {
                    (v, clamped_sub(h, page_h))
                } else {
                    (v, clamped_sub(h, 1))
                },
                KeyCode::Right => if ctrl {
                    (v, clamped_add(h, page_h, hl))
                } else {
                    (v, clamped_add(h, 1, hl))
                },
                _ => (v, h),
            }
        }
    }

    /// The whole pane state after a key press: offsets move and both
    /// scrollbars are re-synchronized; nothing else changes.
    pub open spec fn after_key(self, key: KeyEvent) -> Self {
        let (v, h) = self.offsets_after_key(key);
        Text {
            vertical_offset: v,
            horizontal_offset: h,
            vertical_scrollbar_state: sync_spec(
                self.n_lines() as usize,
                self.inner_area.height as usize,
                v,
            ),
            horizontal_scrollbar_state: sync_spec(
                self.widest_line_len,
                self.inner_area.width as usize,
                h,
            ),
            ..self
        }
    }

    pub open spec fn apply_opt_key(self, key: Option<KeyEvent>) -> Self {
        match key {
            Some(k) => self.after_key(k),
            None => self,
        }
    }

    /// The vertical-axis key a mouse event stands for: wheel scrolling, or
    /// a left click on the vertical scrollbar.
    pub open spec fn mouse_vertical_key(self, ev: MouseEvent) -> Option<KeyEvent> {
        match ev.kind {
            MouseEventKind::Down(button) => {
                if button == MouseButton::Left {
                    match spec_hit_vertical(
                        self.vertical_scrollbar_area,
                        self.vertical_scrollbar_state,
                        ev.column,
                        ev.row,
                    ) {
                        Some(ScrollbarHit::Begin) => Some(
                            KeyEvent { code: KeyCode::Up, modifiers: KeyModifiers::Empty },
                        ),
                        Some(ScrollbarHit::TrackLow) => Some(
                            KeyEvent { code: KeyCode::PageUp, modifiers: KeyModifiers::Empty },
                        ),
                        Some(ScrollbarHit::TrackHigh) => Some(
                            KeyEvent { code: KeyCode::PageDown, modifiers: KeyModifiers::Empty },
                        ),
                        Some(ScrollbarHit::End) => Some(
                            KeyEvent { code: KeyCode::Down, modifiers: KeyModifiers::Empty },
                        ),
                        _ => None,
                    }
                } else {
                    None
                }
            },
            MouseEventKind::ScrollUp => Some(
                KeyEvent { code: KeyCode::Up, modifiers: KeyModifiers::Empty },
            ),
            MouseEventKind::ScrollDown => Some(
                KeyEvent { code: KeyCode::Down, modifiers: KeyModifiers::Empty },
            ),
            MouseEventKind::Other => None,
        }
    }

    /// The horizontal-axis key a left click on the horizontal scrollbar
    /// stands for: a single column at the arrows, a page on the track.
    pub open spec fn mouse_horizontal_key(self, ev: MouseEvent) -> Option<KeyEvent> {
        match ev.kind {
            MouseEventKind::Down(button) => {
                if button == MouseButton::Left {
                    match spec_hit_horizontal(
                        self.horizontal_scrollbar_area,
                        self.horizontal_scrollbar_state,
                        ev.column,
                        ev.row,
                    ) {
                        Some(ScrollbarHit::Begin) => Some(
                            KeyEvent { code: KeyCode::Left, modifiers: KeyModifiers::Empty },
                        ),
                        Some(ScrollbarHit::TrackLow) => Some(
                            KeyEvent { code: KeyCode::Left, modifiers: KeyModifiers::Control },
                        ),
                        Some(ScrollbarHit::TrackHigh) => Some(
                            KeyEvent { code: KeyCode::Right, modifiers: KeyModifiers::Control },
                        ),
                        Some(ScrollbarHit::End) => Some(
                            KeyEvent { code: KeyCode::Right, modifiers: KeyModifiers::Empty },
                        ),
                        _ => None,
                    }
                } else {
                    None
                }
            },
            _ => None,
        }
    }

    pub fn new() -> (r: Text)
        ensures
            r.wf(),
            r.entry is None,
            r.n_lines() == 0,
            r.vertical_offset == 0,
            r.horizontal_offset == 0,
    {
        Text {
            entry: None,
            file_text: Vec::new(),
            widest_line_len: 0,
            vertical_offset: 0,
            horizontal_offset: 0,
            vertical_scrollbar_state: ScrollbarState::new_hidden(),
            horizontal_scrollbar_state: ScrollbarState::new_hidden(),
            area: Rect::empty(),
            inner_area: Rect::empty(),
            vertical_scrollbar_area: Rect::empty(),
            horizontal_scrollbar_area: Rect::empty(),
        }
    }

    /// Length, in characters, of the longest of `lines`.
    pub fn widest_line_length(lines: &Vec<String>) -> (r: usize)
        ensures
            r == spec_widest(lines@),
    {
        let mut acc: usize = 0;
        let mut i: usize = 0;
        while i < lines.len()
            invariant
                i <= lines@.len(),
                acc == spec_widest(lines@.take(i as int)),
            decreases lines@.len() - i,
        {
            let l = lines[i].as_str().unicode_len();
            if l > acc {
                acc = l;
            }
            proof {
                assert(lines@.take(i + 1).drop_last() =~= lines@.take(i as int));
                assert(lines@.take(i + 1).last() == lines@[i as int]);
            }
            i = i + 1;
        }
        proof {
            assert(lines@.take(lines@.len() as int) =~= lines@);
        }
        acc
    }

    /// Re-derive both scrollbars from the current content and offsets.
    fn sync_scrollbars(&mut self)
        requires
            old(self).offsets_ok(),
        ensures
            *final(self) == (Text {
                vertical_scrollbar_state: sync_spec(
                    old(self).n_lines() as usize,
                    old(self).inner_area.height as usize,
                    old(self).vertical_offset,
                ),
                horizontal_scrollbar_state: sync_spec(
                    old(self).widest_line_len,
                    old(self).inner_area.width as usize,
                    old(self).horizontal_offset,
                ),
                ..*old(self)
            }),
            final(self).wf(),
    {
        let n = self.file_text.len();
        self.vertical_scrollbar_state = ScrollbarState::synced(
            n,
            self.inner_area.height as usize,
            self.vertical_offset,
        );
        self.horizontal_scrollbar_state = ScrollbarState::synced(
            self.widest_line_len,
            self.inner_area.width as usize,
            self.horizontal_offset,
        );
    }

    /// Place the pane, shrink the content and scrollbar regions into it,
    /// and re-clamp both offsets to the new viewport.
    pub fn set_area(&mut self, area: Rect)
        requires
            old(self).n_lines() <= usize::MAX,
            old(self).widest_line_len == spec_widest(old(self).file_text@),
        ensures
            final(self).area == area,
            final(self).inner_area == area.inner_spec(2, 1),
            final(self).vertical_scrollbar_area == area.inner_spec(0, 1),
            final(self).horizontal_scrollbar_area == area.inner_spec(1, 0),
            final(self).entry == old(self).entry,
            final(self).file_text == old(self).file_text,
            final(self).widest_line_len == old(self).widest_line_len,
            final(self).vertical_offset == (if old(self).vertical_offset <= final(self).v_limit() {
                old(self).vertical_offset
            } else {
                final(self).v_limit() as usize
            }),
            final(self).horizontal_offset == (if old(self).horizontal_offset
                <= final(self).h_limit() {
                old(self).horizontal_offset
            } else {
                final(self).h_limit() as usize
            }),
            final(self).wf(),
    {
        self.area = area;
        self.inner_area = area.inner(2, 1);
        self.vertical_scrollbar_area = area.inner(0, 1);
        self.horizontal_scrollbar_area = area.inner(1, 0);
        let n = self.file_text.len();
        let vl = crate::page_limit(n, self.inner_area.height as usize);
        let hl = crate::page_limit(self.widest_line_len, self.inner_area.width as usize);
        if self.vertical_offset > vl {
            self.vertical_offset = vl;
        }
        if self.horizontal_offset > hl {
            self.horizontal_offset = hl;
        }
        self.sync_scrollbars();
    }

    /// Show a file's lines: the previous content is replaced wholesale and
    /// both offsets return to the start.
    pub fn init(&mut self, entry: Option<Entry>, lines: Vec<String>, area: Rect)
        ensures
            final(self).entry == entry,
            final(self).file_text == lines,
            final(self).widest_line_len == spec_widest(lines@),
            final(self).vertical_offset == 0,
            final(self).horizontal_offset == 0,
            final(self).area == area,
            final(self).inner_area == area.inner_spec(2, 1),
            final(self).wf(),
    {
        self.entry = entry;
        self.widest_line_len = Self::widest_line_length(&lines);
        let n = lines.len();
        self.file_text = lines;
        self.vertical_offset = 0;
        self.horizontal_offset = 0;
        self.set_area(area);
    }

    /// Empty the pane.
    pub fn clear(&mut self)
        ensures
            final(self).entry is None,
            final(self).n_lines() == 0,
            final(self).widest_line_len == 0,
            final(self).vertical_offset == 0,
            final(self).horizontal_offset == 0,
            final(self).area == old(self).area,
            final(self).wf(),
    {
        self.entry = None;
        self.file_text = Vec::new();
        self.widest_line_len = 0;
        self.vertical_offset = 0;
        self.horizontal_offset = 0;
        self.sync_scrollbars();
    }

    /// Scroll in response to a key press.
    pub fn handle_key_event(&mut self, key_event: KeyEvent)
        requires
            old(self).wf(),
        ensures
            *final(self) == old(self).after_key(key_event),
            final(self).wf(),
    {
        let n = self.file_text.len();
        let vl = crate::page_limit(n, self.inner_area.height as usize);
        let hl = crate::page_limit(self.widest_line_len, self.inner_area.width as usize);
        let ctrl = self.is_control(key_event);
        if events::is_up_key(key_event) {
            if self.vertical_offset > 0 {
                self.vertical_offset = self.vertical_offset - 1;
            }
        } else if events::is_down_key(key_event) {
            if self.vertical_offset < vl {
                self.vertical_offset = self.vertical_offset + 1;
            }
        } else {
            match key_event.code {
                KeyCode::Home => {
                    if ctrl {
                        self.vertical_offset = 0;
                    } else {
                        self.horizontal_offset = 0;
                    }
                },
                KeyCode::End => {
                    if ctrl {
                        self.vertical_offset = vl;
                    } else {
                        self.horizontal_offset = hl;
                    }
                },
                KeyCode::PageUp => {
                    let page = self.inner_area.height as usize;
                    if self.vertical_offset > page {
                        self.vertical_offset = self.vertical_offset - page;
                    } else {
                        self.vertical_offset = 0;
                    }
                },
                KeyCode::PageDown => {
                    let page = self.inner_area.height as usize;
                    if self.vertical_offset < vl && page < vl - self.vertical_offset {
                        self.vertical_offset = self.vertical_offset + page;
                    } else {
                        self.vertical_offset = vl;
                    }
                },
                KeyCode::Left => {
                    let page: usize = if ctrl {
                        self.inner_area.width as usize
                    } else {
                        1
                    };
                    if self.horizontal_offset > page {
                        self.horizontal_offset = self.horizontal_offset - page;
                    } else {
                        self.horizontal_offset = 0;
                    }
                },
                KeyCode::Right => {
                    let page: usize = if ctrl {
                        self.inner_area.width as usize
                    } else {
                        1
                    };
                    if self.horizontal_offset < hl && page < hl - self.horizontal_offset {
                        self.horizontal_offset = self.horizontal_offset + page;
                    } else {
                        self.horizontal_offset = hl;
                    }
                },
                _ => {},
            }
        }
        self.sync_scrollbars();
    }

    fn is_control(&self, key_event: KeyEvent) -> (r: bool)
        ensures
            r == (key_event.modifiers == KeyModifiers::Control),
    {
        key_event.modifiers == KeyModifiers::Control
    }

    /// Scroll in response to a mouse event: the wheel moves one line, and a
    /// left click on either scrollbar is translated to the equivalent key
    /// on its axis.
    pub fn handle_mouse_event(&mut self, mouse_event: MouseEvent)
        requires
            old(self).wf(),
        ensures
            *final(self) == old(self).apply_opt_key(
                old(self).mouse_vertical_key(mouse_event),
            ).apply_opt_key(old(self).mouse_horizontal_key(mouse_event)),
            final(self).wf(),
    {
        let ghost pre = *self;
        match mouse_event.kind {
            MouseEventKind::Down(button) => {
                if button == MouseButton::Left {
                    let v_hit = scrollbar::hit_test_vertical(
                        self.vertical_scrollbar_area,
                        &self.vertical_scrollbar_state,
                        mouse_event.column,
                        mouse_event.row,
                    );
                    let h_hit = scrollbar::hit_test_horizontal(
                        self.horizontal_scrollbar_area,
                        &self.horizontal_scrollbar_state,
                        mouse_event.column,
                        mouse_event.row,
                    );
                    match v_hit {
                        Some(ScrollbarHit::Begin) => {
                            self.handle_key_event(
                                KeyEvent { code: KeyCode::Up, modifiers: KeyModifiers::Empty },
                            );
                        },
                        Some(ScrollbarHit::TrackLow) => {
                            self.handle_key_event(
                                KeyEvent { code: KeyCode::PageUp, modifiers: KeyModifiers::Empty },
                            );
                        },
                        Some(ScrollbarHit::TrackHigh) => {
                            self.handle_key_event(
                                KeyEvent {
                                    code: KeyCode::PageDown,
                                    modifiers: KeyModifiers::Empty,
                                },
                            );
                        },
                        Some(ScrollbarHit::End) => {
                            self.handle_key_event(
                                KeyEvent { code: KeyCode::Down, modifiers: KeyModifiers::Empty },
                            );
                        },
                        _ => {},
                    }
                    match h_hit {
                        Some(ScrollbarHit::Begin) => {
                            self.handle_key_event(
                                KeyEvent { code: KeyCode::Left, modifiers: KeyModifiers::Empty },
                            );
                        },
                        Some(ScrollbarHit::TrackLow) => {
                            self.handle_key_event(
                                KeyEvent { code: KeyCode::Left, modifiers: KeyModifiers::Control },
                            );
                        },
                        Some(ScrollbarHit::TrackHigh) => {
                            self.handle_key_event(
                                KeyEvent {
                                    code: KeyCode::Right,
                                    modifiers: KeyModifiers::Control,
                                },
                            );
                        },
                        Some(ScrollbarHit::End) => {
                            self.handle_key_event(
                                KeyEvent { code: KeyCode::Right, modifiers: KeyModifiers::Empty },
                            );
                        },
                        _ => {},
                    }
                }
            },
            MouseEventKind::ScrollUp => {
                self.handle_key_event(
                    KeyEvent { code: KeyCode::Up, modifiers: KeyModifiers::Empty },
                );
            },
            MouseEventKind::ScrollDown => {
                self.handle_key_event(
                    KeyEvent { code: KeyCode::Down, modifiers: KeyModifiers::Empty },
                );
            },
            MouseEventKind::Other => {},
        }
    }
}

} // verus!
