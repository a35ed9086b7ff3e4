//! The folder preview pane: a read-only listing of the selected directory's
//! contents, scrolled by offset alone (the cursor is never shown here),
//! with a vertical scrollbar kept in sync with the offset.

use crate::entry::Entry;
use crate::events::{spec_is_down_key, spec_is_up_key, KeyCode, KeyEvent, MouseButton, MouseEvent,
    MouseEventKind};
use crate::events;
use crate::rect::Rect;
use crate::scrollbar::{spec_hit_vertical, sync_spec, ScrollbarHit, ScrollbarState};
use crate::scrollbar;
use crate::spec_page_limit;
use crate::stateful_list::StatefulList;
use vstd::prelude::*;

verus! {

pub struct Folder {
    /// The directory being previewed, or nothing when the pane is empty.
    pub entry: Option<Entry>,
    /// The directory's contents, in the order the application listed them.
    pub entry_list: StatefulList<Entry>,
    pub scrollbar_state: ScrollbarState,
    pub area: Rect,
    pub inner_area: Rect,
    pub scrollbar_area: Rect,
}

impl Folder {
    pub open spec fn spec_len(self) -> nat {
        self.entry_list.spec_len()
    }

    pub open spec fn off(self) -> usize {
        self.entry_list.off()
    }

    /// Rows of content visible at once.
    pub open spec fn viewport(self) -> usize {
        self.inner_area.height as usize
    }

    /// Greatest offset the pane ever scrolls to: the pagination ceiling,
    /// additionally capped at the last index so it stays a valid offset.
    pub open spec fn off_limit(self) -> usize {
        let limit = spec_page_limit(self.spec_len(), self.viewport() as nat);
        if limit <= self.entry_list.spec_upper() {
            limit as usize
        } else {
            self.entry_list.spec_upper()
        }
    }

    /// The invariant every operation preserves: the offset never passes the
    /// pagination ceiling, and the scrollbar mirrors the current offset.
    pub open spec fn wf(self) -> bool {
        &&& self.entry_list.wf()
        &&& self.off() <= self.off_limit()
        &&& self.scrollbar_state == sync_spec(
            self.spec_len() as usize,
            self.viewport(),
            self.off(),
        )
    }

    /// The offset after a key press, per the shared clamping rules: one
    /// line for Up/Down, one viewport for PageUp/PageDown, the limits for
    /// Home/End.
    pub open spec fn offset_after_key(self, key: KeyEvent) -> usize {
        if spec_is_up_key(key) {
            StatefulList::<Entry>::clamped_sub(self.off(), 1)
        } else if spec_is_down_key(key) {
            StatefulList::<Entry>::clamped_add(self.off(), 1, self.off_limit())
        } else {
            match key.code {
                KeyCode::Home => 0usize,
                KeyCode::End => self.off_limit(),
                KeyCode::PageUp => StatefulList::<Entry>::clamped_sub(self.off(), self.viewport()),
                KeyCode::PageDown => StatefulList::<Entry>::clamped_add(
                    self.off(),
                    self.viewport(),
                    self.off_limit(),
                ),
                _ => self.off(),
            }
        }
    }

    /// The whole pane state after a key press: the offset moves and the
    /// scrollbar is re-synchronized; nothing else changes.
    pub open spec fn after_key(self, key: KeyEvent) -> Self {
        let new_off = self.offset_after_key(key);
        Folder {
            entry_list: self.entry_list.with_off(new_off),
            scrollbar_state: sync_spec(self.spec_len() as usize, self.viewport(), new_off),
            ..self
        }
    }

    /// The key a mouse event stands for: wheel scrolling moves one line; a
    /// left click on the scrollbar pages or steps toward the clicked spot.
    pub open spec fn mouse_key(self, ev: MouseEvent) -> Option<KeyEvent> {
        match ev.kind {
            MouseEventKind::Down(button) => {
                if button == MouseButton::Left {
                    match spec_hit_vertical(
                        self.scrollbar_area,
                        self.scrollbar_state,
                        ev.column,
                        ev.row,
                    ) {
                        Some(ScrollbarHit::Begin) => Some(
                            KeyEvent { code: KeyCode::Up, modifiers: events::KeyModifiers::Empty },
                        ),
                        Some(ScrollbarHit::TrackLow) => Some(
                            KeyEvent {
                                code: KeyCode::PageUp,
                                modifiers: events::KeyModifiers::Empty,
                            },
                        ),
                        Some(ScrollbarHit::TrackHigh) => Some(
                            KeyEvent {
                                code: KeyCode::PageDown,
                                modifiers: events::KeyModifiers::Empty,
                            },
                        ),
                        Some(ScrollbarHit::End) => Some(
                            KeyEvent {
                                code: KeyCode::Down,
                                modifiers: events::KeyModifiers::Empty,
                            },
                        ),
                        _ => None,
                    }
                } else {
                    None
                }
            },
            MouseEventKind::ScrollUp => Some(
                KeyEvent { code: KeyCode::Up, modifiers: events::KeyModifiers::Empty },
            ),
            MouseEventKind::ScrollDown => Some(
                KeyEvent { code: KeyCode::Down, modifiers: events::KeyModifiers::Empty },
            ),
            MouseEventKind::Other => None,
        }
    }

    /// Law: jumping to the end, paging up, and jumping to the end again
    /// scrolls to the same offset as a single jump to the end.
    pub proof fn lemma_end_page_up_end(self)
        requires
            self.wf(),
        ensures
            ({
                let end = KeyEvent { code: KeyCode::End, modifiers: events::KeyModifiers::Empty };
                let page_up = KeyEvent {
                    code: KeyCode::PageUp,
                    modifiers: events::KeyModifiers::Empty,
                };
                self.after_key(end).after_key(page_up).after_key(end).off() == self.after_key(
                    end,
                ).off()
            }),
    {
    }

    pub fn new() -> (r: Folder)
        ensures
            r.wf(),
            r.entry is None,
            r.spec_len() == 0,
            r.off() == 0,
    {
        Folder {
            entry: None,
            entry_list: StatefulList::with_items(Vec::new()),
            scrollbar_state: ScrollbarState::new_hidden(),
            area: Rect::empty(),
            inner_area: Rect::empty(),
            scrollbar_area: Rect::empty(),
        }
    }

    fn viewport_len(&self) -> (r: usize)
        ensures
            r == self.viewport(),
    {
        self.inner_area.height as usize
    }

    /// The greatest offset this pane scrolls to.
    pub fn vertical_page_limit(&self) -> (r: usize)
        requires
            self.entry_list.wf(),
        ensures
            r == self.off_limit(),
    {
        let limit = crate::page_limit(self.entry_list.len(), self.viewport_len());
        let upper = self.entry_list.upper_bound();
        if limit <= upper {
            limit
        } else {
            upper
        }
    }

    /// Re-derive the scrollbar from the current list and viewport.
    fn sync_scrollbar(&mut self)
        requires
            old(self).entry_list.wf(),
            old(self).off() <= old(self).off_limit(),
        ensures
            *final(self) == (Folder {
                scrollbar_state: sync_spec(
                    old(self).spec_len() as usize,
                    old(self).viewport(),
                    old(self).off(),
                ),
                ..*old(self)
            }),
            final(self).wf(),
    {
        self.scrollbar_state = ScrollbarState::synced(
            self.entry_list.len(),
            self.viewport_len(),
            self.entry_list.offset(),
        );
    }

    /// Place the pane, shrink the content and scrollbar regions into it,
    /// and re-clamp the offset to the new viewport.
    pub fn set_area(&mut self, area: Rect)
        requires
            old(self).entry_list.wf(),
        ensures
            final(self).area == area,
            final(self).inner_area == area.inner_spec(2, 1),
            final(self).scrollbar_area == area.inner_spec(0, 1),
            final(self).entry == old(self).entry,
            final(self).entry_list.spec_items() == old(self).entry_list.spec_items(),
            final(self).entry_list.sel() == old(self).entry_list.sel(),
            final(self).off() == (if old(self).off() <= final(self).off_limit() {
                old(self).off()
            } else {
                final(self).off_limit()
            }),
            final(self).wf(),
    {
        self.area = area;
        self.inner_area = area.inner(2, 1);
        self.scrollbar_area = area.inner(0, 1);
        let limit = self.vertical_page_limit();
        if self.entry_list.offset() > limit {
            self.entry_list.set_offset(limit);
        }
        self.sync_scrollbar();
    }

    /// Show a directory's contents: the previous listing is replaced
    /// wholesale and the view returns to the top.
    pub fn init(&mut self, entry: Option<Entry>, items: Vec<Entry>, area: Rect)
        ensures
            final(self).entry == entry,
            final(self).entry_list.spec_items() == items@,
            final(self).entry_list.sel() is None,
            final(self).off() == 0,
            final(self).area == area,
            final(self).inner_area == area.inner_spec(2, 1),
            final(self).scrollbar_area == area.inner_spec(0, 1),
            final(self).wf(),
    {
        self.entry = entry;
        self.entry_list = StatefulList::with_items(items);
        self.set_area(area);
    }

    /// Empty the pane.
    pub fn clear(&mut self)
        ensures
            final(self).entry is None,
            final(self).spec_len() == 0,
            final(self).off() == 0,
            final(self).area == old(self).area,
            final(self).wf(),
    {
        self.entry = None;
        self.entry_list = StatefulList::with_items(Vec::new());
        self.sync_scrollbar();
    }

    /// Scroll in response to a key press.
    pub fn handle_key_event(&mut self, key_event: KeyEvent)
        requires
            old(self).wf(),
        ensures
            *final(self) == old(self).after_key(key_event),
            final(self).wf(),
    {
        let limit = self.vertical_page_limit();
        if events::is_up_key(key_event) {
            self.entry_list.retreat_offset(1);
        } else if events::is_down_key(key_event) {
            if self.entry_list.offset() < limit {
                self.entry_list.next_offset();
            }
        } else {
            match key_event.code {
                KeyCode::Home => {
                    self.entry_list.offset_first();
                },
                KeyCode::End => {
                    self.entry_list.set_offset(limit);
                },
                KeyCode::PageUp => {
                    let page = self.viewport_len();
                    self.entry_list.retreat_offset(page);
                },
                KeyCode::PageDown => {
                    let page = self.viewport_len();
                    let off = self.entry_list.offset();
                    if off < limit && page < limit - off {
                        self.entry_list.set_offset(off + page);
                    } else {
                        self.entry_list.set_offset(limit);
                    }
                },
                _ => {},
            }
        }
        self.sync_scrollbar();
    }

    /// Scroll in response to a mouse event: the wheel moves one line, and a
    /// left click on the scrollbar is translated to the equivalent key.
    pub fn handle_mouse_event(&mut self, mouse_event: MouseEvent)
        requires
            old(self).wf(),
        ensures
            *final(self) == (match old(self).mouse_key(mouse_event) {
                Some(k) => old(self).after_key(k),
                None => *old(self),
            }),
            final(self).wf(),
    {
        match mouse_event.kind {
            MouseEventKind::Down(button) => {
                if button == MouseButton::Left {
                    let hit = scrollbar::hit_test_vertical(
                        self.scrollbar_area,
                        &self.scrollbar_state,
                        mouse_event.column,
                        mouse_event.row,
                    );
                    match hit {
                        Some(ScrollbarHit::Begin) => {
                            self.handle_key_event(
                                KeyEvent {
                                    code: KeyCode::Up,
                                    modifiers: events::KeyModifiers::Empty,
                                },
                            );
                        },
                        Some(ScrollbarHit::TrackLow) => {
                            self.handle_key_event(
                                KeyEvent {
                                    code: KeyCode::PageUp,
                                    modifiers: events::KeyModifiers::Empty,
                                },
                            );
                        },
                        Some(ScrollbarHit::TrackHigh) => {
                            self.handle_key_event(
                                KeyEvent {
                                    code: KeyCode::PageDown,
                                    modifiers: events::KeyModifiers::Empty,
                                },
                            );
                        },
                        Some(ScrollbarHit::End) => {
                            self.handle_key_event(
                                KeyEvent {
                                    code: KeyCode::Down,
                                    modifiers: events::KeyModifiers::Empty,
                                },
                            );
                        },
                        _ => {},
                    }
                }
            },
            MouseEventKind::ScrollUp => {
                self.handle_key_event(
                    KeyEvent { code: KeyCode::Up, modifiers: events::KeyModifiers::Empty },
                );
            },
            MouseEventKind::ScrollDown => {
                self.handle_key_event(
                    KeyEvent { code: KeyCode::Down, modifiers: events::KeyModifiers::Empty },
                );
            },
            MouseEventKind::Other => {},
        }
    }
}

} // verus!
