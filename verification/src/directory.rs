//! The directory pane: the listing of the working directory with the
//! selection cursor the rest of the browser follows.
//!
//! Key and mouse handling is a pure transition on the pane's state; the two
//! operations the pane cannot perform itself — changing the working
//! directory and reading the new listing — are returned as a request in the
//! response, and the application feeds the result back in through
//! [`Directory::apply_listing`].

use crate::entry::Entry;
use crate::events::{spec_is_down_key, spec_is_up_key, KeyCode, KeyEvent, MouseButton, MouseEvent,
    MouseEventKind};
use crate::events;
use crate::rect::Rect;
use crate::stateful_list::StatefulList;
use crate::util::{spec_find_wrapped, is_parent_marker};
use crate::util;
use vstd::prelude::*;

verus! {

/// What the application must do after a directory-pane event: report the
/// selection change to the preview, and, when `open_request` is set, change
/// the working directory to that entry, re-list it, and hand the listing
/// back through `apply_listing`. A successful open is itself a selection
/// change; a failed one raises a directory error.
pub struct DirectoryResponse {
    pub selection_changed: bool,
    pub open_request: Option<Entry>,
}

pub struct Directory {
    pub items: StatefulList<Entry>,
    pub area: Rect,
}

impl Directory {
    pub open spec fn wf(self) -> bool {
        self.items.wf()
    }

    pub open spec fn spec_len(self) -> nat {
        self.items.spec_len()
    }

    pub open spec fn with_items_list(self, items: StatefulList<Entry>) -> Self {
        Directory { items, ..self }
    }

    /// Whether the first row is the synthetic parent-directory entry.
    pub open spec fn spec_has_parent(self) -> bool {
        self.spec_len() > 0 && self.items.spec_items()[0].name@ == ".."@
    }

    /// The no-op response.
    pub open spec fn idle_response() -> DirectoryResponse {
        DirectoryResponse { selection_changed: false, open_request: None }
    }

    /// State and response after a key press, from a well-formed state.
    ///
    /// On an empty list every key is a no-op. With no selection, the first
    /// item is selected before the key acts, and a Down key is then
    /// consumed so the first item simply stays highlighted. Enter (and
    /// Backspace, after selecting the parent row) asks the application to
    /// open the selected entry when it is a directory. A character key
    /// jumps to the next entry starting with it, wrapping around, and
    /// always reports a selection change.
    pub open spec fn after_key(self, key: KeyEvent) -> (Directory, DirectoryResponse) {
        if self.spec_len() == 0 {
            (self, Self::idle_response())
        } else {
            let auto = self.items.sel() is None;
            let s0 = if auto {
                self.items.with_sel(Some(0usize))
            } else {
                self.items
            };
            if auto && spec_is_down_key(key) {
                (self.with_items_list(s0), Self::idle_response())
            } else if spec_is_up_key(key) {
                let (s1, c) = s0.retreat_t(1);
                (
                    self.with_items_list(s1),
                    DirectoryResponse { selection_changed: c, open_request: None },
                )
            } else if spec_is_down_key(key) {
                let (s1, c) = s0.advance_t(1);
                (
                    self.with_items_list(s1),
                    DirectoryResponse { selection_changed: c, open_request: None },
                )
            } else {
                match key.code {
                    KeyCode::Home => {
                        let (s1, c) = s0.first_t();
                        (
                            self.with_items_list(s1),
                            DirectoryResponse { selection_changed: c, open_request: None },
                        )
                    },
                    KeyCode::End => {
                        let (s1, c) = s0.last_t();
                        (
                            self.with_items_list(s1),
                            DirectoryResponse { selection_changed: c, open_request: None },
                        )
                    },
                    KeyCode::PageUp => {
                        let (s1, c) = s0.retreat_t(self.area.height as usize);
                        (
                            self.with_items_list(s1),
                            DirectoryResponse { selection_changed: c, open_request: None },
                        )
                    },
                    KeyCode::PageDown => {
                        let (s1, c) = s0.advance_t(self.area.height as usize);
                        (
                            self.with_items_list(s1),
                            DirectoryResponse { selection_changed: c, open_request: None },
                        )
                    },
                    KeyCode::Enter => {
                        let e = s0.spec_items()[s0.start_sel() as int];
                        (
                            self.with_items_list(s0),
                            DirectoryResponse {
                                selection_changed: false,
                                open_request: if e.is_dir_spec() {
                                    Some(e)
                                } else {
                                    None
                                },
                            },
                        )
                    },
                    KeyCode::Backspace => {
                        if self.spec_has_parent() {
                            let s1 = s0.with_sel(Some(0usize));
                            let e = s0.spec_items()[0];
                            (
                                self.with_items_list(s1),
                                DirectoryResponse {
                                    selection_changed: false,
                                    open_request: if e.is_dir_spec() {
                                        Some(e)
                                    } else {
                                        None
                                    },
                                },
                            )
                        } else {
                            (self.with_items_list(s0), Self::idle_response())
                        }
                    },
                    KeyCode::Char(c) => {
                        let s1 = match spec_find_wrapped(
                            s0.spec_items(),
                            c,
                            s0.start_sel() as int,
                        ) {
                            Some(i) => s0.with_sel(Some(i as usize)),
                            None => s0,
                        };
                        (
                            self.with_items_list(s1),
                            DirectoryResponse { selection_changed: true, open_request: None },
                        )
                    },
                    _ => (self.with_items_list(s0), Self::idle_response()),
                }
            }
        }
    }

    /// Index of the listing row at screen row `row`: rows map one below the
    /// pane's top border, shifted by the scroll offset.
    pub open spec fn spec_index_from_row(self, row: u16) -> Option<usize> {
        if row < self.area.y {
            None
        } else {
            let idx = row - self.area.y + self.items.off();
            if 0 < idx <= self.spec_len() {
                Some((idx - 1) as usize)
            } else {
                None
            }
        }
    }

    /// State and response after a mouse event: the wheel moves the cursor
    /// one row; a left click on an unselected row selects it, and one on
    /// the already-selected row opens it like Enter.
    pub open spec fn after_mouse(self, ev: MouseEvent) -> (Directory, DirectoryResponse) {
        match ev.kind {
            MouseEventKind::Down(button) => {
                if button == MouseButton::Left {
                    match self.spec_index_from_row(ev.row) {
                        Some(i) => {
                            if self.items.sel() == Some(i) {
                                self.after_key(
                                    KeyEvent {
                                        code: KeyCode::Enter,
                                        modifiers: events::KeyModifiers::Empty,
                                    },
                                )
                            } else {
                                (
                                    self.with_items_list(self.items.with_sel(Some(i))),
                                    DirectoryResponse {
                                        selection_changed: true,
                                        open_request: None,
                                    },
                                )
                            }
                        },
                        None => (self, Self::idle_response()),
                    }
                } else {
                    (self, Self::idle_response())
                }
            },
            MouseEventKind::ScrollUp => self.after_key(
                KeyEvent { code: KeyCode::Up, modifiers: events::KeyModifiers::Empty },
            ),
            MouseEventKind::ScrollDown => self.after_key(
                KeyEvent { code: KeyCode::Down, modifiers: events::KeyModifiers::Empty },
            ),
            MouseEventKind::Other => (self, Self::idle_response()),
        }
    }

    pub fn new() -> (r: Directory)
        ensures
            r.wf(),
            r.spec_len() == 0,
            r.items.sel() is None,
    {
        Directory { items: StatefulList::with_items(Vec::new()), area: Rect::empty() }
    }

    pub fn set_area(&mut self, area: Rect)
        ensures
            *final(self) == (Directory { area, ..*old(self) }),
    {
        self.area = area;
    }

    /// Replace the listing wholesale and select its first item.
    pub fn set_items(&mut self, items: Vec<Entry>)
        ensures
            final(self).items.spec_items() == items@,
            final(self).items.sel() == (if items@.len() > 0 {
                Some(0usize)
            } else {
                None::<usize>
            }),
            final(self).items.off() == 0,
            final(self).area == old(self).area,
            final(self).wf(),
    {
        self.items = StatefulList::with_items(items);
        self.items.first();
    }

    /// First index whose entry has exactly this path.
    pub open spec fn spec_index_of_path(list: Seq<Entry>, path: Seq<char>, from: int) -> Option<int>
        decreases list.len() - from,
    {
        if from < 0 || from >= list.len() {
            None
        } else if list[from].path@ == path {
            Some(from)
        } else {
            Self::spec_index_of_path(list, path, from + 1)
        }
    }

    fn index_of_path(&self, path: &String) -> (r: Option<usize>)
        ensures
            r matches Some(i) ==> Self::spec_index_of_path(self.items.spec_items(), path@, 0)
                == Some(i as int),
            r is None ==> Self::spec_index_of_path(self.items.spec_items(), path@, 0) is None,
    {
        let items = self.items.items();
        let mut i: usize = 0;
        while i < items.len()
            invariant
                i <= items@.len(),
                items@ == self.items.spec_items(),
                Self::spec_index_of_path(items@, path@, 0) == Self::spec_index_of_path(
                    items@,
                    path@,
                    i as int,
                ),
            decreases items@.len() - i,
        {
            if items[i].has_path(path) {
                return Some(i);
            }
            i = i + 1;
        }
        None
    }

    /// Install a fresh listing after the working directory changed, and
    /// restore the selection to `previous_path` when that entry appears in
    /// the new listing (as it does after ascending into the parent).
    pub fn apply_listing(&mut self, items: Vec<Entry>, previous_path: Option<&String>)
        ensures
            final(self).items.spec_items() == items@,
            final(self).items.off() == 0,
            final(self).area == old(self).area,
            final(self).wf(),
            ({
                let restored = match previous_path {
                    Some(p) => Self::spec_index_of_path(items@, p@, 0),
                    None => None,
                };
                match restored {
                    Some(i) => final(self).items.sel() == Some(i as usize),
                    None => final(self).items.sel() == (if items@.len() > 0 {
                        Some(0usize)
                    } else {
                        None::<usize>
                    }),
                }
            }),
    {
        self.set_items(items);
        if let Some(path) = previous_path {
            let found = self.index_of_path(path);
            if let Some(index) = found {
                proof {
                    Self::lemma_index_of_path_in_bounds(
                        self.items.spec_items(),
                        path@,
                        0,
                        index as int,
                    );
                }
                self.items.set_selected(Some(index));
            }
        }
    }

    proof fn lemma_index_of_path_in_bounds(list: Seq<Entry>, path: Seq<char>, from: int, i: int)
        requires
            Self::spec_index_of_path(list, path, from) == Some(i),
            0 <= from,
        ensures
            from <= i < list.len(),
        decreases list.len() - from,
    {
        if from >= list.len() {
        } else if list[from].path@ == path {
        } else {
            Self::lemma_index_of_path_in_bounds(list, path, from + 1, i);
        }
    }

    pub fn is_selected(&self, index: usize) -> (r: bool)
        ensures
            r == (self.items.sel() == Some(index)),
    {
        match self.items.selected() {
            Some(selected) => selected == index,
            None => false,
        }
    }

    /// Select `selected`; reports whether that changed the selection.
    pub fn set_selected(&mut self, selected: usize) -> (changed: bool)
        requires
            old(self).wf(),
            selected < old(self).spec_len(),
        ensures
            final(self).wf(),
            *final(self) == old(self).with_items_list(old(self).items.with_sel(Some(selected))),
            changed == (old(self).items.sel() != Some(selected)),
    {
        if self.is_selected(selected) {
            false
        } else {
            self.items.set_selected(Some(selected));
            true
        }
    }

    /// A copy of the selected entry, when there is one.
    pub fn selected_item(&self) -> (r: Option<Entry>)
        requires
            self.wf(),
        ensures
            (r is Some) == (self.items.sel() is Some),
            r matches Some(e) ==> self.items.sel() matches Some(i) && e
                == self.items.spec_items()[i as int],
    {
        match self.items.selected() {
            Some(selected) => Some(self.items.get(selected).duplicate()),
            None => None,
        }
    }

    /// Whether the first row is the synthetic parent-directory entry.
    pub fn has_parent_directory(&self) -> (r: bool)
        requires
            self.wf(),
        ensures
            r == self.spec_has_parent(),
    {
        if self.items.len() == 0 {
            return false;
        }
        is_parent_marker(&self.items.get(0).name)
    }

    /// Row-to-index mapping for mouse clicks.
    pub fn index_from_row(&self, row: u16) -> (r: Option<usize>)
        requires
            self.wf(),
        ensures
            r == self.spec_index_from_row(row),
    {
        if row < self.area.y {
            return None;
        }
        let rel = (row - self.area.y) as usize;
        let off = self.items.offset();
        let len = self.items.len();
        if off > len {
            return None;
        }
        if rel > len - off {
            return None;
        }
        let idx = rel + off;
        if idx > 0 && idx <= len {
            Some(idx - 1)
        } else {
            None
        }
    }

    /// Move the selection to the next entry starting with `ch`, wrapping
    /// around; the selection is unchanged when nothing matches.
    pub fn select_by_char(&mut self, ch: char) -> (changed: bool)
        requires
            old(self).wf(),
        ensures
            final(self).wf(),
            final(self).area == old(self).area,
            old(self).spec_len() == 0 ==> *final(self) == *old(self) && !changed,
            old(self).spec_len() > 0 ==> ({
                let found = spec_find_wrapped(
                    old(self).items.spec_items(),
                    ch,
                    old(self).items.start_sel() as int,
                );
                match found {
                    Some(i) => *final(self) == old(self).with_items_list(
                        old(self).items.with_sel(Some(i as usize)),
                    ) && changed == (old(self).items.sel() != Some(i as usize)),
                    None => *final(self) == *old(self) && !changed,
                }
            }),
    {
        if self.items.len() == 0 {
            return false;
        }
        let selected = match self.items.selected() {
            Some(s) => s,
            None => 0,
        };
        let index = util::find_match_by_char(self.items.items(), ch, selected);
        if let Some(index) = index {
            self.set_selected(index)
        } else {
            false
        }
    }

    /// React to a key press; see [`Directory::after_key`] for the rules.
    pub fn handle_key_event(&mut self, key_event: KeyEvent) -> (r: DirectoryResponse)
        requires
            old(self).wf(),
        ensures
            final(self).wf(),
            (*final(self), r) == old(self).after_key(key_event),
    {
        if self.items.len() == 0 {
            return DirectoryResponse { selection_changed: false, open_request: None };
        }
        let auto = self.items.selected().is_none();
        if auto {
            self.items.set_selected(Some(0));
            if events::is_down_key(key_event) {
                return DirectoryResponse { selection_changed: false, open_request: None };
            }
        }
        if events::is_up_key(key_event) {
            let changed = self.items.previous();
            DirectoryResponse { selection_changed: changed, open_request: None }
        } else if events::is_down_key(key_event) {
            let changed = self.items.next();
            DirectoryResponse { selection_changed: changed, open_request: None }
        } else {
            match key_event.code {
                KeyCode::Home => {
                    let changed = self.items.first();
                    DirectoryResponse { selection_changed: changed, open_request: None }
                },
                KeyCode::End => {
                    let changed = self.items.last();
                    DirectoryResponse { selection_changed: changed, open_request: None }
                },
                KeyCode::PageUp => {
                    let changed = self.items.retreat(self.area.height as usize);
                    DirectoryResponse { selection_changed: changed, open_request: None }
                },
                KeyCode::PageDown => {
                    let changed = self.items.advance(self.area.height as usize);
                    DirectoryResponse { selection_changed: changed, open_request: None }
                },
                KeyCode::Enter => {
                    let selected = match self.items.selected() {
                        Some(s) => s,
                        None => 0,
                    };
                    let entry = self.items.get(selected);
                    let open_request = if entry.is_dir() {
                        Some(entry.duplicate())
                    } else {
                        None
                    };
                    DirectoryResponse { selection_changed: false, open_request }
                },
                KeyCode::Backspace => {
                    if self.has_parent_directory() {
                        let entry = self.items.get(0);
                        let open_request = if entry.is_dir() {
                            Some(entry.duplicate())
                        } else {
                            None
                        };
                        self.items.set_selected(Some(0));
                        DirectoryResponse { selection_changed: false, open_request }
                    } else {
                        DirectoryResponse { selection_changed: false, open_request: None }
                    }
                },
                KeyCode::Char(c) => {
                    self.select_by_char(c);
                    DirectoryResponse { selection_changed: true, open_request: None }
                },
                _ => DirectoryResponse { selection_changed: false, open_request: None },
            }
        }
    }

    /// React to a mouse event; see [`Directory::after_mouse`] for the
    /// rules.
    pub fn handle_mouse_event(&mut self, mouse_event: MouseEvent) -> (r: DirectoryResponse)
        requires
            old(self).wf(),
        ensures
            final(self).wf(),
            (*final(self), r) == old(self).after_mouse(mouse_event),
    {
        match mouse_event.kind {
            MouseEventKind::Down(button) => {
                if button == MouseButton::Left {
                    match self.index_from_row(mouse_event.row) {
                        Some(index) => {
                            if self.is_selected(index) {
                                self.handle_key_event(
                                    KeyEvent {
                                        code: KeyCode::Enter,
                                        modifiers: events::KeyModifiers::Empty,
                                    },
                                )
                            } else {
                                proof {
                                    assert(index < self.spec_len());
                                }
                                self.items.set_selected(Some(index));
                                DirectoryResponse { selection_changed: true, open_request: None }
                            }
                        },
                        None => DirectoryResponse {
                            selection_changed: false,
                            open_request: None,
                        },
                    }
                } else {
                    DirectoryResponse { selection_changed: false, open_request: None }
                }
            },
            MouseEventKind::ScrollUp => {
                self.handle_key_event(
                    KeyEvent { code: KeyCode::Up, modifiers: events::KeyModifiers::Empty },
                )
            },
            MouseEventKind::ScrollDown => {
                self.handle_key_event(
                    KeyEvent { code: KeyCode::Down, modifiers: events::KeyModifiers::Empty },
                )
            },
            MouseEventKind::Other => DirectoryResponse {
                selection_changed: false,
                open_request: None,
            },
        }
    }
}

} // verus!
