//! The browser itself: one directory pane, one preview pane, the head bar,
//! keyboard focus, and the pending-error overlay.
//!
//! Exactly one pane has focus at any time; this is enforced by the type of
//! [`FocusState`]. A pending error intercepts the next input event: the
//! event dismisses the overlay and is otherwise consumed, except for
//! Ctrl+C, which quits unconditionally. Dismissing a metadata error also
//! clears the directory selection.

use crate::directory::{Directory, DirectoryResponse};
use crate::entry::Entry;
use crate::events::{KeyCode, KeyEvent, KeyModifiers, MouseButton, MouseEvent, MouseEventKind};
use crate::fs_error::FsError;
use crate::head::Head;
use crate::preview::Preview;
use crate::rect::Rect;
use vstd::prelude::*;

verus! {

/// Which pane receives keyboard input. Exactly one of the two panes has
/// focus: the type admits no other state.
#[derive(Clone, Copy, PartialEq, Eq, Structural, Debug)]
pub enum FocusState {
    Directory,
    Preview,
}

/// The other pane.
pub open spec fn spec_flip(f: FocusState) -> FocusState {
    match f {
        FocusState::Directory => FocusState::Preview,
        FocusState::Preview => FocusState::Directory,
    }
}

/// Law: flipping focus always moves to the other pane, and flipping twice
/// returns to the original; there is never a state with both panes or
/// neither pane focused.
pub proof fn lemma_focus_flip(f: FocusState)
    ensures
        spec_flip(f) != f,
        spec_flip(spec_flip(f)) == f,
        f == FocusState::Directory || f == FocusState::Preview,
{
}

pub struct App {
    pub should_quit: bool,
    /// The pending error, shown as a modal overlay until the next input.
    pub fs_error: Option<FsError>,
    pub focus: FocusState,
    pub head: Head,
    pub directory: Directory,
    pub preview: Preview,
}

impl App {
    pub open spec fn wf(self) -> bool {
        &&& self.directory.wf()
        &&& self.preview.wf()
    }

    pub open spec fn has_error(self) -> bool {
        self.fs_error is Some
    }

    /// The state after the pending error is dismissed: the overlay goes
    /// away, and a metadata error clears the directory selection, since
    /// the entry it concerned is assumed stale. Nothing else changes.
    pub open spec fn error_dismissed(self) -> App {
        match self.fs_error {
            Some(e) => App {
                fs_error: None,
                directory: if e.is_metadata() {
                    self.directory.with_items_list(self.directory.items.with_sel(None))
                } else {
                    self.directory
                },
                ..self
            },
            None => self,
        }
    }

    /// State and response after a key press.
    ///
    /// Ctrl+C quits whatever the state. Any other key first dismisses a
    /// pending error and is then consumed. Esc quits, Tab toggles focus,
    /// and every other key goes to the focused pane.
    pub open spec fn after_key(self, key: KeyEvent) -> (App, DirectoryResponse) {
        if key.code == KeyCode::Char('c') && key.modifiers == KeyModifiers::Control {
            (App { should_quit: true, ..self }, Directory::idle_response())
        } else if self.has_error() {
            (self.error_dismissed(), Directory::idle_response())
        } else if key.code == KeyCode::Esc {
            (App { should_quit: true, ..self }, Directory::idle_response())
        } else if key.code == KeyCode::Tab {
            (App { focus: spec_flip(self.focus), ..self }, Directory::idle_response())
        } else if self.focus == FocusState::Directory {
            let (d, r) = self.directory.after_key(key);
            (App { directory: d, ..self }, r)
        } else {
            let p = self.preview_after_key(key);
            (App { preview: p, ..self }, Directory::idle_response())
        }
    }

    /// The preview pane after a key press routed to it.
    pub open spec fn preview_after_key(self, key: KeyEvent) -> Preview {
        if self.preview.is_folder_active() {
            Preview { folder_pane: self.preview.folder_pane.after_key(key), ..self.preview }
        } else if self.preview.is_text_active() {
            Preview { text_pane: self.preview.text_pane.after_key(key), ..self.preview }
        } else {
            self.preview
        }
    }

    pub fn new() -> (r: App)
        ensures
            r.wf(),
            !r.should_quit,
            r.fs_error is None,
            r.focus == FocusState::Directory,
            r.directory.spec_len() == 0,
            r.preview.cleared(),
    {
        App {
            should_quit: false,
            fs_error: None,
            focus: FocusState::Directory,
            head: Head::new(),
            directory: Directory::new(),
            preview: Preview::new(),
        }
    }

    pub fn quit(&mut self)
        ensures
            *final(self) == (App { should_quit: true, ..*old(self) }),
    {
        self.should_quit = true;
    }

    /// Record a file-system failure; it overwrites any pending error and
    /// is shown until the next input event.
    pub fn raise_error(&mut self, error: FsError)
        ensures
            *final(self) == (App { fs_error: Some(error), ..*old(self) }),
    {
        self.fs_error = Some(error);
    }

    /// Flip focus to the other pane.
    pub fn toggle_focus(&mut self)
        ensures
            *final(self) == (App { focus: spec_flip(old(self).focus), ..*old(self) }),
    {
        self.focus = match self.focus {
            FocusState::Directory => FocusState::Preview,
            FocusState::Preview => FocusState::Directory,
        };
    }

    pub fn focus_directory(&mut self)
        ensures
            *final(self) == (App { focus: FocusState::Directory, ..*old(self) }),
    {
        self.focus = FocusState::Directory;
    }

    pub fn focus_preview(&mut self)
        ensures
            *final(self) == (App { focus: FocusState::Preview, ..*old(self) }),
    {
        self.focus = FocusState::Preview;
    }

    /// Dismiss the pending error, if any; reports whether one was pending.
    pub fn clear_error(&mut self) -> (was_pending: bool)
        requires
            old(self).wf(),
        ensures
            final(self).wf(),
            *final(self) == old(self).error_dismissed(),
            was_pending == old(self).has_error(),
    {
        match &self.fs_error {
            Some(e) => {
                let metadata = match e {
                    FsError::Metadata(_) => true,
                    FsError::Directory(_) => false,
                };
                if metadata {
                    self.directory.items.unselect();
                }
                self.fs_error = None;
                true
            },
            None => false,
        }
    }

    /// Place the two panes after the frame is laid out or resized.
    pub fn set_areas(&mut self, directory_area: Rect, preview_area: Rect)
        requires
            old(self).wf(),
        ensures
            final(self).wf(),
            final(self).directory.items == old(self).directory.items,
            final(self).directory.area == directory_area,
            final(self).preview.area == preview_area,
            final(self).preview.entry == old(self).preview.entry,
            final(self).preview.preview_type == old(self).preview.preview_type,
            final(self).preview.folder_pane.entry_list.spec_items() == old(self).preview.folder_pane.entry_list.spec_items(),
            final(self).preview.text_pane.file_text == old(self).preview.text_pane.file_text,
            final(self).should_quit == old(self).should_quit,
            final(self).fs_error == old(self).fs_error,
            final(self).focus == old(self).focus,
            final(self).head == old(self).head,
    {
        self.directory.set_area(directory_area);
        self.preview.set_area(preview_area);
    }

    /// React to a key press; see [`App::after_key`] for the rules.
    pub fn handle_key_event(&mut self, key_event: KeyEvent) -> (r: DirectoryResponse)
        requires
            old(self).wf(),
        ensures
            final(self).wf(),
            (*final(self), r) == old(self).after_key(key_event),
    {
        let ctrl_c = key_event.code == KeyCode::Char('c') && key_event.modifiers
            == KeyModifiers::Control;
        if ctrl_c {
            self.quit();
            return DirectoryResponse { selection_changed: false, open_request: None };
        }
        if self.clear_error() {
            return DirectoryResponse { selection_changed: false, open_request: None };
        }
        match key_event.code {
            KeyCode::Esc => {
                self.quit();
                DirectoryResponse { selection_changed: false, open_request: None }
            },
            KeyCode::Tab => {
                self.toggle_focus();
                DirectoryResponse { selection_changed: false, open_request: None }
            },
            _ => {
                if self.is_directory_focused() {
                    self.directory.handle_key_event(key_event)
                } else {
                    self.preview.handle_key_event(key_event);
                    DirectoryResponse { selection_changed: false, open_request: None }
                }
            },
        }
    }

    fn is_directory_focused(&self) -> (r: bool)
        ensures
            r == (self.focus == FocusState::Directory),
    {
        match self.focus {
            FocusState::Directory => true,
            FocusState::Preview => false,
        }
    }

    /// The preview pane after a mouse event routed to it.
    pub open spec fn preview_after_mouse(self, ev: MouseEvent) -> Preview {
        if self.preview.is_folder_active() {
            Preview {
                folder_pane: match self.preview.folder_pane.mouse_key(ev) {
                    Some(k) => self.preview.folder_pane.after_key(k),
                    None => self.preview.folder_pane,
                },
                ..self.preview
            }
        } else if self.preview.is_text_active() {
            Preview {
                text_pane: self.preview.text_pane.apply_opt_key(
                    self.preview.text_pane.mouse_vertical_key(ev),
                ).apply_opt_key(self.preview.text_pane.mouse_horizontal_key(ev)),
                ..self.preview
            }
        } else {
            self.preview
        }
    }

    /// State and response after a mouse event.
    ///
    /// With an error pending, any button press dismisses it and every
    /// mouse event is otherwise consumed. A left click in the unfocused
    /// pane moves focus there and is consumed. Otherwise a left click in
    /// the focused pane and wheel scrolling over either pane go to that
    /// pane.
    pub open spec fn after_mouse(self, ev: MouseEvent) -> (App, DirectoryResponse) {
        let dir_hit = self.directory.area.spec_contains(ev.column, ev.row);
        let preview_hit = self.preview.area.spec_contains(ev.column, ev.row);
        if self.has_error() {
            if ev.kind matches MouseEventKind::Down(_) {
                (self.error_dismissed(), Directory::idle_response())
            } else {
                (self, Directory::idle_response())
            }
        } else {
            match ev.kind {
                MouseEventKind::Down(button) => {
                    if button == MouseButton::Left && self.focus == FocusState::Directory
                        && preview_hit && !dir_hit {
                        (App { focus: FocusState::Preview, ..self }, Directory::idle_response())
                    } else if button == MouseButton::Left && self.focus == FocusState::Preview
                        && dir_hit && !preview_hit {
                        (App { focus: FocusState::Directory, ..self }, Directory::idle_response())
                    } else if self.focus == FocusState::Directory && dir_hit {
                        let (d, r) = self.directory.after_mouse(ev);
                        (App { directory: d, ..self }, r)
                    } else if self.focus == FocusState::Preview && preview_hit {
                        (App { preview: self.preview_after_mouse(ev), ..self },
                        Directory::idle_response())
                    } else {
                        (self, Directory::idle_response())
                    }
                },
                MouseEventKind::ScrollUp | MouseEventKind::ScrollDown => {
                    if dir_hit {
                        let (d, r) = self.directory.after_mouse(ev);
                        (App { directory: d, ..self }, r)
                    } else if preview_hit {
                        (App { preview: self.preview_after_mouse(ev), ..self },
                        Directory::idle_response())
                    } else {
                        (self, Directory::idle_response())
                    }
                },
                MouseEventKind::Other => (self, Directory::idle_response()),
            }
        }
    }

    /// React to a mouse event; see [`App::after_mouse`] for the rules.
    pub fn handle_mouse_event(&mut self, mouse_event: MouseEvent) -> (r: DirectoryResponse)
        requires
            old(self).wf(),
        ensures
            final(self).wf(),
            (*final(self), r) == old(self).after_mouse(mouse_event),
    {
        let dir_hit = self.directory.area.contains(mouse_event.column, mouse_event.row);
        let preview_hit = self.preview.area.contains(mouse_event.column, mouse_event.row);
        let is_down = match mouse_event.kind {
            MouseEventKind::Down(_) => true,
            _ => false,
        };
        if self.fs_error.is_some() {
            if is_down {
                self.clear_error();
            }
            return DirectoryResponse { selection_changed: false, open_request: None };
        }
        match mouse_event.kind {
            MouseEventKind::Down(button) => {
                let left = button == MouseButton::Left;
                let dir_focused = self.is_directory_focused();
                if left && dir_focused && preview_hit && !dir_hit {
                    self.focus_preview();
                    DirectoryResponse { selection_changed: false, open_request: None }
                } else if left && !dir_focused && dir_hit && !preview_hit {
                    self.focus_directory();
                    DirectoryResponse { selection_changed: false, open_request: None }
                } else if dir_focused && dir_hit {
                    self.directory.handle_mouse_event(mouse_event)
                } else if !dir_focused && preview_hit {
                    self.preview.handle_mouse_event(mouse_event);
                    DirectoryResponse { selection_changed: false, open_request: None }
                } else {
                    DirectoryResponse { selection_changed: false, open_request: None }
                }
            },
            MouseEventKind::ScrollUp | MouseEventKind::ScrollDown => {
                if dir_hit {
                    self.directory.handle_mouse_event(mouse_event)
                } else if preview_hit {
                    self.preview.handle_mouse_event(mouse_event);
                    DirectoryResponse { selection_changed: false, open_request: None }
                } else {
                    DirectoryResponse { selection_changed: false, open_request: None }
                }
            },
            MouseEventKind::Other => DirectoryResponse {
                selection_changed: false,
                open_request: None,
            },
        }
    }

    /// Record the working directory shown in the head bar, or clear it and
    /// raise the error when it could not be determined.
    pub fn set_current_path(&mut self, path: Option<String>, error: Option<FsError>)
        requires
            old(self).wf(),
        ensures
            final(self).wf(),
            final(self).head.path == path,
            error matches Some(e) ==> final(self).fs_error == Some(e),
            error is None ==> final(self).fs_error == old(self).fs_error,
            final(self).directory == old(self).directory,
            final(self).preview == old(self).preview,
            final(self).focus == old(self).focus,
            final(self).should_quit == old(self).should_quit,
    {
        self.head.set_path(path);
        if let Some(e) = error {
            self.raise_error(e);
        }
    }
}

} // verus!
