//! The preview pane: shows whatever the selected entry is — a folder
//! listing, a text file's contents, or a marker for oversize, binary and
//! unrecognized files — or the message of a failed load.
//!
//! Loading is split between the library and the application: the
//! application classifies the entry and reads the file system, the library
//! decides through [`load_action`] what should be shown and holds the
//! resulting pane state.

use crate::entry::Entry;
use crate::events::{KeyEvent, MouseEvent};
use crate::folder::Folder;
use crate::rect::Rect;
use crate::text::Text;
use vstd::prelude::*;

verus! {

/// Text files of at least this many bytes are not read; an oversize marker
/// is shown instead.
pub const OVERSIZE_THRESHOLD: u64 = 50000;

/// What kind of object the application's classifier found the entry to be.
#[derive(Clone, Copy, PartialEq, Eq, Structural, Debug)]
pub enum EntryClass {
    Directory,
    Text,
    Binary,
    Other,
}

/// What should be done to preview an entry of the given class and size.
#[derive(Clone, Copy, PartialEq, Eq, Structural, Debug)]
pub enum LoadAction {
    /// List the directory and show its contents.
    ReadDirectory,
    /// Read the file and show its lines.
    ReadTextFile,
    /// Show the oversize marker without reading the file.
    ShowOversize,
    /// Show the binary marker without reading the file.
    ShowBinary,
    /// Show the marker for unrecognized entries.
    ShowOther,
}

/// Decide how an entry is previewed: directories are listed, text files are
/// read unless they reach [`OVERSIZE_THRESHOLD`] bytes, and binary or
/// unrecognized entries get a marker.
pub fn load_action(class: EntryClass, file_size: u64) -> (r: LoadAction)
    ensures
        class == EntryClass::Directory ==> r == LoadAction::ReadDirectory,
        class == EntryClass::Text && file_size >= OVERSIZE_THRESHOLD ==> r
            == LoadAction::ShowOversize,
        class == EntryClass::Text && file_size < OVERSIZE_THRESHOLD ==> r
            == LoadAction::ReadTextFile,
        class == EntryClass::Binary ==> r == LoadAction::ShowBinary,
        class == EntryClass::Other ==> r == LoadAction::ShowOther,
{
    match class {
        EntryClass::Directory => LoadAction::ReadDirectory,
        EntryClass::Text => {
            if file_size >= OVERSIZE_THRESHOLD {
                LoadAction::ShowOversize
            } else {
                LoadAction::ReadTextFile
            }
        },
        EntryClass::Binary => LoadAction::ShowBinary,
        EntryClass::Other => LoadAction::ShowOther,
    }
}

/// What the preview pane currently shows; exactly one variant is active.
pub enum PreviewType {
    Folder,
    TextFile,
    OversizeTextFile,
    BinaryFile,
    OtherFile,
    Error(String),
}

pub struct Preview {
    pub area: Rect,
    /// The entry being previewed.
    pub entry: Option<Entry>,
    /// What kind of preview is showing; nothing when no entry is loaded.
    pub preview_type: Option<PreviewType>,
    pub folder_pane: Folder,
    pub text_pane: Text,
}

impl Preview {
    pub open spec fn wf(self) -> bool {
        &&& self.folder_pane.wf()
        &&& self.text_pane.wf()
    }

    pub open spec fn is_folder_active(self) -> bool {
        self.preview_type == Some(PreviewType::Folder)
    }

    pub open spec fn is_text_active(self) -> bool {
        self.preview_type == Some(PreviewType::TextFile)
    }

    /// The pane state with no entry loaded: both inner panes emptied, their
    /// geometry kept.
    pub open spec fn cleared(self) -> bool {
        &&& self.entry is None
        &&& self.preview_type is None
        &&& self.folder_pane.entry is None
        &&& self.folder_pane.spec_len() == 0
        &&& self.text_pane.entry is None
        &&& self.text_pane.n_lines() == 0
    }

    pub fn new() -> (r: Preview)
        ensures
            r.wf(),
            r.cleared(),
    {
        Preview {
            area: Rect::empty(),
            entry: None,
            preview_type: None,
            folder_pane: Folder::new(),
            text_pane: Text::new(),
        }
    }

    fn is_folder_preview(&self) -> (r: bool)
        ensures
            r == self.is_folder_active(),
    {
        match &self.preview_type {
            Some(PreviewType::Folder) => true,
            _ => false,
        }
    }

    fn is_text_preview(&self) -> (r: bool)
        ensures
            r == self.is_text_active(),
    {
        match &self.preview_type {
            Some(PreviewType::TextFile) => true,
            _ => false,
        }
    }

    /// Place the pane and its inner panes; contents are kept and offsets
    /// are re-clamped to the new viewport.
    pub fn set_area(&mut self, area: Rect)
        requires
            old(self).wf(),
        ensures
            final(self).wf(),
            final(self).area == area,
            final(self).entry == old(self).entry,
            final(self).preview_type == old(self).preview_type,
            final(self).folder_pane.area == area,
            final(self).folder_pane.inner_area == area.inner_spec(2, 1),
            final(self).folder_pane.entry == old(self).folder_pane.entry,
            final(self).folder_pane.entry_list.spec_items() == old(self).folder_pane.entry_list.spec_items(),
            final(self).folder_pane.off() == (if old(self).folder_pane.off() <= final(self).folder_pane.off_limit() {
                old(self).folder_pane.off()
            } else {
                final(self).folder_pane.off_limit()
            }),
            final(self).text_pane.area == area,
            final(self).text_pane.inner_area == area.inner_spec(2, 1),
            final(self).text_pane.entry == old(self).text_pane.entry,
            final(self).text_pane.file_text == old(self).text_pane.file_text,
            final(self).text_pane.vertical_offset == (if old(self).text_pane.vertical_offset
                <= final(self).text_pane.v_limit() {
                old(self).text_pane.vertical_offset
            } else {
                final(self).text_pane.v_limit() as usize
            }),
            final(self).text_pane.horizontal_offset == (if old(self).text_pane.horizontal_offset
                <= final(self).text_pane.h_limit() {
                old(self).text_pane.horizontal_offset
            } else {
                final(self).text_pane.h_limit() as usize
            }),
    {
        self.area = area;
        self.folder_pane.set_area(area);
        self.text_pane.set_area(area);
    }

    /// Unload the pane.
    pub fn clear(&mut self)
        requires
            old(self).wf(),
        ensures
            final(self).wf(),
            final(self).cleared(),
            final(self).area == old(self).area,
    {
        self.entry = None;
        self.preview_type = None;
        self.folder_pane.clear();
        self.text_pane.clear();
    }

    /// Show a failed load's message for `entry`.
    pub fn set_error(&mut self, entry: &Entry, message: String)
        requires
            old(self).wf(),
        ensures
            final(self).wf(),
            final(self).area == old(self).area,
            final(self).entry matches Some(e) && e == *entry,
            final(self).preview_type matches Some(t) && t == PreviewType::Error(message),
    {
        self.clear();
        self.entry = Some(entry.duplicate());
        self.preview_type = Some(PreviewType::Error(message));
    }

    /// Show a directory's listing.
    pub fn set_folder_items(&mut self, entry: &Entry, items: Vec<Entry>)
        requires
            old(self).wf(),
        ensures
            final(self).wf(),
            final(self).area == old(self).area,
            final(self).entry matches Some(e) && e == *entry,
            final(self).preview_type matches Some(t) && t == PreviewType::Folder,
            final(self).folder_pane.entry matches Some(e) && e == *entry,
            final(self).folder_pane.entry_list.spec_items() == items@,
            final(self).folder_pane.off() == 0,
            final(self).text_pane.n_lines() == 0,
    {
        self.clear();
        self.entry = Some(entry.duplicate());
        self.folder_pane.init(Some(entry.duplicate()), items, self.area);
        self.preview_type = Some(PreviewType::Folder);
    }

    /// Show a text file's lines.
    pub fn set_text_file(&mut self, entry: &Entry, lines: Vec<String>)
        requires
            old(self).wf(),
        ensures
            final(self).wf(),
            final(self).area == old(self).area,
            final(self).entry matches Some(e) && e == *entry,
            final(self).preview_type matches Some(t) && t == PreviewType::TextFile,
            final(self).text_pane.entry matches Some(e) && e == *entry,
            final(self).text_pane.file_text == lines,
            final(self).text_pane.vertical_offset == 0,
            final(self).text_pane.horizontal_offset == 0,
            final(self).folder_pane.spec_len() == 0,
    {
        self.clear();
        self.entry = Some(entry.duplicate());
        self.text_pane.init(Some(entry.duplicate()), lines, self.area);
        self.preview_type = Some(PreviewType::TextFile);
    }

    /// Show the oversize marker for a text file that was not read.
    pub fn set_oversize_text_file(&mut self, entry: &Entry)
        requires
            old(self).wf(),
        ensures
            final(self).wf(),
            final(self).area == old(self).area,
            final(self).entry matches Some(e) && e == *entry,
            final(self).preview_type matches Some(t) && t == PreviewType::OversizeTextFile,
            final(self).folder_pane.spec_len() == 0,
            final(self).text_pane.n_lines() == 0,
    {
        self.clear();
        self.entry = Some(entry.duplicate());
        self.preview_type = Some(PreviewType::OversizeTextFile);
    }

    /// Show the binary marker.
    pub fn set_binary_file(&mut self, entry: &Entry)
        requires
            old(self).wf(),
        ensures
            final(self).wf(),
            final(self).area == old(self).area,
            final(self).entry matches Some(e) && e == *entry,
            final(self).preview_type matches Some(t) && t == PreviewType::BinaryFile,
            final(self).folder_pane.spec_len() == 0,
            final(self).text_pane.n_lines() == 0,
    {
        self.clear();
        self.entry = Some(entry.duplicate());
        self.preview_type = Some(PreviewType::BinaryFile);
    }

    /// Show the marker for an entry of unrecognized kind.
    pub fn set_other_file(&mut self, entry: &Entry)
        requires
            old(self).wf(),
        ensures
            final(self).wf(),
            final(self).area == old(self).area,
            final(self).entry matches Some(e) && e == *entry,
            final(self).preview_type matches Some(t) && t == PreviewType::OtherFile,
            final(self).folder_pane.spec_len() == 0,
            final(self).text_pane.n_lines() == 0,
    {
        self.clear();
        self.entry = Some(entry.duplicate());
        self.preview_type = Some(PreviewType::OtherFile);
    }

    /// Route a key press to the active variant: folder and text previews
    /// scroll, every other variant ignores navigation keys.
    pub fn handle_key_event(&mut self, key_event: KeyEvent)
        requires
            old(self).wf(),
        ensures
            final(self).wf(),
            final(self).area == old(self).area,
            final(self).entry == old(self).entry,
            final(self).preview_type == old(self).preview_type,
            old(self).is_folder_active() ==> final(self).folder_pane == old(self).folder_pane.after_key(key_event) && final(self).text_pane == old(self).text_pane,
            old(self).is_text_active() ==> final(self).text_pane == old(self).text_pane.after_key(
                key_event,
            ) && final(self).folder_pane == old(self).folder_pane,
            !old(self).is_folder_active() && !old(self).is_text_active() ==> *final(self) == *old(self),
    {
        if self.is_folder_preview() {
            self.folder_pane.handle_key_event(key_event);
        } else if self.is_text_preview() {
            self.text_pane.handle_key_event(key_event);
        }
    }

    /// Route a mouse event to the active variant.
    pub fn handle_mouse_event(&mut self, mouse_event: MouseEvent)
        requires
            old(self).wf(),
        ensures
            final(self).wf(),
            final(self).area == old(self).area,
            final(self).entry == old(self).entry,
            final(self).preview_type == old(self).preview_type,
            old(self).is_folder_active() ==> final(self).folder_pane == (match old(self).folder_pane.mouse_key(mouse_event) {
                Some(k) => old(self).folder_pane.after_key(k),
                None => old(self).folder_pane,
            }) && final(self).text_pane == old(self).text_pane,
            old(self).is_text_active() ==> final(self).text_pane == old(self).text_pane.apply_opt_key(old(self).text_pane.mouse_vertical_key(mouse_event)).apply_opt_key(
                old(self).text_pane.mouse_horizontal_key(mouse_event),
            ) && final(self).folder_pane == old(self).folder_pane,
            !old(self).is_folder_active() && !old(self).is_text_active() ==> *final(self) == *old(self),
    {
        if self.is_folder_preview() {
            self.folder_pane.handle_mouse_event(mouse_event);
        } else if self.is_text_preview() {
            self.text_pane.handle_mouse_event(mouse_event);
        }
    }
}

} // verus!
