//! Core state engine of a two-pane terminal file browser.
//!
//! The library owns the navigation state: the directory list with its
//! selection cursor, the preview pane's tagged contents, scroll offsets and
//! scrollbar geometry, keyboard focus, and the pending error overlay. Input
//! events arrive as plain values; file-system reads, entry classification and
//! terminal drawing are performed by the surrounding application, which feeds
//! the results back in as state-setting calls.

pub mod browser;
pub mod directory;
pub mod entry;
pub mod events;
pub mod folder;
pub mod fs_error;
pub mod head;
pub mod options;
pub mod preview;
pub mod rect;
pub mod scrollbar;
pub mod stateful_list;
pub mod text;
pub mod title;
pub mod util;

use vstd::prelude::*;

verus! {

/// Greatest valid offset (or selection target of a paging jump) for content
/// of `total` rows shown through a window of `page` rows.
pub open spec fn spec_page_limit(total: nat, page: nat) -> nat {
    if total > page {
        (total - page) as nat
    } else {
        0
    }
}

/// Shared pagination ceiling: every paging, home and end computation agrees
/// with this single formula.
pub fn page_limit(total_size: usize, page_size: usize) -> (r: usize)
    ensures
        r == spec_page_limit(total_size as nat, page_size as nat),
{
    if total_size > page_size {
        total_size - page_size
    } else {
        0
    }
}

} // verus!
