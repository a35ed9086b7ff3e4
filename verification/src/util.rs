//! Small helpers shared by the panes: case-insensitive first-character
//! matching for the jump-to-entry key, string clipping for narrow columns,
//! and entry icons.

use crate::entry::{Entry, EntryKind};
use vstd::prelude::*;
use vstd::string::StrSliceExecFns;
use vstd::string::StringExecFns;

verus! {

pub const DIRECTORY_ICON: char = '/';

pub const DOCUMENT_ICON: char = '-';

pub const UNKNOWN_ICON: char = '?';

/// ASCII lower-casing of a single character; everything outside `A`..`Z` is
/// unchanged.
pub open spec fn spec_ascii_lower(c: char) -> char {
    if 'A' <= c && c <= 'Z' {
        ((c as u32 + 32) as u8) as char
    } else {
        c
    }
}

pub fn ascii_lower(c: char) -> (r: char)
    ensures
        r == spec_ascii_lower(c),
{
    if 'A' <= c && c <= 'Z' {
        ((c as u32 + 32) as u8) as char
    } else {
        c
    }
}

/// Whether an entry's display name starts with `ch`, ignoring ASCII case.
pub open spec fn entry_matches_char(e: Entry, ch: char) -> bool {
    e.name@.len() > 0 && spec_ascii_lower(e.name@[0]) == spec_ascii_lower(ch)
}

fn matches_char(e: &Entry, ch: char) -> (r: bool)
    ensures
        r == entry_matches_char(*e, ch),
{
    if e.name.as_str().is_empty() {
        false
    } else {
        let first = e.name.as_str().get_char(0);
        ascii_lower(first) == ascii_lower(ch)
    }
}

/// First index at or after `from` whose entry matches `ch`, or nothing.
pub open spec fn spec_find_from(list: Seq<Entry>, ch: char, from: int) -> Option<int>
    decreases list.len() - from,
{
    if from < 0 || from >= list.len() {
        None
    } else if entry_matches_char(list[from], ch) {
        Some(from)
    } else {
        spec_find_from(list, ch, from + 1)
    }
}

/// First match scanning forward from just after `selected`, wrapping to the
/// top only after the end of the list is reached.
pub open spec fn spec_find_wrapped(list: Seq<Entry>, ch: char, selected: int) -> Option<int> {
    match spec_find_from(list, ch, selected + 1) {
        Some(i) => Some(i),
        None => spec_find_from(list, ch, 0),
    }
}

/// First index at or after `from` whose entry name starts with `ch`
/// (ASCII-case-insensitively), or nothing when no entry from `from` on
/// matches.
pub fn find_match_by_char_from(list: &Vec<Entry>, ch: char, from: usize) -> (r: Option<usize>)
    requires
        from <= list@.len(),
    ensures
        r matches Some(i) ==> spec_find_from(list@, ch, from as int) == Some(i as int),
        r is None ==> spec_find_from(list@, ch, from as int) is None,
        r matches Some(i) ==> from <= i < list@.len() && entry_matches_char(list@[i as int], ch)
            && (forall|j: int| from <= j < i ==> !entry_matches_char(list@[j], ch)),
        r is None ==> forall|j: int| from <= j < list@.len() ==> !entry_matches_char(list@[j], ch),
{
    let mut i = from;
    while i < list.len()
        invariant
            from <= i <= list@.len(),
            forall|j: int| from <= j < i ==> !entry_matches_char(list@[j], ch),
            spec_find_from(list@, ch, from as int) == spec_find_from(list@, ch, i as int),
        decreases list@.len() - i,
    {
        if matches_char(&list[i], ch) {
            return Some(i);
        }
        i = i + 1;
    }
    None
}

/// First match for `ch` scanning forward from just after `selected`,
/// wrapping to the top only after the end of the list is reached.
pub fn find_match_by_char(list: &Vec<Entry>, ch: char, selected: usize) -> (r: Option<usize>)
    requires
        selected < list@.len(),
    ensures
        r matches Some(i) ==> spec_find_wrapped(list@, ch, selected as int) == Some(i as int),
        r is None ==> spec_find_wrapped(list@, ch, selected as int) is None,
        r matches Some(i) ==> i < list@.len() && entry_matches_char(list@[i as int], ch) && (i
            > selected ==> forall|j: int| selected < j < i ==> !entry_matches_char(list@[j], ch))
            && (i <= selected ==> (forall|j: int|
            selected < j < list@.len() ==> !entry_matches_char(list@[j], ch)) && (forall|j: int|
            0 <= j < i ==> !entry_matches_char(list@[j], ch))),
        r is None ==> forall|j: int| 0 <= j < list@.len() ==> !entry_matches_char(list@[j], ch),
{
    // `selected` is below the length, which fits in usize, so the start of
    // the forward scan cannot overflow.
    let n = list.len();
    assert(selected < n);
    let after = find_match_by_char_from(list, ch, selected + 1);
    match after {
        Some(idx) => Some(idx),
        None => find_match_by_char_from(list, ch, 0),
    }
}

/// Clip a string to `width` characters: a string that fits is returned
/// unchanged; a longer one keeps its tail, preceded by an ellipsis.
pub fn clip_string(string: &String, width: usize) -> (r: String)
    requires
        width >= 1,
    ensures
        string@.len() <= width ==> r@ == string@,
        string@.len() > width ==> r@ == seq!['…'] + string@.subrange(
            string@.len() - width + 1,
            string@.len() as int,
        ),
{
    let len = string.as_str().unicode_len();
    if len > width {
        let start = len - width + 1;
        let tail = string.as_str().substring_char(start, len);
        let mut r = String::from_str("…");
        r.append(tail);
        proof {
            reveal_strlit("…");
            assert(r@ =~= seq!['…'] + string@.subrange(
                string@.len() - width + 1,
                string@.len() as int,
            ));
        }
        r
    } else {
        string.clone()
    }
}

/// The icon drawn before an entry's name, by its kind.
pub fn path_icon(entry: &Entry) -> (r: char)
    ensures
        entry.kind == EntryKind::Directory ==> r == DIRECTORY_ICON,
        entry.kind == EntryKind::File ==> r == DOCUMENT_ICON,
        entry.kind == EntryKind::Other ==> r == UNKNOWN_ICON,
{
    match entry.kind {
        EntryKind::Directory => DIRECTORY_ICON,
        EntryKind::File => DOCUMENT_ICON,
        EntryKind::Other => UNKNOWN_ICON,
    }
}

/// Whether a display name is the synthetic parent-directory marker `..`.
pub fn is_parent_marker(name: &String) -> (r: bool)
    ensures
        r == (name@ == ".."@),
{
    proof {
        reveal_strlit("..");
    }
    let len = name.as_str().unicode_len();
    if len != 2 {
        proof {
            assert(name@ != ".."@);
        }
        return false;
    }
    let c0 = name.as_str().get_char(0);
    let c1 = name.as_str().get_char(1);
    let r = c0 == '.' && c1 == '.';
    proof {
        if r {
            assert(name@ =~= ".."@);
        }
    }
    r
}

} // verus!
