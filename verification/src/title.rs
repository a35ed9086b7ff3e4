//! Pane title strings: `[modified - size]` above a file preview and
//! `[modified - N items]` above a folder preview.
//!
//! The item count is rendered by a verified decimal formatter. The modified
//! part is the local wall-clock rendering of the file's timestamp; it
//! depends on the machine's time zone, so the titles promise its place in
//! the string but not its characters.

use vstd::prelude::*;
use vstd::string::StringExecFns;

verus! {

/// Decimal digit character for `d`.
pub open spec fn spec_digit(d: int) -> char {
    if d == 0 {
        '0'
    } else if d == 1 {
        '1'
    } else if d == 2 {
        '2'
    } else if d == 3 {
        '3'
    } else if d == 4 {
        '4'
    } else if d == 5 {
        '5'
    } else if d == 6 {
        '6'
    } else if d == 7 {
        '7'
    } else if d == 8 {
        '8'
    } else {
        '9'
    }
}

/// Decimal rendering of `n`, most significant digit first, no leading
/// zeroes (except for `n == 0` itself).
pub open spec fn spec_decimal(n: nat) -> Seq<char>
    decreases n,
{
    if n < 10 {
        seq![spec_digit(n as int)]
    } else {
        spec_decimal(n / 10) + seq![spec_digit((n % 10) as int)]
    }
}

fn digit_str(d: usize) -> (r: &'static str)
    requires
        d < 10,
    ensures
        r@ =~= seq![spec_digit(d as int)],
{
    proof {
        reveal_strlit("0");
        reveal_strlit("1");
        reveal_strlit("2");
        reveal_strlit("3");
        reveal_strlit("4");
        reveal_strlit("5");
        reveal_strlit("6");
        reveal_strlit("7");
        reveal_strlit("8");
        reveal_strlit("9");
    }
    if d == 0 {
        "0"
    } else if d == 1 {
        "1"
    } else if d == 2 {
        "2"
    } else if d == 3 {
        "3"
    } else if d == 4 {
        "4"
    } else if d == 5 {
        "5"
    } else if d == 6 {
        "6"
    } else if d == 7 {
        "7"
    } else if d == 8 {
        "8"
    } else {
        "9"
    }
}

/// Decimal rendering of `n` as a string.
pub fn decimal_string(n: usize) -> (r: String)
    ensures
        r@ == spec_decimal(n as nat),
    decreases n,
{
    if n < 10 {
        let r = String::from_str(digit_str(n));
        assert(r@ =~= spec_decimal(n as nat));
        r
    } else {
        let prefix = decimal_string(n / 10);
        let r = prefix.concat(digit_str(n % 10));
        assert(r@ =~= spec_decimal(n as nat));
        r
    }
}

/// The title `[middle - size]` as a character sequence.
pub open spec fn spec_file_title(middle: Seq<char>, size: Seq<char>) -> Seq<char> {
    seq!['['] + middle + seq![' ', '-', ' '] + size + seq![']']
}

/// The title `[middle - N items]` as a character sequence, with a singular
/// `item` exactly for a count of one.
pub open spec fn spec_folder_title(middle: Seq<char>, count: nat) -> Seq<char> {
    seq!['['] + middle + seq![' ', '-', ' '] + spec_decimal(count) + seq![' ', 'i', 't', 'e', 'm']
        + (if count != 1 {
        seq!['s']
    } else {
        Seq::<char>::empty()
    }) + seq![']']
}

/// Relies on chrono's `DateTime::from_timestamp` and `format`: renders the
/// timestamp as local `year-month-day hour:minute` text, or nothing when
/// the timestamp is outside chrono's range. The result depends on the
/// machine's time zone, so nothing is stated about it.
#[verifier::external_body]
fn modified_string(modified_secs: u64) -> (r: String) {
    match chrono::DateTime::from_timestamp(modified_secs as i64, 0) {
        Some(utc) => {
            let local: chrono::DateTime<chrono::Local> = utc.into();
            format!("{}", local.format("%Y-%m-%d %H:%M"))
        },
        None => String::new(),
    }
}

/// Title of a file preview pane: the file's modified time and its
/// already-formatted size, bracketed. Only the placement of the
/// time-zone-dependent modified text is promised.
pub fn file_title(modified_secs: u64, size: &String) -> (r: String)
    ensures
        exists|middle: Seq<char>| r@ == spec_file_title(middle, size@),
{
    let modified = modified_string(modified_secs);
    let mut r = String::from_str("[");
    r.append(modified.as_str());
    r.append(" - ");
    r.append(size.as_str());
    r.append("]");
    proof {
        reveal_strlit("[");
        reveal_strlit(" - ");
        reveal_strlit("]");
        assert(r@ =~= spec_file_title(modified@, size@));
    }
    r
}

/// Title of a folder preview pane: the folder's modified time and its item
/// count with a plural mark, bracketed.
pub fn folder_title(modified_secs: u64, item_count: usize) -> (r: String)
    ensures
        exists|middle: Seq<char>| r@ == spec_folder_title(middle, item_count as nat),
{
    let modified = modified_string(modified_secs);
    let count = decimal_string(item_count);
    let mut r = String::from_str("[");
    r.append(modified.as_str());
    r.append(" - ");
    r.append(count.as_str());
    if item_count != 1 {
        r.append(" items");
        proof {
            reveal_strlit(" items");
        }
    } else {
        r.append(" item");
        proof {
            reveal_strlit(" item");
        }
    }
    r.append("]");
    proof {
        reveal_strlit("[");
        reveal_strlit(" - ");
        reveal_strlit("]");
        assert(r@ =~= spec_folder_title(modified@, item_count as nat));
    }
    r
}

} // verus!
