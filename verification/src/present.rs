//! Summaries handed to the display layer: a human-readable count of selected
//! input files, and the output path truncated to its last characters with a
//! leading ellipsis.

use vstd::prelude::*;

verus! {

/// How many trailing characters of a long output path stay visible.
pub open spec fn spec_visible_tail() -> int {
    20
}

/// The decimal digit character of a value below ten.
pub open spec fn spec_digit_char(d: int) -> char
    recommends
        0 <= d < 10,
{
    if d == 0 {
        '0'
    } else if d == 1 {
        '1'
    } else if d == 2 {
        '2'
    } else if d == 3 {
        '3'
    } else if d == 4 {
        '4'
    } else if d == 5 {
        '5'
    } else if d == 6 {
        '6'
    } else if d == 7 {
        '7'
    } else if d == 8 {
        '8'
    } else {
        '9'
    }
}

/// The decimal rendering of a number, most significant digit first, with no
/// leading zero except for zero itself.
pub open spec fn spec_decimal(n: nat) -> Seq<char>
    decreases n,
{
    if n < 10 {
        seq![spec_digit_char(n as int)]
    } else {
        spec_decimal(n / 10).push(spec_digit_char((n % 10) as int))
    }
}

/// The file-count summary shown beside the input selection.
pub open spec fn spec_count_label(n: nat) -> Seq<char> {
    spec_decimal(n) + " file(s) selected."@
}

/// The digit character of a value below ten.
fn digit_str(d: usize) -> (r: &'static str)
    requires
        d < 10,
    ensures
        r@ == seq![spec_digit_char(d as int)],
{
    proof {
        reveal_strlit("0");
        reveal_strlit("1");
        reveal_strlit("2");
        reveal_strlit("3");
        reveal_strlit("4");
        reveal_strlit("5");
        reveal_strlit("6");
        reveal_strlit("7");
        reveal_strlit("8");
        reveal_strlit("9");
    }
    let r: &'static str = if d == 0 {
        "0"
    } else if d == 1 {
        "1"
    } else if d == 2 {
        "2"
    } else if d == 3 {
        "3"
    } else if d == 4 {
        "4"
    } else if d == 5 {
        "5"
    } else if d == 6 {
        "6"
    } else if d == 7 {
        "7"
    } else if d == 8 {
        "8"
    } else {
        "9"
    };
    proof {
        assert(r@ =~= seq![spec_digit_char(d as int)]);
    }
    r
}

/// Render a number in decimal.
pub fn decimal_string(n: usize) -> (r: String)
    ensures
        r@ == spec_decimal(n as nat),
    decreases n,
{
    if n < 10 {
        digit_str(n).to_owned()
    } else {
        let mut r = decimal_string(n / 10);
        r.append(digit_str(n % 10));
        proof {
            assert(r@ =~= spec_decimal(n as nat));
        }
        r
    }
}

/// The summary of how many input files are selected, e.g. a count followed
/// by ` file(s) selected.`.
pub fn count_label(n: usize) -> (r: String)
    ensures
        r@ == spec_count_label(n as nat),
{
    let mut r = decimal_string(n);
    r.append(" file(s) selected.");
    r
}

/// The display rendering of the output path: a path of at most twenty
/// characters is shown unmodified; a longer one is cut down to an ellipsis
/// of three dots followed by its last twenty characters, twenty-three
/// characters in all.
pub fn truncate_output_path(path: &str) -> (r: String)
    ensures
        path@.len() <= spec_visible_tail() ==> r@ == path@,
        path@.len() > spec_visible_tail() ==> r@ == "..."@ + path@.subrange(
            path@.len() - spec_visible_tail(),
            path@.len() as int,
        ),
        path@.len() > spec_visible_tail() ==> r@.len() == 3 + spec_visible_tail(),
{
    let n = path.unicode_len();
    if n <= 20 {
        path.to_owned()
    } else {
        let tail = path.substring_char(n - 20, n);
        let mut r = "...".to_owned();
        r.append(tail);
        proof {
            reveal_strlit("...");
        }
        r
    }
}

} // verus!
