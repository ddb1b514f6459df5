//! The text a run emits: per-file detail lines, warnings, the fatal abort
//! message, and the end-of-run summary with its fixed-width counters.
//!
//! Move and copy operations use distinct direction markers (`-->` for a
//! move, `==>` for a copy) so their report lines can be told apart.

use vstd::arithmetic::div_mod::lemma_div_decreases;
use vstd::prelude::*;

verus! {

/// The decimal digit character for a value below ten.
pub open spec fn digit_char(d: nat) -> char {
    if d == 0 {
        '0'
    } else if d == 1 {
        '1'
    } else if d == 2 {
        '2'
    } else if d == 3 {
        '3'
    } else if d == 4 {
        '4'
    } else if d == 5 {
        '5'
    } else if d == 6 {
        '6'
    } else if d == 7 {
        '7'
    } else if d == 8 {
        '8'
    } else {
        '9'
    }
}

/// The decimal representation of a number, without leading zeros (a lone
/// zero for zero itself).
pub open spec fn decimal_of(n: nat) -> Seq<char>
    decreases n,
    via decimal_of_decreases
{
    if n < 10 {
        seq![digit_char(n)]
    } else {
        decimal_of(n / 10).push(digit_char(n % 10))
    }
}

#[via_fn]
proof fn decimal_of_decreases(n: nat) {
    if n >= 10 {
        lemma_div_decreases(n as int, 10);
    }
}

/// A counter as it is reported: its decimal representation, right-aligned
/// in a field of width five (wider numbers keep their full width).
pub open spec fn count_field_of(n: nat) -> Seq<char> {
    let digits = decimal_of(n);
    if digits.len() >= 5 {
        digits
    } else {
        Seq::new((5 - digits.len()) as nat, |k: int| ' ') + digits
    }
}

/// The single-character string for a decimal digit.
fn digit_str(d: usize) -> (r: &'static str)
    requires
        d < 10,
    ensures
        r@ =~= seq![digit_char(d as nat)],
{
    proof {
        reveal_strlit("0");
        reveal_strlit("1");
        reveal_strlit("2");
        reveal_strlit("3");
        reveal_strlit("4");
        reveal_strlit("5");
        reveal_strlit("6");
        reveal_strlit("7");
        reveal_strlit("8");
        reveal_strlit("9");
    }
    if d == 0 {
        "0"
    } else if d == 1 {
        "1"
    } else if d == 2 {
        "2"
    } else if d == 3 {
        "3"
    } else if d == 4 {
        "4"
    } else if d == 5 {
        "5"
    } else if d == 6 {
        "6"
    } else if d == 7 {
        "7"
    } else if d == 8 {
        "8"
    } else {
        "9"
    }
}

/// Renders a counter in decimal.
pub fn decimal_string(n: usize) -> (r: String)
    ensures
        r@ == decimal_of(n as nat),
    decreases n,
{
    if n < 10 {
        String::from_str(digit_str(n))
    } else {
        proof {
            lemma_div_decreases(n as int, 10);
        }
        let q: usize = n / 10;
        let d: usize = n % 10;
        let mut s = decimal_string(q);
        s.append(digit_str(d));
        proof {
            assert(s@ =~= decimal_of(n as nat));
        }
        s
    }
}

/// Renders a counter right-aligned in a field of width five.
pub fn count_field(n: usize) -> (r: String)
    ensures
        r@ == count_field_of(n as nat),
{
    let digits = decimal_string(n);
    let len: usize = digits.as_str().unicode_len();
    if len >= 5 {
        digits
    } else {
        let mut r = String::new();
        let mut i: usize = len;
        while i < 5
            invariant
                len <= i <= 5,
                len == decimal_of(n as nat).len(),
                r@ =~= Seq::new((i - len) as nat, |k: int| ' '),
            decreases 5 - i,
        {
            proof {
                reveal_strlit(" ");
            }
            r.append(" ");
            proof {
                assert(r@ =~= Seq::new((i + 1 - len) as nat, |k: int| ' '));
            }
            i = i + 1;
        }
        r.append(digits.as_str());
        proof {
            assert(r@ =~= count_field_of(n as nat));
        }
        r
    }
}

/// The word naming the operation of a run.
pub open spec fn op_word_of(move_files: bool) -> Seq<char> {
    if move_files {
        "move"@
    } else {
        "copy"@
    }
}

/// The direction marker of a run: `-->` for a move, `==>` for a copy.
pub open spec fn arrow_of(move_files: bool) -> Seq<char> {
    if move_files {
        " --> "@
    } else {
        " ==> "@
    }
}

/// A per-file report line: the source and its destination, separated by the
/// run's direction marker.
pub open spec fn detail_line_of(source: Seq<char>, destination: Seq<char>, move_files: bool) -> Seq<
    char,
> {
    "  "@ + source + arrow_of(move_files) + destination
}

/// The warning emitted when an item fails and the run continues.
pub open spec fn warn_line_of(source: Seq<char>, destination: Seq<char>, move_files: bool) -> Seq<
    char,
> {
    "Unable to "@ + op_word_of(move_files) + " "@ + source + " to "@ + destination
        + ". Continuing."@
}

/// The fatal message returned when an item fails and the run stops on error.
pub open spec fn fatal_message_of(
    err: Seq<char>,
    source: Seq<char>,
    destination: Seq<char>,
    move_files: bool,
) -> Seq<char> {
    "Error: "@ + err + ". Unable to "@ + op_word_of(move_files) + " "@ + source + " to "@
        + destination + ". Halting."@
}

/// Builds the per-file report line for a handled item.
pub fn detail_line(source: &str, destination: &str, move_files: bool) -> (r: String)
    ensures
        r@ == detail_line_of(source@, destination@, move_files),
{
    let arrow: &str = if move_files {
        " --> "
    } else {
        " ==> "
    };
    let r = String::from_str("  ").concat(source).concat(arrow).concat(destination);
    proof {
        assert(r@ =~= detail_line_of(source@, destination@, move_files));
    }
    r
}

/// Builds the warning line for a skipped item.
pub fn warn_line(source: &str, destination: &str, move_files: bool) -> (r: String)
    ensures
        r@ == warn_line_of(source@, destination@, move_files),
{
    let word: &str = if move_files {
        "move"
    } else {
        "copy"
    };
    let r = String::from_str("Unable to ").concat(word).concat(" ").concat(source).concat(
        " to ",
    ).concat(destination).concat(". Continuing.");
    proof {
        assert(r@ =~= warn_line_of(source@, destination@, move_files));
    }
    r
}

/// Builds the fatal message for an aborted run.
pub fn fatal_message(err: &str, source: &str, destination: &str, move_files: bool) -> (r: String)
    ensures
        r@ == fatal_message_of(err@, source@, destination@, move_files),
{
    let word: &str = if move_files {
        "move"
    } else {
        "copy"
    };
    let r = String::from_str("Error: ").concat(err).concat(". Unable to ").concat(word).concat(
        " ",
    ).concat(source).concat(" to ").concat(destination).concat(". Halting.");
    proof {
        assert(r@ =~= fatal_message_of(err@, source@, destination@, move_files));
    }
    r
}

/// The first summary line: how many sources were examined.
pub open spec fn total_line_of(total: nat) -> Seq<char> {
    "Total files examined:        "@ + count_field_of(total)
}

/// The second summary line: how many files were moved or copied, labeled by
/// the run's operation.
pub open spec fn processed_line_of(move_files: bool, processed: nat) -> Seq<char> {
    if move_files {
        "Files moved:                 "@ + count_field_of(processed)
    } else {
        "Files copied:                "@ + count_field_of(processed)
    }
}

/// The third summary line: how many files were skipped over errors.
pub open spec fn skipped_line_of(skipped: nat) -> Seq<char> {
    "Files skipped due to errors: "@ + count_field_of(skipped)
}

/// Builds the three end-of-run summary lines from the run's counters.
pub fn summary_lines(move_files: bool, total: usize, processed: usize, skipped: usize) -> (r: Vec<
    String,
>)
    ensures
        r@.len() == 3,
        r@[0]@ == total_line_of(total as nat),
        r@[1]@ == processed_line_of(move_files, processed as nat),
        r@[2]@ == skipped_line_of(skipped as nat),
{
    let label: &str = if move_files {
        "Files moved:                 "
    } else {
        "Files copied:                "
    };
    let mut lines: Vec<String> = Vec::new();
    lines.push(
        String::from_str("Total files examined:        ").concat(count_field(total).as_str()),
    );
    lines.push(String::from_str(label).concat(count_field(processed).as_str()));
    lines.push(
        String::from_str("Files skipped due to errors: ").concat(count_field(skipped).as_str()),
    );
    lines
}

} // verus!
