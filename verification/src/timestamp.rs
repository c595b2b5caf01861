//! Extraction of a `YYYYMMDD_HHMMSS` stamp embedded in a filename.
use vstd::prelude::*;

verus! {

/// An ASCII decimal digit.
pub open spec fn is_dec_digit(c: char) -> bool {
    48 <= c as u32 && c as u32 <= 57
}

/// The fixed pattern `YYYYMMDD_HHMMSS` occupies positions `i..i + 15` of `s`:
/// eight digits, an underscore, then six digits.
pub open spec fn stamp_at(s: Seq<char>, i: int) -> bool {
    &&& 0 <= i
    &&& i + 15 <= s.len()
    &&& (forall|k: int| i <= k < i + 8 ==> is_dec_digit(#[trigger] s[k]))
    &&& s[i + 8] == '_'
    &&& (forall|k: int| i + 9 <= k < i + 15 ==> is_dec_digit(#[trigger] s[k]))
}

/// The pattern occurs somewhere in `s`.
pub open spec fn has_stamp(s: Seq<char>) -> bool {
    exists|i: int| stamp_at(s, i)
}

/// The position of the leftmost occurrence of the pattern.
pub open spec fn first_stamp(s: Seq<char>) -> int {
    choose|i: int| stamp_at(s, i) && (forall|j: int| 0 <= j < i ==> !stamp_at(s, j))
}

/// `YYYY-MM-DD HH:MM:SS`, assembled verbatim from the six digit groups of the
/// occurrence at position `i`; the digits are not validated as a calendar date.
pub open spec fn formatted_at(s: Seq<char>, i: int) -> Seq<char> {
    s.subrange(i, i + 4) + "-"@ + s.subrange(i + 4, i + 6) + "-"@ + s.subrange(i + 6, i + 8)
        + " "@ + s.subrange(i + 9, i + 11) + ":"@ + s.subrange(i + 11, i + 13) + ":"@
        + s.subrange(i + 13, i + 15)
}

/// The sentinel returned when no stamp is present.
pub open spec fn unknown_stamp() -> Seq<char> {
    "Unknown"@
}

/// What the parser returns for filename `s`: the leftmost occurrence of the
/// pattern, reformatted, or the sentinel when the pattern does not occur.
pub open spec fn timestamp_of(s: Seq<char>) -> Seq<char> {
    if has_stamp(s) {
        formatted_at(s, first_stamp(s))
    } else {
        unknown_stamp()
    }
}

/// Law: when the pattern occurs at `i` and nowhere earlier, the parsed stamp
/// is exactly the digits of that occurrence, formatted `YYYY-MM-DD HH:MM:SS`.
pub proof fn lemma_timestamp_match(s: Seq<char>, i: int)
    requires
        stamp_at(s, i),
        forall|j: int| 0 <= j < i ==> !stamp_at(s, j),
    ensures
        timestamp_of(s) == formatted_at(s, i),
{
    assert(stamp_at(s, i) && (forall|j: int| 0 <= j < i ==> !stamp_at(s, j)));
    let m = first_stamp(s);
    assert(stamp_at(s, m) && (forall|j: int| 0 <= j < m ==> !stamp_at(s, j)));
    if m < i {
        assert(!stamp_at(s, m));
    } else if i < m {
        assert(!stamp_at(s, i));
    }
}

/// Law: when the pattern occurs nowhere in `s`, the parsed stamp is the
/// sentinel `"Unknown"`.
pub proof fn lemma_timestamp_unknown(s: Seq<char>)
    requires
        forall|i: int| !stamp_at(s, i),
    ensures
        timestamp_of(s) == unknown_stamp(),
{
}

/// Whether the character at position `i` is a decimal digit.
fn digit_at(s: &str, i: usize) -> (b: bool)
    requires
        i < s@.len(),
    ensures
        b == is_dec_digit(s@[i as int]),
{
    let c = s.get_char(i);
    let u = c as u32;
    48 <= u && u <= 57
}

/// Whether the pattern occupies positions `i..i + 15` of `s`.
fn stamp_window_at(s: &str, i: usize) -> (b: bool)
    requires
        i + 15 <= s@.len(),
        s@.len() <= usize::MAX,
    ensures
        b == stamp_at(s@, i as int),
{
    let b = digit_at(s, i) && digit_at(s, i + 1) && digit_at(s, i + 2) && digit_at(s, i + 3)
        && digit_at(s, i + 4) && digit_at(s, i + 5) && digit_at(s, i + 6) && digit_at(s, i + 7)
        && s.get_char(i + 8) == '_' && digit_at(s, i + 9) && digit_at(s, i + 10)
        && digit_at(s, i + 11) && digit_at(s, i + 12) && digit_at(s, i + 13)
        && digit_at(s, i + 14);
    proof {
        if b {
            assert forall|k: int| i <= k < i + 8 implies is_dec_digit(s@[k]) by {}
            assert forall|k: int| i + 9 <= k < i + 15 implies is_dec_digit(s@[k]) by {}
        }
    }
    b
}

/// The formatted stamp for the occurrence at position `i`.
fn format_stamp(s: &str, i: usize) -> (r: String)
    requires
        i + 15 <= s@.len(),
        s@.len() <= usize::MAX,
    ensures
        r@ == formatted_at(s@, i as int),
{
    let mut r = String::new();
    r.append(s.substring_char(i, i + 4));
    r.append("-");
    r.append(s.substring_char(i + 4, i + 6));
    r.append("-");
    r.append(s.substring_char(i + 6, i + 8));
    r.append(" ");
    r.append(s.substring_char(i + 9, i + 11));
    r.append(":");
    r.append(s.substring_char(i + 11, i + 13));
    r.append(":");
    r.append(s.substring_char(i + 13, i + 15));
    proof {
        assert(r@ =~= formatted_at(s@, i as int));
    }
    r
}

/// Extract a human-readable timestamp from `filename`: the leftmost embedded
/// `YYYYMMDD_HHMMSS` group reformatted as `YYYY-MM-DD HH:MM:SS`, or
/// `"Unknown"` when no such group occurs. Never fails.
pub fn extract_timestamp(filename: &str) -> (r: String)
    ensures
        r@ == timestamp_of(filename@),
{
    let n = filename.unicode_len();
    if n >= 15 {
        let mut i: usize = 0;
        while i <= n - 15
            invariant
                n == filename@.len(),
                15 <= n,
                i <= n - 14,
                forall|j: int| 0 <= j < i ==> !stamp_at(filename@, j),
            decreases n - i,
        {
            if stamp_window_at(filename, i) {
                proof {
                    lemma_timestamp_match(filename@, i as int);
                }
                return format_stamp(filename, i);
            }
            i += 1;
        }
        proof {
            assert forall|j: int| !stamp_at(filename@, j) by {
                if 0 <= j && j + 15 <= n {
                    assert(!stamp_at(filename@, j));
                }
            }
        }
    }
    String::from_str("Unknown")
}

} // verus!
