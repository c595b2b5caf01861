//! Computations on '/'-separated path strings: file-name extraction, the
//! mp4-extension test, and the names of the files the pipeline writes.
use vstd::prelude::*;

verus! {

/// `p` contains a '/' separator.
pub open spec fn has_slash(p: Seq<char>) -> bool {
    exists|i: int| 0 <= i < p.len() && p[i] == '/'
}

/// The position of the last '/' of `p`.
pub open spec fn last_slash(p: Seq<char>) -> int {
    choose|i: int|
        0 <= i < p.len() && p[i] == '/' && (forall|j: int| i < j < p.len() ==> p[j] != '/')
}

/// The position where the file-name component of `p` starts: right after the
/// last '/', or 0 when `p` has no '/'.
pub open spec fn file_name_start(p: Seq<char>) -> int {
    if has_slash(p) {
        last_slash(p) + 1
    } else {
        0
    }
}

/// The file-name component of a '/'-separated path: everything after the
/// last '/', or the whole path when it has none.
pub open spec fn file_name_spec(p: Seq<char>) -> Seq<char> {
    p.subrange(file_name_start(p), p.len() as int)
}

/// A '/' at position `i` with none after it is the last one.
proof fn lemma_last_slash_at(p: Seq<char>, i: int)
    requires
        0 <= i < p.len(),
        p[i] == '/',
        forall|j: int| i < j < p.len() ==> p[j] != '/',
    ensures
        has_slash(p),
        last_slash(p) == i,
{
    assert(0 <= i < p.len() && p[i] == '/' && (forall|j: int| i < j < p.len() ==> p[j] != '/'));
    let m = last_slash(p);
    assert(0 <= m < p.len() && p[m] == '/' && (forall|j: int| m < j < p.len() ==> p[j] != '/'));
    if m < i {
        assert(p[i] != '/');
    } else if i < m {
        assert(p[m] != '/');
    }
}

/// The file-name component of `path`.
pub fn file_name_of(path: &str) -> (r: String)
    ensures
        r@ == file_name_spec(path@),
{
    let n = path.unicode_len();
    let mut i: usize = n;
    while i > 0
        invariant
            n == path@.len(),
            i <= n,
            forall|j: int| i <= j < n ==> path@[j] != '/',
        decreases i,
    {
        if path.get_char(i - 1) == '/' {
            proof {
                lemma_last_slash_at(path@, i - 1);
            }
            return String::from_str(path.substring_char(i, n));
        }
        i -= 1;
    }
    proof {
        assert(!has_slash(path@));
    }
    String::from_str(path.substring_char(0, n))
}

/// The file name `f` has extension exactly `mp4`: it ends in `.mp4` and that
/// '.' is not its first character (a bare `.mp4` is a hidden file with no
/// extension).
pub open spec fn name_is_mp4(f: Seq<char>) -> bool {
    &&& f.len() >= 5
    &&& f[f.len() - 4] == '.'
    &&& f[f.len() - 3] == 'm'
    &&& f[f.len() - 2] == 'p'
    &&& f[f.len() - 1] == '4'
}

/// The file-name component of path `p` has extension exactly `mp4`
/// (case-sensitive).
pub open spec fn path_is_mp4(p: Seq<char>) -> bool {
    name_is_mp4(file_name_spec(p))
}

/// Whether `path` names a file with extension exactly `mp4`.
pub fn is_mp4_path(path: &str) -> (b: bool)
    ensures
        b == path_is_mp4(path@),
{
    let name = file_name_of(path);
    let f = name.as_str();
    let n = f.unicode_len();
    if n < 5 {
        return false;
    }
    f.get_char(n - 4) == '.' && f.get_char(n - 3) == 'm' && f.get_char(n - 2) == 'p'
        && f.get_char(n - 1) == '4'
}

/// Where the transform writes its result: the source's file name prefixed
/// with `optimized_`, under the destination directory.
pub open spec fn optimized_path_spec(video_path: Seq<char>, save_dir: Seq<char>) -> Seq<char> {
    save_dir + "/optimized_"@ + file_name_spec(video_path)
}

/// The output path of a transform of `video_path` into `save_dir`.
pub fn optimized_output_path(video_path: &str, save_dir: &str) -> (r: String)
    ensures
        r@ == optimized_path_spec(video_path@, save_dir@),
{
    let mut r = String::from_str(save_dir);
    r.append("/optimized_");
    let name = file_name_of(video_path);
    r.append(name.as_str());
    r
}

/// The character for decimal digit `d`.
pub open spec fn dec_digit_char(d: int) -> char {
    if d == 0 {
        '0'
    } else if d == 1 {
        '1'
    } else if d == 2 {
        '2'
    } else if d == 3 {
        '3'
    } else if d == 4 {
        '4'
    } else if d == 5 {
        '5'
    } else if d == 6 {
        '6'
    } else if d == 7 {
        '7'
    } else if d == 8 {
        '8'
    } else {
        '9'
    }
}

/// The decimal digits of `n`, most significant first, no leading zeros
/// (a single '0' for zero).
pub open spec fn dec_seq(n: nat) -> Seq<char>
    decreases n,
{
    if n < 10 {
        seq![dec_digit_char(n as int)]
    } else {
        dec_seq(n / 10) + seq![dec_digit_char((n % 10) as int)]
    }
}

/// The decimal rendering of a signed value: a '-' sign before the digits of
/// the magnitude when `n` is negative.
pub open spec fn dec_seq_i64(n: int) -> Seq<char> {
    if n < 0 {
        "-"@ + dec_seq((-n) as nat)
    } else {
        dec_seq(n as nat)
    }
}

/// Where a merge writes its stream-copied intermediate: `merged_<epoch>.mp4`
/// under the destination directory. Two merges at the same epoch second
/// collide on this name, whatever their inputs.
pub open spec fn merged_path_spec(save_dir: Seq<char>, epoch: int) -> Seq<char> {
    save_dir + "/merged_"@ + dec_seq_i64(epoch) + ".mp4"@
}

/// No character of a decimal rendering of `n` is a '/' separator.
proof fn lemma_dec_seq_no_slash(n: nat)
    ensures
        forall|i: int| 0 <= i < dec_seq(n).len() ==> dec_seq(n)[i] != '/',
    decreases n,
{
    if n >= 10 {
        lemma_dec_seq_no_slash(n / 10);
    }
    assert forall|i: int| 0 <= i < dec_seq(n).len() implies dec_seq(n)[i] != '/' by {
        if n < 10 {
            assert(dec_seq(n)[i] == dec_digit_char(n as int));
        } else if i < dec_seq(n / 10).len() {
            assert(dec_seq(n)[i] == dec_seq(n / 10)[i]);
        } else {
            assert(dec_seq(n)[i] == dec_digit_char((n % 10) as int));
        }
    }
}

/// Law: the final artifact of a merge issued at `epoch` into `save_dir` is
/// named `optimized_merged_<epoch>.mp4` under `save_dir`: re-encoding the
/// stream-copied intermediate prefixes its file name with `optimized_`,
/// whatever the merge's inputs were.
pub proof fn lemma_merge_chain_name(save_dir: Seq<char>, epoch: int)
    ensures
        optimized_path_spec(merged_path_spec(save_dir, epoch), save_dir) == save_dir
            + "/optimized_merged_"@ + dec_seq_i64(epoch) + ".mp4"@,
{
    reveal_strlit("/merged_");
    reveal_strlit("/optimized_");
    reveal_strlit("/optimized_merged_");
    reveal_strlit(".mp4");
    reveal_strlit("-");
    let digits = dec_seq_i64(epoch);
    if epoch < 0 {
        lemma_dec_seq_no_slash((-epoch) as nat);
    } else {
        lemma_dec_seq_no_slash(epoch as nat);
    }
    assert(forall|i: int| 0 <= i < digits.len() ==> digits[i] != '/');
    let merged = merged_path_spec(save_dir, epoch);
    let k = save_dir.len() as int;
    assert(merged[k] == '/');
    assert forall|j: int| k < j < merged.len() implies merged[j] != '/' by {
        if j < k + 8 {
            assert(merged[j] == "/merged_"@[j - k]);
        } else if j < k + 8 + digits.len() {
            assert(merged[j] == digits[j - (k + 8)]);
        } else {
            assert(merged[j] == ".mp4"@[j - (k + 8 + digits.len())]);
        }
    }
    lemma_last_slash_at(merged, k);
    assert(optimized_path_spec(merged, save_dir) =~= save_dir + "/optimized_merged_"@ + digits
        + ".mp4"@);
}

/// The one-character string for decimal digit `d`.
fn digit_str(d: u64) -> (r: &'static str)
    requires
        d < 10,
    ensures
        r@ == seq![dec_digit_char(d as int)],
{
    let r: &'static str = if d == 0 {
        "0"
    } else if d == 1 {
        "1"
    } else if d == 2 {
        "2"
    } else if d == 3 {
        "3"
    } else if d == 4 {
        "4"
    } else if d == 5 {
        "5"
    } else if d == 6 {
        "6"
    } else if d == 7 {
        "7"
    } else if d == 8 {
        "8"
    } else {
        "9"
    };
    proof {
        reveal_strlit("0");
        reveal_strlit("1");
        reveal_strlit("2");
        reveal_strlit("3");
        reveal_strlit("4");
        reveal_strlit("5");
        reveal_strlit("6");
        reveal_strlit("7");
        reveal_strlit("8");
        reveal_strlit("9");
        assert(r@ =~= seq![dec_digit_char(d as int)]);
    }
    r
}

/// Append the decimal digits of `n` to `out`.
fn append_dec(n: u64, out: &mut String)
    ensures
        final(out)@ == old(out)@ + dec_seq(n as nat),
    decreases n,
{
    if n >= 10 {
        append_dec(n / 10, out);
    }
    out.append(digit_str(n % 10));
    proof {
        assert(final(out)@ =~= old(out)@ + dec_seq(n as nat));
    }
}

/// The output path of the stream-copied concatenation written at `epoch`
/// (Unix seconds) into `save_dir`.
pub fn merged_output_path(save_dir: &str, epoch: i64) -> (r: String)
    ensures
        r@ == merged_path_spec(save_dir@, epoch as int),
{
    let mut r = String::from_str(save_dir);
    r.append("/merged_");
    if epoch < 0 {
        r.append("-");
        let m: u64 = ((-(epoch + 1)) as u64) + 1;
        proof {
            assert(m as int == -(epoch as int));
        }
        append_dec(m, &mut r);
    } else {
        append_dec(epoch as u64, &mut r);
    }
    r.append(".mp4");
    proof {
        assert(r@ =~= merged_path_spec(save_dir@, epoch as int));
    }
    r
}

} // verus!
