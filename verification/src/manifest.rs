//! The concatenation manifest: the ordered file list handed to the external
//! tool's concat mode, one line per input in the form `file '<path>'`.
use vstd::prelude::*;

verus! {

/// The manifest line for one input path.
pub open spec fn manifest_line(p: Seq<char>) -> Seq<char> {
    "file '"@ + p + "'\n"@
}

/// The whole manifest: one line per input path, in input order.
pub open spec fn manifest_text(paths: Seq<Seq<char>>) -> Seq<char>
    decreases paths.len(),
{
    if paths.len() == 0 {
        Seq::empty()
    } else {
        manifest_text(paths.drop_last()) + manifest_line(paths.last())
    }
}

/// `p` cannot break the line syntax of the manifest: it holds neither a
/// single quote nor a line break.
pub open spec fn manifest_safe_path(p: Seq<char>) -> bool {
    forall|i: int| 0 <= i < p.len() ==> p[i] != '\'' && p[i] != '\n'
}

/// Every path of the list is safe to put on a manifest line.
pub open spec fn manifest_safe(paths: Seq<Seq<char>>) -> bool {
    forall|i: int| 0 <= i < paths.len() ==> manifest_safe_path(#[trigger] paths[i])
}

/// The error message for an input path that would corrupt the manifest.
pub open spec fn msg_unsafe_path() -> Seq<char> {
    "Invalid video path"@
}

/// Whether `p` is free of manifest-breaking characters.
fn path_is_manifest_safe(p: &str) -> (b: bool)
    ensures
        b == manifest_safe_path(p@),
{
    let n = p.unicode_len();
    let mut i: usize = 0;
    while i < n
        invariant
            n == p@.len(),
            i <= n,
            forall|j: int| 0 <= j < i ==> p@[j] != '\'' && p@[j] != '\n',
        decreases n - i,
    {
        let c = p.get_char(i);
        if c == '\'' || c == '\n' {
            return false;
        }
        i += 1;
    }
    true
}

/// Build the manifest text for `paths`, in order. A path holding a quote or
/// a line break would corrupt the file-list syntax, so such an input is
/// rejected rather than passed through.
pub fn concat_manifest(paths: &Vec<String>) -> (r: Result<String, String>)
    ensures
        manifest_safe(paths.deep_view()) ==> (r matches Ok(m) && m@ == manifest_text(
            paths.deep_view(),
        )),
        !manifest_safe(paths.deep_view()) ==> (r matches Err(e) && e@ == msg_unsafe_path()),
{
    let mut text = String::new();
    let mut i: usize = 0;
    while i < paths.len()
        invariant
            i <= paths.len(),
            text@ == manifest_text(paths.deep_view().take(i as int)),
            forall|j: int| 0 <= j < i ==> manifest_safe_path(#[trigger] paths.deep_view()[j]),
        decreases paths.len() - i,
    {
        if !path_is_manifest_safe(paths[i].as_str()) {
            proof {
                assert(!manifest_safe_path(paths.deep_view()[i as int]));
            }
            return Err(String::from_str("Invalid video path"));
        }
        text.append("file '");
        text.append(paths[i].as_str());
        text.append("'\n");
        proof {
            let dv = paths.deep_view();
            assert(dv.take(i + 1).drop_last() =~= dv.take(i as int));
            assert(text@ =~= manifest_text(dv.take(i + 1)));
        }
        i += 1;
    }
    proof {
        assert(paths.deep_view().take(paths.len() as int) =~= paths.deep_view());
    }
    Ok(text)
}

} // verus!
