//! Planning and assembly of a directory scan: which entries qualify, and the
//! record built for each qualifying video.
use vstd::prelude::*;

use crate::paths::{file_name_of, file_name_spec, is_mp4_path, path_is_mp4};
use crate::timestamp::{extract_timestamp, timestamp_of};

verus! {

/// One discovered video: its path, a URI-style reference to its generated
/// preview image, and the timestamp parsed from its file name.
pub struct Video {
    pub path: String,
    pub thumbnail: String,
    pub timestamp: String,
}

/// The mathematical content of a `Video`.
pub ghost struct VideoView {
    pub path: Seq<char>,
    pub thumbnail: Seq<char>,
    pub timestamp: Seq<char>,
}

impl View for Video {
    type V = VideoView;

    open spec fn view(&self) -> VideoView {
        VideoView { path: self.path@, thumbnail: self.thumbnail@, timestamp: self.timestamp@ }
    }
}

/// `v` is the record a scan builds for the file at `path` whose thumbnail
/// reference is `thumb`: the timestamp is parsed from the file name.
pub open spec fn record_for(v: VideoView, path: Seq<char>, thumb: Seq<char>) -> bool {
    &&& v.path == path
    &&& v.thumbnail == thumb
    &&& v.timestamp == timestamp_of(file_name_spec(path))
}

/// The entries of a directory listing that a scan keeps: those with
/// extension exactly `mp4`, in listing order.
pub open spec fn mp4_paths(entries: Seq<Seq<char>>) -> Seq<Seq<char>> {
    entries.filter(|p: Seq<char>| path_is_mp4(p))
}

/// How many entries of a listing have extension exactly `mp4`.
pub open spec fn mp4_count(entries: Seq<Seq<char>>) -> nat
    decreases entries.len(),
{
    if entries.len() == 0 {
        0
    } else {
        mp4_count(entries.drop_last()) + if path_is_mp4(entries.last()) {
            1nat
        } else {
            0nat
        }
    }
}

/// Law: a scan of a listing with N `mp4` entries plans exactly N records,
/// whatever else the listing holds.
pub proof fn lemma_mp4_selection_count(entries: Seq<Seq<char>>)
    ensures
        mp4_paths(entries).len() == mp4_count(entries),
    decreases entries.len(),
{
    reveal(Seq::filter);
    if entries.len() > 0 {
        lemma_mp4_selection_count(entries.drop_last());
    }
}

/// Law: an entry without the `mp4` extension leaves the planned records
/// unchanged, wherever in the listing it stands.
pub proof fn lemma_skip_non_mp4(a: Seq<Seq<char>>, x: Seq<char>, b: Seq<Seq<char>>)
    requires
        !path_is_mp4(x),
    ensures
        mp4_paths(a + seq![x] + b) == mp4_paths(a + b),
{
    let pred = |p: Seq<char>| path_is_mp4(p);
    Seq::filter_distributes_over_add(a + seq![x], b, pred);
    Seq::filter_distributes_over_add(a, seq![x], pred);
    Seq::filter_distributes_over_add(a, b, pred);
    reveal_with_fuel(Seq::filter, 2);
    assert(seq![x].drop_last() =~= Seq::<Seq<char>>::empty());
    assert(seq![x].filter(pred) =~= Seq::<Seq<char>>::empty());
    assert(mp4_paths(a + seq![x] + b) =~= mp4_paths(a + b));
}

/// The `mp4` filter of a listing grows by one entry.
proof fn lemma_mp4_paths_push(entries: Seq<Seq<char>>, x: Seq<char>)
    ensures
        mp4_paths(entries.push(x)) == if path_is_mp4(x) {
            mp4_paths(entries).push(x)
        } else {
            mp4_paths(entries)
        },
{
    reveal(Seq::filter);
    assert(entries.push(x).drop_last() =~= entries);
    assert(entries.push(x).last() == x);
    if path_is_mp4(x) {
        assert(mp4_paths(entries.push(x)) =~= mp4_paths(entries).push(x));
    }
}

/// The entries of `entries` that a scan keeps, in order: those whose
/// extension is exactly `mp4`. Subdirectories and other files are skipped.
pub fn filter_mp4_paths(entries: &Vec<String>) -> (r: Vec<String>)
    ensures
        r.deep_view() == mp4_paths(entries.deep_view()),
{
    let mut r: Vec<String> = Vec::new();
    let mut i: usize = 0;
    while i < entries.len()
        invariant
            i <= entries.len(),
            r.deep_view() == mp4_paths(entries.deep_view().take(i as int)),
        decreases entries.len() - i,
    {
        let keep = is_mp4_path(entries[i].as_str());
        if keep {
            r.push(entries[i].clone());
        }
        proof {
            let dv = entries.deep_view();
            assert(dv.take(i + 1) =~= dv.take(i as int).push(dv[i as int]));
            lemma_mp4_paths_push(dv.take(i as int), dv[i as int]);
            if keep {
                assert(r.deep_view() =~= mp4_paths(dv.take(i as int)).push(dv[i as int]));
            }
        }
        i += 1;
    }
    proof {
        assert(entries.deep_view().take(entries.len() as int) =~= entries.deep_view());
    }
    r
}

/// The record for the qualifying file at `path` whose generated thumbnail
/// reference is `thumbnail`.
pub fn scan_record(path: &str, thumbnail: String) -> (v: Video)
    ensures
        record_for(v@, path@, thumbnail@),
{
    let name = file_name_of(path);
    let timestamp = extract_timestamp(name.as_str());
    Video { path: String::from_str(path), thumbnail, timestamp }
}

/// One step of a scan: fold the thumbnail outcome for `path` into the
/// records built so far. A successful thumbnail appends exactly one record;
/// a failed one leaves the records untouched and surfaces its error, so a
/// scan never returns a partial list.
pub fn scan_step(videos: &mut Vec<Video>, path: &str, thumb: Result<String, String>) -> (r: Result<
    (),
    String,
>)
    ensures
        (thumb matches Ok(t) ==> {
            &&& r is Ok
            &&& final(videos)@.len() == old(videos)@.len() + 1
            &&& forall|k: int|
                0 <= k < old(videos)@.len() ==> final(videos)@[k] == old(videos)@[k]
            &&& record_for(final(videos)@.last()@, path@, t@)
        }),
        (thumb matches Err(e) ==> {
            &&& r matches Err(e2) && e2@ == e@
            &&& final(videos)@ == old(videos)@
        }),
{
    match thumb {
        Ok(t) => {
            let v = scan_record(path, t);
            videos.push(v);
            Ok(())
        },
        Err(e) => Err(e),
    }
}

} // verus!
