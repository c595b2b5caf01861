//! The external media tool as a collaborator: the fixed argument lists of
//! its three invocation modes, and what each exit status means for the
//! operation that issued it. The tool itself is an opaque executable; the
//! caller spawns it and hands the exit status back to these decisions.
use vstd::prelude::*;

use crate::paths::{merged_output_path, merged_path_spec, optimized_output_path, optimized_path_spec};

verus! {

/// The name of the external media tool executable.
pub open spec fn tool_name_spec() -> Seq<char> {
    "ffmpeg"@
}

/// The program the caller must spawn for every invocation.
pub fn external_tool() -> (r: String)
    ensures
        r@ == tool_name_spec(),
{
    String::from_str("ffmpeg")
}

/// The fixed error message of a failed thumbnail extraction.
pub open spec fn msg_thumbnail_failed() -> Seq<char> {
    "Thumbnail generation failed"@
}

/// The fixed error message of a failed re-encode.
pub open spec fn msg_optimize_failed() -> Seq<char> {
    "Video optimization failed"@
}

/// The fixed error message of a failed concatenation.
pub open spec fn msg_merge_failed() -> Seq<char> {
    "Video merging failed"@
}

/// The thumbnail file written beside a freshly allocated temporary file:
/// its path with a `.jpg` suffix.
pub open spec fn thumbnail_file_spec(tmp_path: Seq<char>) -> Seq<char> {
    tmp_path + ".jpg"@
}

/// The URI-style reference handed back for a generated thumbnail.
pub open spec fn thumbnail_uri_spec(output_path: Seq<char>) -> Seq<char> {
    "file://"@ + output_path
}

/// Where the thumbnail of a run with temporary file `tmp_path` is written.
pub fn thumbnail_output_file(tmp_path: &str) -> (r: String)
    ensures
        r@ == thumbnail_file_spec(tmp_path@),
{
    let mut r = String::from_str(tmp_path);
    r.append(".jpg");
    r
}

/// Arguments that make the tool extract one frame of `input`, scaled to
/// 120x68, into `output`.
pub open spec fn thumbnail_args_spec(input: Seq<char>, output: Seq<char>) -> Seq<Seq<char>> {
    seq!["-i"@, input, "-vframes"@, "1"@, "-s"@, "120x68"@, output]
}

/// Arguments that make the tool re-encode `input` with codec libx264 at
/// 1920x1080 and 5000 kbit/s, preset fast, into `output`.
pub open spec fn transform_args_spec(input: Seq<char>, output: Seq<char>) -> Seq<Seq<char>> {
    seq![
        "-i"@,
        input,
        "-vcodec"@,
        "libx264"@,
        "-s"@,
        "1920x1080"@,
        "-b:v"@,
        "5000k"@,
        "-preset"@,
        "fast"@,
        output,
    ]
}

/// Arguments that make the tool concatenate the files listed in the
/// manifest at `manifest_path`, stream-copied, into `output`.
pub open spec fn concat_args_spec(manifest_path: Seq<char>, output: Seq<char>) -> Seq<Seq<char>> {
    seq!["-f"@, "concat"@, "-safe"@, "0"@, "-i"@, manifest_path, "-c"@, "copy"@, output]
}

/// The argument list of a thumbnail extraction.
pub fn thumbnail_args(input: &str, output: &str) -> (r: Vec<String>)
    ensures
        r.deep_view() == thumbnail_args_spec(input@, output@),
{
    let mut r: Vec<String> = Vec::new();
    r.push(String::from_str("-i"));
    r.push(String::from_str(input));
    r.push(String::from_str("-vframes"));
    r.push(String::from_str("1"));
    r.push(String::from_str("-s"));
    r.push(String::from_str("120x68"));
    r.push(String::from_str(output));
    proof {
        assert(r.deep_view() =~~= thumbnail_args_spec(input@, output@));
    }
    r
}

/// The argument list of a re-encode.
pub fn transform_args(input: &str, output: &str) -> (r: Vec<String>)
    ensures
        r.deep_view() == transform_args_spec(input@, output@),
{
    let mut r: Vec<String> = Vec::new();
    r.push(String::from_str("-i"));
    r.push(String::from_str(input));
    r.push(String::from_str("-vcodec"));
    r.push(String::from_str("libx264"));
    r.push(String::from_str("-s"));
    r.push(String::from_str("1920x1080"));
    r.push(String::from_str("-b:v"));
    r.push(String::from_str("5000k"));
    r.push(String::from_str("-preset"));
    r.push(String::from_str("fast"));
    r.push(String::from_str(output));
    proof {
        assert(r.deep_view() =~~= transform_args_spec(input@, output@));
    }
    r
}

/// The argument list of a concatenation.
pub fn concat_args(manifest_path: &str, output: &str) -> (r: Vec<String>)
    ensures
        r.deep_view() == concat_args_spec(manifest_path@, output@),
{
    let mut r: Vec<String> = Vec::new();
    r.push(String::from_str("-f"));
    r.push(String::from_str("concat"));
    r.push(String::from_str("-safe"));
    r.push(String::from_str("0"));
    r.push(String::from_str("-i"));
    r.push(String::from_str(manifest_path));
    r.push(String::from_str("-c"));
    r.push(String::from_str("copy"));
    r.push(String::from_str(output));
    proof {
        assert(r.deep_view() =~~= concat_args_spec(manifest_path@, output@));
    }
    r
}

/// What a thumbnail extraction returns once the tool has exited: the URI of
/// the written file on exit status zero, the fixed failure message on any
/// other status.
pub fn thumbnail_outcome(exit_ok: bool, output_path: &str) -> (r: Result<String, String>)
    ensures
        exit_ok ==> (r matches Ok(u) && u@ == thumbnail_uri_spec(output_path@)),
        !exit_ok ==> (r matches Err(e) && e@ == msg_thumbnail_failed()),
{
    if exit_ok {
        let mut u = String::from_str("file://");
        u.append(output_path);
        Ok(u)
    } else {
        Err(String::from_str("Thumbnail generation failed"))
    }
}

/// What a re-encode returns once the tool has exited: success on exit
/// status zero, the fixed failure message on any other status.
pub fn transform_outcome(exit_ok: bool) -> (r: Result<(), String>)
    ensures
        exit_ok ==> r is Ok,
        !exit_ok ==> (r matches Err(e) && e@ == msg_optimize_failed()),
{
    if exit_ok {
        Ok(())
    } else {
        Err(String::from_str("Video optimization failed"))
    }
}

/// A planned re-encode: where it writes, and the arguments to spawn the
/// tool with.
pub struct TransformJob {
    pub output_path: String,
    pub args: Vec<String>,
}

/// `j` re-encodes `input` into `save_dir` under the `optimized_` name.
pub open spec fn transform_job_for(j: TransformJob, input: Seq<char>, save_dir: Seq<char>) -> bool {
    &&& j.output_path@ == optimized_path_spec(input, save_dir)
    &&& j.args.deep_view() == transform_args_spec(input, j.output_path@)
}

/// Plan the re-encode of `input` into `save_dir`.
pub fn plan_transform(input: &str, save_dir: &str) -> (j: TransformJob)
    ensures
        transform_job_for(j, input@, save_dir@),
{
    let output_path = optimized_output_path(input, save_dir);
    let args = transform_args(input, output_path.as_str());
    TransformJob { output_path, args }
}

/// What a merge does once the concatenation step has exited. On exit status
/// zero it chains into the re-encode of the merged file, into the same
/// destination; on any other status it surfaces the fixed failure message
/// and plans no re-encode.
pub fn merge_after_concat(exit_ok: bool, merged_path: &str, save_dir: &str) -> (r: Result<
    TransformJob,
    String,
>)
    ensures
        exit_ok ==> (r matches Ok(j) && transform_job_for(j, merged_path@, save_dir@)),
        !exit_ok ==> (r matches Err(e) && e@ == msg_merge_failed()),
{
    if exit_ok {
        Ok(plan_transform(merged_path, save_dir))
    } else {
        Err(String::from_str("Video merging failed"))
    }
}

/// Relies on chrono::Utc::now and chrono::DateTime::timestamp: the current
/// wall-clock time as whole seconds since the Unix epoch. Nothing is
/// promised of the value; callers state what holds of every outcome.
/// chrono panics only on a host clock set before the Unix epoch.
#[verifier::external_body]
fn now_epoch_seconds() -> (t: i64) {
    chrono::Utc::now().timestamp()
}

/// The output path of a merge issued now: `merged_<epoch>.mp4` under
/// `save_dir`, for the wall-clock epoch second of the call. Two calls
/// within the same second yield the same path, whatever their inputs.
pub fn fresh_merged_output_path(save_dir: &str) -> (r: String)
    ensures
        exists|e: int| i64::MIN <= e <= i64::MAX && r@ == merged_path_spec(save_dir@, e),
{
    let t = now_epoch_seconds();
    let r = merged_output_path(save_dir, t);
    proof {
        assert(i64::MIN <= t as int <= i64::MAX && r@ == merged_path_spec(save_dir@, t as int));
    }
    r
}

} // verus!
