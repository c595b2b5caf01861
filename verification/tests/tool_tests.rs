use media_pipeline::manifest::concat_manifest;
use media_pipeline::tool::{
    concat_args, external_tool, fresh_merged_output_path, merge_after_concat, plan_transform,
    thumbnail_args, thumbnail_outcome, thumbnail_output_file, transform_args, transform_outcome,
};

fn strings(xs: &[&str]) -> Vec<String> {
    xs.iter().map(|s| s.to_string()).collect()
}

#[test]
fn tool_is_ffmpeg() {
    assert_eq!(external_tool(), "ffmpeg");
}

#[test]
fn thumbnail_argument_list() {
    assert_eq!(
        thumbnail_args("/d/a.mp4", "/tmp/t.jpg"),
        strings(&["-i", "/d/a.mp4", "-vframes", "1", "-s", "120x68", "/tmp/t.jpg"])
    );
}

#[test]
fn thumbnail_file_appends_jpg() {
    assert_eq!(thumbnail_output_file("/tmp/xyz"), "/tmp/xyz.jpg");
}

#[test]
fn thumbnail_success_yields_file_uri() {
    assert_eq!(
        thumbnail_outcome(true, "/tmp/t.jpg"),
        Ok("file:///tmp/t.jpg".to_string())
    );
}

#[test]
fn thumbnail_failure_yields_fixed_message() {
    assert_eq!(
        thumbnail_outcome(false, "/tmp/t.jpg"),
        Err("Thumbnail generation failed".to_string())
    );
}

#[test]
fn transform_argument_list() {
    assert_eq!(
        transform_args("/d/a.mp4", "/out/optimized_a.mp4"),
        strings(&[
            "-i",
            "/d/a.mp4",
            "-vcodec",
            "libx264",
            "-s",
            "1920x1080",
            "-b:v",
            "5000k",
            "-preset",
            "fast",
            "/out/optimized_a.mp4",
        ])
    );
}

#[test]
fn transform_plan_names_output_and_args() {
    let job = plan_transform("/a/b/clip.mp4", "/out");
    assert_eq!(job.output_path, "/out/optimized_clip.mp4");
    assert_eq!(
        job.args,
        strings(&[
            "-i",
            "/a/b/clip.mp4",
            "-vcodec",
            "libx264",
            "-s",
            "1920x1080",
            "-b:v",
            "5000k",
            "-preset",
            "fast",
            "/out/optimized_clip.mp4",
        ])
    );
}

#[test]
fn transform_success_and_failure() {
    assert_eq!(transform_outcome(true), Ok(()));
    assert_eq!(
        transform_outcome(false),
        Err("Video optimization failed".to_string())
    );
}

#[test]
fn concat_argument_list() {
    assert_eq!(
        concat_args("/tmp/list", "/out/merged_7.mp4"),
        strings(&["-f", "concat", "-safe", "0", "-i", "/tmp/list", "-c", "copy", "/out/merged_7.mp4"])
    );
}

#[test]
fn manifest_lists_inputs_in_order() {
    let paths = strings(&["/a.mp4", "/b.mp4"]);
    assert_eq!(
        concat_manifest(&paths),
        Ok("file '/a.mp4'\nfile '/b.mp4'\n".to_string())
    );
}

#[test]
fn manifest_of_empty_list_is_empty() {
    // No cardinality check: an empty input list passes through.
    let paths: Vec<String> = Vec::new();
    assert_eq!(concat_manifest(&paths), Ok(String::new()));
}

#[test]
fn manifest_rejects_quote_in_path() {
    let paths = strings(&["/a.mp4", "/o'brien.mp4"]);
    assert_eq!(concat_manifest(&paths), Err("Invalid video path".to_string()));
}

#[test]
fn manifest_rejects_line_break_in_path() {
    let paths = strings(&["/a\n.mp4"]);
    assert_eq!(concat_manifest(&paths), Err("Invalid video path".to_string()));
}

#[test]
fn merge_chains_into_transform_of_merged_file() {
    // Concatenating /a.mp4 and /b.mp4 into /out at epoch 1234 writes the
    // intermediate merged_1234.mp4, then re-encodes it to
    // optimized_merged_1234.mp4.
    let merged = media_pipeline::paths::merged_output_path("/out", 1234);
    assert_eq!(merged, "/out/merged_1234.mp4");
    let chained = merge_after_concat(true, &merged, "/out");
    let job = chained.ok().expect("concat succeeded");
    assert_eq!(job.output_path, "/out/optimized_merged_1234.mp4");
}

#[test]
fn merge_failure_plans_no_transform() {
    let r = merge_after_concat(false, "/out/merged_1234.mp4", "/out");
    assert!(r.is_err());
    assert_eq!(r.err(), Some("Video merging failed".to_string()));
}

#[test]
fn fresh_merged_path_is_under_destination() {
    // Exercises the wall-clock wrapper: the name is merged_<epoch>.mp4 for
    // some epoch, under the destination. The clock ran after 2000-01-01.
    let p = fresh_merged_output_path("/out");
    assert!(p.starts_with("/out/merged_"));
    assert!(p.ends_with(".mp4"));
    let digits = &p["/out/merged_".len()..p.len() - ".mp4".len()];
    let epoch: i64 = digits.parse().expect("decimal epoch");
    assert!(epoch > 946_684_800);
}
