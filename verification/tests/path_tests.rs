use media_pipeline::paths::{
    file_name_of, is_mp4_path, merged_output_path, optimized_output_path,
};

#[test]
fn file_name_after_last_slash() {
    assert_eq!(file_name_of("/a/b/clip.mp4"), "clip.mp4");
}

#[test]
fn file_name_of_bare_name() {
    assert_eq!(file_name_of("clip.mp4"), "clip.mp4");
}

#[test]
fn file_name_of_trailing_slash_is_empty() {
    assert_eq!(file_name_of("/a/b/"), "");
}

#[test]
fn mp4_extension_accepted() {
    assert!(is_mp4_path("/videos/a.mp4"));
    assert!(is_mp4_path("a.mp4"));
    assert!(is_mp4_path("archive.tar.mp4"));
}

#[test]
fn mp4_extension_is_case_sensitive() {
    assert!(!is_mp4_path("/videos/a.MP4"));
    assert!(!is_mp4_path("/videos/a.Mp4"));
}

#[test]
fn other_extensions_rejected() {
    assert!(!is_mp4_path("/videos/a.mkv"));
    assert!(!is_mp4_path("/videos/a.mp41"));
    assert!(!is_mp4_path("/videos/a.mp4.bak"));
    assert!(!is_mp4_path("/videos/amp4"));
}

#[test]
fn hidden_file_has_no_extension() {
    assert!(!is_mp4_path("/videos/.mp4"));
    assert!(!is_mp4_path(".mp4"));
}

#[test]
fn optimized_name_for_nested_input() {
    // Transform output for /a/b/clip.mp4 into /out is exactly this.
    assert_eq!(
        optimized_output_path("/a/b/clip.mp4", "/out"),
        "/out/optimized_clip.mp4"
    );
}

#[test]
fn optimized_name_for_bare_input() {
    assert_eq!(optimized_output_path("clip.mp4", "/dest"), "/dest/optimized_clip.mp4");
}

#[test]
fn merged_name_uses_epoch_seconds() {
    assert_eq!(merged_output_path("/out", 1234), "/out/merged_1234.mp4");
}

#[test]
fn merged_name_at_epoch_zero() {
    assert_eq!(merged_output_path("/out", 0), "/out/merged_0.mp4");
}

#[test]
fn merged_name_with_negative_epoch() {
    assert_eq!(merged_output_path("/out", -5), "/out/merged_-5.mp4");
}

#[test]
fn merged_name_with_extreme_epochs() {
    assert_eq!(
        merged_output_path("/o", i64::MAX),
        "/o/merged_9223372036854775807.mp4"
    );
    assert_eq!(
        merged_output_path("/o", i64::MIN),
        "/o/merged_-9223372036854775808.mp4"
    );
}

#[test]
fn merged_name_ignores_inputs_so_same_second_collides() {
    // The name depends on destination and epoch alone: two merges of
    // different input sets at the same wall-clock second collide.
    let first = merged_output_path("/out", 777);
    let second = merged_output_path("/out", 777);
    assert_eq!(first, second);
}
