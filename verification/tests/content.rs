use ruststream::content::content_type;
use ruststream::content::content_type_or_octet_stream;

#[test]
fn content_type_of_a_video_file() {
    assert_eq!(content_type("video.mp4"), "video/mp4");
    assert_eq!(content_type("media/shows/video.mp4"), "video/mp4");
}

#[test]
fn content_type_of_common_media() {
    assert_eq!(content_type("cover.png"), "image/png");
    assert_eq!(content_type("cover.jpg"), "image/jpeg");
    assert_eq!(content_type("notes.txt"), "text/plain");
    assert_eq!(content_type("page.html"), "text/html");
}

#[test]
fn content_type_goes_by_the_final_extension_only() {
    assert_eq!(content_type("video.mp4.png"), "image/png");
    assert_eq!(content_type("folder.mp4/cover.png"), "image/png");
}

#[test]
fn content_type_does_not_mind_the_case_of_the_extension() {
    assert_eq!(content_type("VIDEO.MP4"), "video/mp4");
}

#[test]
fn content_type_of_an_unrecognised_extension_is_the_generic_binary_type() {
    assert_eq!(content_type("file.no-such-extension"), "application/octet-stream");
}

#[test]
fn content_type_of_a_missing_extension_is_the_generic_binary_type() {
    assert_eq!(content_type("README"), "application/octet-stream");
    assert_eq!(content_type("media/README"), "application/octet-stream");
    assert_eq!(content_type(""), "application/octet-stream");
    assert_eq!(content_type("folder.mp4/README"), "application/octet-stream");
}

#[test]
fn content_type_is_written_in_lower_case() {
    assert_eq!(
        content_type("report.docm"),
        "application/vnd.ms-word.document.macroenabled.12"
    );
}

#[test]
fn content_type_or_octet_stream_keeps_a_guess() {
    assert_eq!(content_type_or_octet_stream(Some("video/mp4".to_string())), "video/mp4");
    assert_eq!(content_type_or_octet_stream(Some(String::new())), "");
}

#[test]
fn content_type_or_octet_stream_without_a_guess() {
    assert_eq!(content_type_or_octet_stream(None), "application/octet-stream");
}
