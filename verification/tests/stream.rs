use ruststream::stream::candidate_path;
use ruststream::stream::name_leaves_root;
use ruststream::stream::open_for_streaming;
use ruststream::stream::stream_from;
use ruststream::stream::StreamError;

fn under(root: &str, name: &str) -> String {
    format!("{}{}{}", root, std::path::MAIN_SEPARATOR, name)
}

#[test]
fn candidate_path_adjoins_the_name_to_the_root() {
    assert_eq!(candidate_path("media", "video.mp4"), Some(under("media", "video.mp4")));
    assert_ne!(candidate_path("media", "video.mp4"), Some("media".to_string()));
    assert_ne!(candidate_path("media", "video.mp4"), Some("video.mp4".to_string()));
}

#[test]
fn candidate_path_adds_no_second_separator() {
    let root = format!("media{}", std::path::MAIN_SEPARATOR);
    assert_eq!(candidate_path(&root, "video.mp4"), Some(under("media", "video.mp4")));
}

#[test]
fn candidate_path_takes_a_name_in_a_folder_below() {
    assert_eq!(candidate_path("media", "shows/s01/e01.mkv"), Some(under("media", "shows/s01/e01.mkv")));
    assert_eq!(candidate_path("../media", "a.mp4"), Some(under("../media", "a.mp4")));
}

#[test]
fn candidate_path_of_an_empty_root_is_the_name() {
    assert_eq!(candidate_path("", "video.mp4"), Some("video.mp4".to_string()));
}

#[test]
fn candidate_path_gives_none_for_a_name_that_steps_to_a_parent() {
    assert_eq!(candidate_path("/m", "../etc/passwd"), None);
    assert_eq!(candidate_path("media", "../secret.txt"), None);
    assert_eq!(candidate_path("media", "a/../b.mp4"), None);
    assert_eq!(candidate_path("media", "a/.."), None);
    assert_eq!(candidate_path("media", ".."), None);
}

#[test]
fn candidate_path_gives_none_for_a_name_with_a_root_of_its_own() {
    assert_eq!(candidate_path("/m", "/etc/passwd"), None);
    assert_eq!(candidate_path("/m", "/"), None);
    assert_eq!(candidate_path("m", "\\server\\share\\x"), None);
    assert_eq!(candidate_path("m", "C:\\Windows\\win.ini"), None);
    assert_eq!(candidate_path("m", "c:boot.ini"), None);
}

#[test]
fn name_leaves_root_on_a_parent_component() {
    assert!(name_leaves_root(".."));
    assert!(name_leaves_root("../x"));
    assert!(name_leaves_root("x/.."));
    assert!(name_leaves_root("x/../y"));
    assert!(name_leaves_root("x\\..\\y"));
    assert!(name_leaves_root("x/..\\y"));
    assert!(name_leaves_root("./../y"));
    assert!(name_leaves_root("été/../x"));
}

#[test]
fn name_leaves_root_on_a_root_of_its_own() {
    assert!(name_leaves_root("/"));
    assert!(name_leaves_root("/etc/passwd"));
    assert!(name_leaves_root("\\x"));
    assert!(name_leaves_root("C:"));
    assert!(name_leaves_root("C:\\x"));
    assert!(name_leaves_root("z:x"));
}

#[test]
fn name_leaves_root_not_on_dots_within_a_name() {
    assert!(!name_leaves_root(""));
    assert!(!name_leaves_root("."));
    assert!(!name_leaves_root("video.mp4"));
    assert!(!name_leaves_root("..."));
    assert!(!name_leaves_root("..hidden"));
    assert!(!name_leaves_root("trailing.."));
    assert!(!name_leaves_root("a..b"));
    assert!(!name_leaves_root("a/..b/c"));
    assert!(!name_leaves_root("a/b../c"));
    assert!(!name_leaves_root("./a"));
    assert!(!name_leaves_root("a/./b"));
    assert!(!name_leaves_root("shows/s01/e01.mkv"));
    assert!(!name_leaves_root("1:23.mp4"));
}

#[test]
fn stream_from_a_missing_file_is_not_found() {
    assert_eq!(stream_from("media/video.mp4", false, false), Err(StreamError::NotFound));
}

#[test]
fn stream_from_a_missing_file_is_never_an_open_error() {
    assert_eq!(stream_from("media/video.mp4", false, true), Err(StreamError::NotFound));
    assert_eq!(stream_from("", false, true), Err(StreamError::NotFound));
}

#[test]
fn stream_from_a_file_that_does_not_open_is_an_open_error() {
    assert_eq!(stream_from("media/video.mp4", true, false), Err(StreamError::OpenError));
}

#[test]
fn stream_from_an_opened_file_gives_its_content_type() {
    assert_eq!(stream_from("media/video.mp4", true, true), Ok("video/mp4".to_string()));
    assert_eq!(
        stream_from("media/blob", true, true),
        Ok("application/octet-stream".to_string())
    );
}

#[test]
fn open_for_streaming_a_missing_file_is_not_found() {
    assert_eq!(open_for_streaming("media", "absent.mp4", false, false), Err(StreamError::NotFound));
    assert_eq!(open_for_streaming("media", "absent.mp4", false, true), Err(StreamError::NotFound));
}

#[test]
fn open_for_streaming_a_file_that_does_not_open_is_an_open_error() {
    assert_eq!(open_for_streaming("media", "locked.mp4", true, false), Err(StreamError::OpenError));
}

#[test]
fn open_for_streaming_infers_the_content_type_from_the_name() {
    assert_eq!(open_for_streaming("media", "video.mp4", true, true), Ok("video/mp4".to_string()));
    assert_eq!(
        open_for_streaming("media.mp4", "README", true, true),
        Ok("application/octet-stream".to_string())
    );
    assert_eq!(
        open_for_streaming("media", "song.unheard-of", true, true),
        Ok("application/octet-stream".to_string())
    );
}

#[test]
fn open_for_streaming_never_streams_a_name_that_leaves_the_folder() {
    for name in ["../etc/passwd", "/etc/passwd", "a/../../x", "..", "C:\\x"] {
        for exists in [false, true] {
            for opened in [false, true] {
                assert_eq!(
                    open_for_streaming("/m", name, exists, opened),
                    Err(StreamError::NotFound),
                    "{}",
                    name
                );
            }
        }
    }
}
