use ruststream::extension::extension;

#[test]
fn extension_is_what_follows_the_final_dot() {
    assert_eq!(extension("video.mp4"), "mp4");
    assert_eq!(extension("archive.tar.gz"), "gz");
    assert_eq!(extension("a.b.c.d"), "d");
    assert_eq!(extension(".hidden.txt"), "txt");
}

#[test]
fn extension_is_kept_as_found() {
    assert_eq!(extension("CLIP.MP4"), "MP4");
    assert_eq!(extension("Song.Flac"), "Flac");
}

#[test]
fn extension_is_empty_without_a_dot() {
    assert_eq!(extension("README"), "");
    assert_eq!(extension(""), "");
}

#[test]
fn extension_is_empty_after_a_trailing_dot() {
    assert_eq!(extension("trailing."), "");
    assert_eq!(extension("..."), "");
}

#[test]
fn extension_of_a_name_that_begins_with_its_only_dot_is_the_rest() {
    assert_eq!(extension(".bashrc"), "bashrc");
    assert_eq!(extension(".b"), "b");
    assert_eq!(extension("."), "");
}

#[test]
fn extension_holds_no_dot() {
    let names = ["video.mp4", "archive.tar.gz", ".bashrc", "a..b", "...", ".a.b", "x.", "README"];
    for name in names {
        assert!(!extension(name).contains('.'), "{}", name);
        if name.contains('.') {
            assert!(name.ends_with(&format!(".{}", extension(name))), "{}", name);
        }
    }
}

#[test]
fn extension_counts_characters_not_bytes() {
    assert_eq!(extension("été.mkv"), "mkv");
    assert_eq!(extension("film.données"), "données");
    assert_eq!(extension("日本語.字幕"), "字幕");
}

#[test]
fn extension_agrees_with_the_standard_library_but_for_a_leading_only_dot() {
    let names = [
        "video.mp4", "archive.tar.gz", "README", "trailing.", "a..b", "...", ".a.b", "x.", "",
        "été.mkv",
    ];
    for name in names {
        let expected = std::path::Path::new(name)
            .extension()
            .unwrap_or_default()
            .to_string_lossy()
            .to_string();
        assert_eq!(extension(name), expected, "{}", name);
    }
    assert_eq!(std::path::Path::new(".bashrc").extension(), None);
    assert_eq!(extension(".bashrc"), "bashrc");
}
