//! Discovery: the extension allow-list, path splitting, and the glob
//! patterns one run enumerates.
use wavebatch::discovery::glob_patterns;
use wavebatch::discovery::is_audio_path;
use wavebatch::discovery::record_for;
use wavebatch::discovery::select_audio;
use wavebatch::discovery::split_path;

fn strings(items: &[&str]) -> Vec<String> {
    items.iter().map(|s| s.to_string()).collect()
}

#[test]
fn discovery_keeps_exactly_the_allow_listed() {
    let paths = strings(&[
        "root/a.mp3",
        "root/notes.txt",
        "root/sub/b.flac",
        "root/cover.png",
        "root/c.ogg",
    ]);
    let records = select_audio(&paths);
    assert_eq!(records.len(), 3);
    assert_eq!(records[0].path, "root/a.mp3");
    assert_eq!(records[1].path, "root/sub/b.flac");
    assert_eq!(records[2].path, "root/c.ogg");
}

#[test]
fn discovery_matches_every_allowed_extension() {
    let paths = strings(&[
        "d/1.aif", "d/2.aiff", "d/3.mp3", "d/4.flac", "d/5.ogg", "d/6.aac", "d/7.m4a", "d/8.wma",
    ]);
    assert_eq!(select_audio(&paths).len(), 8);
}

#[test]
fn discovery_is_case_sensitive() {
    assert!(!is_audio_path("x.MP3"));
    assert!(!is_audio_path("x.Mp3"));
    assert!(is_audio_path("x.mp3"));
    assert!(select_audio(&strings(&["root/x.MP3"])).is_empty());
}

#[test]
fn discovery_needs_the_dot() {
    assert!(!is_audio_path("xmp3"));
    assert!(!is_audio_path("mp3"));
    assert!(is_audio_path(".mp3"));
}

#[test]
fn records_split_directory_and_stem() {
    let records = select_audio(&strings(&["music/inner/track.mp3"]));
    assert_eq!(records[0].directory, "music/inner");
    assert_eq!(records[0].stem, "track");
}

#[test]
fn record_for_bare_file_name() {
    let r = record_for("track.ogg".to_string());
    assert_eq!(r.directory, "");
    assert_eq!(r.stem, "track");
}

#[test]
fn split_keeps_inner_dots_in_the_stem() {
    let (dir, stem) = split_path("a/b/x.tar.mp3");
    assert_eq!(dir, "a/b");
    assert_eq!(stem, "x.tar");
}

#[test]
fn split_keeps_a_leading_dot_name_whole() {
    let (dir, stem) = split_path("a/.mp3");
    assert_eq!(dir, "a");
    assert_eq!(stem, ".mp3");
}

#[test]
fn patterns_cover_the_allow_list_in_order() {
    let pats = glob_patterns("root");
    let expected = vec![
        "root/**/*.aif",
        "root/**/*.aiff",
        "root/**/*.mp3",
        "root/**/*.flac",
        "root/**/*.ogg",
        "root/**/*.aac",
        "root/**/*.m4a",
        "root/**/*.wma",
    ];
    assert_eq!(pats, expected);
}
