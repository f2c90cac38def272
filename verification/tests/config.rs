use bcp::config::{
    cycle_download_format, download_format, format_description, format_extension,
    hq_format_choice, join_path, library_dir, shellexpand, state_file, FormatChoice,
};

#[test]
fn formats_and_extensions() {
    assert_eq!(format_extension("flac"), "flac");
    assert_eq!(format_extension("mp3-320"), "mp3");
    assert_eq!(format_extension("mp3-v0"), "mp3");
    assert_eq!(format_extension("weird"), "flac");
    assert_eq!(format_description("mp3-320"), "MP3 320kbps");
    assert_eq!(format_description("mp3-v0"), "MP3 V0 (VBR)");
    assert_eq!(format_description("nope"), "FLAC (lossless)");
}

#[test]
fn choice_from_config() {
    assert_eq!(FormatChoice::from_config(Some("mp3-v0")).index, 2);
    assert_eq!(FormatChoice::from_config(Some("")).index, 0);
    assert_eq!(FormatChoice::from_config(Some("ogg")).index, 0);
    assert_eq!(FormatChoice::from_config(None).index, 0);
    assert_eq!(download_format(&FormatChoice { index: 1 }), "mp3-320");
}

#[test]
fn cycling_wraps_both_ways() {
    let mut c = FormatChoice { index: 0 };
    assert_eq!(cycle_download_format(&mut c, 1), "mp3-320");
    assert_eq!(cycle_download_format(&mut c, 1), "mp3-v0");
    assert_eq!(cycle_download_format(&mut c, 1), "flac");
    assert_eq!(cycle_download_format(&mut c, -1), "mp3-v0");
    assert_eq!(c.index, 2);
    assert_eq!(cycle_download_format(&mut c, -128), "flac");
}

#[test]
fn cycling_forward_then_back_returns() {
    for i in 0..3 {
        let mut c = FormatChoice { index: i };
        cycle_download_format(&mut c, 1);
        cycle_download_format(&mut c, -1);
        assert_eq!(c.index, i);
    }
}

#[test]
fn paths() {
    assert_eq!(join_path("/a/b", "c"), "/a/b/c");
    assert_eq!(join_path("/a/b/", "c"), "/a/b/c");
    assert_eq!(state_file("/cache"), "/cache/state.json");
    assert_eq!(shellexpand("~/Music/x", Some("/home/u")), "/home/u/Music/x");
    assert_eq!(shellexpand("~/Music/x", None), "~/Music/x");
    assert_eq!(shellexpand("/abs", Some("/home/u")), "/abs");
    assert_eq!(library_dir(Some("~/lib"), Some("/home/u")).as_deref(), Some("/home/u/lib"));
    assert_eq!(library_dir(Some(""), Some("/home/u")).as_deref(), Some("/home/u/Music/bcp"));
    assert_eq!(library_dir(None, Some("/home/u")).as_deref(), Some("/home/u/Music/bcp"));
    assert_eq!(library_dir(None, None), None);
    assert_eq!(library_dir(Some("/x"), None).as_deref(), Some("/x"));
}

#[test]
fn hq_format_prefers_the_configured_one() {
    let offered = vec![
        ("mp3-v0".to_string(), "v0-url".to_string()),
        ("mp3-320".to_string(), "320-url".to_string()),
    ];
    assert_eq!(
        hq_format_choice(&offered, "mp3-v0"),
        Some(("v0-url".to_string(), "mp3-v0".to_string()))
    );
    assert_eq!(
        hq_format_choice(&offered, "flac"),
        Some(("320-url".to_string(), "mp3-320".to_string()))
    );
    assert_eq!(hq_format_choice(&[], "flac"), None);
}
