use bcp::album_page::{
    album_detail_from_tralbum, album_page_detail, extract_data_tralbum, track_from_info,
    AlbumPageError, TrackInfo, TralbumCurrent, TralbumData,
};
use bcp::json::{parse_json, Json};

fn make_tralbum_html(json: &str) -> String {
    let encoded = json
        .replace('&', "&amp;")
        .replace('"', "&quot;")
        .replace('<', "&lt;")
        .replace('>', "&gt;")
        .replace('\'', "&#39;");
    format!(
        r#"<html><body><div data-tralbum="{}"></div></body></html>"#,
        encoded
    )
}

fn info(title: &str, num: u32, ms: u64, mp3: Option<&str>) -> TrackInfo {
    TrackInfo {
        title: Some(title.to_string()),
        track_num: Some(num),
        duration_ms: Some(ms),
        file: mp3.map(|u| vec![("mp3-128".to_string(), u.to_string())]),
    }
}

fn current(about: Option<&str>, credits: Option<&str>, date: Option<&str>) -> Option<TralbumCurrent> {
    Some(TralbumCurrent {
        about: about.map(|s| s.to_string()),
        credits: credits.map(|s| s.to_string()),
        release_date: date.map(|s| s.to_string()),
    })
}

#[test]
fn parse_album_with_tracks() {
    let json = r#"{"trackinfo":[{"title":"Song One","track_num":1,"duration":200.5,"file":{"mp3-128":"https://example.com/track1.mp3"}},{"title":"Song Two","track_num":2,"duration":180.0,"file":{"mp3-128":"https://example.com/track2.mp3"}}],"current":{"about":"An album about things","credits":"Written by someone","release_date":"01 Jan 2025 00:00:00 GMT"}}"#;
    let html = make_tralbum_html(json);
    assert_eq!(extract_data_tralbum(&html).as_deref(), Some(json));
    let records = TralbumData {
        trackinfo: Some(vec![
            info("Song One", 1, 200500, Some("https://example.com/track1.mp3")),
            info("Song Two", 2, 180000, Some("https://example.com/track2.mp3")),
        ]),
        current: current(Some("An album about things"), Some("Written by someone"), Some("01 Jan 2025 00:00:00 GMT")),
    };
    let detail = album_page_detail(Some(Some(records))).unwrap();

    assert_eq!(detail.tracks.len(), 2);
    assert_eq!(detail.tracks[0].title, "Song One");
    assert_eq!(detail.tracks[0].track_num, 1);
    assert!((detail.tracks[0].duration_ms as f64 / 1000.0 - 200.5).abs() < 0.01);
    assert_eq!(
        detail.tracks[0].stream_url.as_deref(),
        Some("https://example.com/track1.mp3")
    );
    assert_eq!(detail.about.as_deref(), Some("An album about things"));
    assert_eq!(detail.credits.as_deref(), Some("Written by someone"));
    assert!(detail.release_date.is_some());
}

#[test]
fn parse_album_no_tracks() {
    let json = r#"{"trackinfo":[],"current":null}"#;
    let html = make_tralbum_html(json);
    assert_eq!(extract_data_tralbum(&html).as_deref(), Some(json));
    let detail = album_page_detail(Some(Some(TralbumData { trackinfo: Some(vec![]), current: None }))).unwrap();

    assert!(detail.tracks.is_empty());
    assert!(detail.about.is_none());
}

#[test]
fn parse_missing_tralbum_fails() {
    let html = "<html><body><div>no data here</div></body></html>";
    let attribute = extract_data_tralbum(html).map(|_| None);
    assert!(album_page_detail(attribute).is_err());
}

#[test]
fn parse_html_entities_in_json() {
    let json = r#"{"trackinfo":[{"title":"Rock & Roll","track_num":1,"duration":120.0,"file":null}],"current":{"about":"It's a <great> album","credits":null,"release_date":null}}"#;
    let html = make_tralbum_html(json);
    assert_eq!(extract_data_tralbum(&html).as_deref(), Some(json));
    let records = TralbumData {
        trackinfo: Some(vec![info("Rock & Roll", 1, 120000, None)]),
        current: current(Some("It's a <great> album"), None, None),
    };
    let detail = album_page_detail(Some(Some(records))).unwrap();

    assert_eq!(detail.tracks[0].title, "Rock & Roll");
    assert_eq!(detail.about.as_deref(), Some("It's a <great> album"));
}

#[test]
fn errors_of_an_album_page() {
    assert_eq!(album_page_detail(None).err(), Some(AlbumPageError::NoTrackData));
    assert_eq!(album_page_detail(Some(None)).err(), Some(AlbumPageError::BadTrackData));
    assert_eq!(AlbumPageError::NoTrackData.message(), "Could not find track data on album page");
    assert_eq!(AlbumPageError::BadTrackData.message(), "Failed to parse tralbum data");
}

#[test]
fn unclosed_attribute_is_no_track_data() {
    assert_eq!(extract_data_tralbum("<div data-tralbum=\"{&quot;trackinfo&quot;:[]}"), None);
}

#[test]
fn missing_fields_take_defaults() {
    let t = track_from_info(&TrackInfo { title: None, track_num: None, duration_ms: None, file: None });
    assert_eq!(t.title, "Untitled");
    assert_eq!(t.track_num, 0);
    assert_eq!(t.duration_ms, 0);
    assert!(t.stream_url.is_none());
    let d = album_detail_from_tralbum(&TralbumData { trackinfo: None, current: None });
    assert!(d.tracks.is_empty());
    assert!(d.about.is_none() && d.credits.is_none() && d.release_date.is_none());
}

#[test]
fn stream_is_the_mp3_128_file() {
    let files = vec![
        ("flac".to_string(), "f".to_string()),
        ("mp3-128".to_string(), "m".to_string()),
    ];
    let t = track_from_info(&TrackInfo { title: None, track_num: None, duration_ms: None, file: Some(files) });
    assert_eq!(t.stream_url.as_deref(), Some("m"));
    let only_flac = vec![("flac".to_string(), "f".to_string())];
    let t = track_from_info(&TrackInfo { title: None, track_num: None, duration_ms: None, file: Some(only_flac) });
    assert!(t.stream_url.is_none());
}

#[test]
fn extract_decodes_entities_in_order() {
    let html = "<p data-tralbum=\"a&amp;quot;b &lt;c&gt; &#39;d&#39; &quot;e&quot;\" x=\"y\">";
    assert_eq!(
        extract_data_tralbum(html).as_deref(),
        Some("a&quot;b <c> 'd' \"e\"")
    );
    assert_eq!(extract_data_tralbum("no marker"), None);
}

#[test]
fn only_the_first_attribute_is_read() {
    let html = "<a data-tralbum=\"first\"><b data-tralbum=\"second\">";
    assert_eq!(extract_data_tralbum(html).as_deref(), Some("first"));
}

#[test]
fn json_numbers_keep_their_text() {
    let j = parse_json(r#"{"a":[1,2.5,-3,null,true,"s"]}"#).ok().unwrap();
    match j {
        Json::Object(fields) => {
            assert_eq!(fields[0].0, "a");
            match &fields[0].1 {
                Json::Array(items) => {
                    assert!(matches!(&items[0], Json::Number(t) if t == "1"));
                    assert!(matches!(&items[1], Json::Number(t) if t == "2.5"));
                    assert!(matches!(&items[2], Json::Number(t) if t == "-3"));
                    assert!(matches!(&items[3], Json::Null));
                    assert!(matches!(&items[4], Json::Bool(true)));
                    assert!(matches!(&items[5], Json::Str(s) if s == "s"));
                }
                _ => panic!("not an array"),
            }
        }
        _ => panic!("not an object"),
    }
    assert!(parse_json("{").is_err());
}
