//! Album pages: the track data that a Bandcamp album page carries, HTML
//! encoded, in its `data-tralbum` attribute, and what the player keeps of it.
//!
//! The attribute holds a JSON document; the program reads it into the
//! records below (`TralbumData`) with `serde`, and the library makes the
//! album's tracks and texts of them.
use vstd::prelude::*;
use crate::models::{Track, TrackView, opt_str_view, pairs_view};
use crate::text::{
    chars_of, string_of, slice_range, find, find_spec, occurs_at, replace_all, replace_spec,
    str_eq, lemma_replace_absent,
};

verus! {

// ---------------------------------------------------------------------------
// Locating the attribute
// ---------------------------------------------------------------------------

/// What opens the attribute: `data-tralbum="`.
pub open spec fn tralbum_marker() -> Seq<char> {
    "data-tralbum=\""@
}

/// Decodes the HTML entities of an attribute value, in this order:
/// `&quot;`, `&amp;`, `&lt;`, `&gt;`, `&#39;`.
pub open spec fn decode_entities(s: Seq<char>) -> Seq<char> {
    let s1 = replace_spec(s, "&quot;"@, "\""@);
    let s2 = replace_spec(s1, "&amp;"@, "&"@);
    let s3 = replace_spec(s2, "&lt;"@, "<"@);
    let s4 = replace_spec(s3, "&gt;"@, ">"@);
    replace_spec(s4, "&#39;"@, "'"@)
}

/// An attribute value without `&` holds no entity: decoding leaves it as
/// it is.
pub proof fn law_plain_value_decodes_to_itself(s: Seq<char>)
    requires
        forall|i: int| 0 <= i < s.len() ==> s[i] != '&',
    ensures
        decode_entities(s) == s,
{
    reveal_strlit("&quot;");
    reveal_strlit("&amp;");
    reveal_strlit("&lt;");
    reveal_strlit("&gt;");
    reveal_strlit("&#39;");
    lemma_replace_absent(s, "&quot;"@, "\""@);
    lemma_replace_absent(s, "&amp;"@, "&"@);
    lemma_replace_absent(s, "&lt;"@, "<"@);
    lemma_replace_absent(s, "&gt;"@, ">"@);
    lemma_replace_absent(s, "&#39;"@, "'"@);
}

/// The decoded value of the first `data-tralbum` attribute of a page: the
/// text from the marker up to the next `"`; `None` when there is no marker
/// or no closing quote.
pub open spec fn tralbum_text(html: Seq<char>) -> Option<Seq<char>> {
    match find_spec(html, tralbum_marker()) {
        None => None,
        Some(i) => {
            let rest = html.skip(i + tralbum_marker().len());
            match find_spec(rest, seq!['"']) {
                None => None,
                Some(e) => Some(decode_entities(rest.take(e))),
            }
        },
    }
}

/// Replaces one entity by its character.
fn decode_one(s: Vec<char>, entity: &str, c: &str) -> (r: Vec<char>)
    requires
        entity@.len() > 0,
    ensures
        r@ == replace_spec(s@, entity@, c@),
{
    let pat = chars_of(entity);
    let rep = chars_of(c);
    replace_all(s.as_slice(), pat.as_slice(), rep.as_slice())
}

/// Decodes the HTML entities of an attribute value.
pub fn decode_entities_exec(s: Vec<char>) -> (r: Vec<char>)
    ensures
        r@ == decode_entities(s@),
{
    proof {
        reveal_strlit("&quot;");
        reveal_strlit("&amp;");
        reveal_strlit("&lt;");
        reveal_strlit("&gt;");
        reveal_strlit("&#39;");
    }
    let s1 = decode_one(s, "&quot;", "\"");
    let s2 = decode_one(s1, "&amp;", "&");
    let s3 = decode_one(s2, "&lt;", "<");
    let s4 = decode_one(s3, "&gt;", ">");
    decode_one(s4, "&#39;", "'")
}

/// Finds the `data-tralbum` attribute of an album page and decodes it.
pub fn extract_data_tralbum(html: &str) -> (r: Option<String>)
    ensures
        match r {
            Some(t) => tralbum_text(html@) == Some(t@),
            None => tralbum_text(html@) is None,
        },
{
    let h = chars_of(html);
    let marker = chars_of("data-tralbum=\"");
    let i = match find(h.as_slice(), marker.as_slice()) {
        Some(i) => i,
        None => return None,
    };
    assert(occurs_at(h@, marker@, i as int));
    let hl = h.len();
    assert(i + marker@.len() <= hl);
    let start = i + marker.len();
    let rest = slice_range(h.as_slice(), start, h.len());
    assert(rest@ =~= h@.skip(start as int));
    let mut quote: Vec<char> = Vec::new();
    quote.push('"');
    assert(quote@ =~= seq!['"']);
    let e = match find(rest.as_slice(), quote.as_slice()) {
        Some(e) => e,
        None => return None,
    };
    assert(occurs_at(rest@, quote@, e as int));
    let encoded = slice_range(rest.as_slice(), 0, e);
    assert(encoded@ =~= rest@.take(e as int));
    let decoded = decode_entities_exec(encoded);
    Some(string_of(decoded.as_slice()))
}

// ---------------------------------------------------------------------------
// The records of the attribute
// ---------------------------------------------------------------------------

/// One entry of `trackinfo`. A duration is held in whole milliseconds.
pub struct TrackInfo {
    pub title: Option<String>,
    pub track_num: Option<u32>,
    pub duration_ms: Option<u64>,
    pub file: Option<Vec<(String, String)>>,
}

/// The `current` record: the album's texts.
pub struct TralbumCurrent {
    pub about: Option<String>,
    pub credits: Option<String>,
    pub release_date: Option<String>,
}

/// The attribute's document.
pub struct TralbumData {
    pub trackinfo: Option<Vec<TrackInfo>>,
    pub current: Option<TralbumCurrent>,
}

/// Model of a `TrackInfo`.
pub struct TrackInfoView {
    pub title: Option<Seq<char>>,
    pub track_num: Option<u32>,
    pub duration_ms: Option<u64>,
    pub file: Option<Seq<(Seq<char>, Seq<char>)>>,
}

/// Model of a `TralbumCurrent`.
pub struct TralbumCurrentView {
    pub about: Option<Seq<char>>,
    pub credits: Option<Seq<char>>,
    pub release_date: Option<Seq<char>>,
}

/// Model of a `TralbumData`.
pub struct TralbumDataView {
    pub trackinfo: Option<Seq<TrackInfoView>>,
    pub current: Option<TralbumCurrentView>,
}

impl View for TrackInfo {
    type V = TrackInfoView;

    open spec fn view(&self) -> TrackInfoView {
        TrackInfoView {
            title: opt_str_view(self.title),
            track_num: self.track_num,
            duration_ms: self.duration_ms,
            file: match self.file {
                Some(f) => Some(pairs_view(f@)),
                None => None,
            },
        }
    }
}

impl View for TralbumCurrent {
    type V = TralbumCurrentView;

    open spec fn view(&self) -> TralbumCurrentView {
        TralbumCurrentView {
            about: opt_str_view(self.about),
            credits: opt_str_view(self.credits),
            release_date: opt_str_view(self.release_date),
        }
    }
}

/// The models of a list of track entries.
pub open spec fn track_infos_view(s: Seq<TrackInfo>) -> Seq<TrackInfoView> {
    s.map_values(|t: TrackInfo| t@)
}

impl View for TralbumData {
    type V = TralbumDataView;

    open spec fn view(&self) -> TralbumDataView {
        TralbumDataView {
            trackinfo: match self.trackinfo {
                Some(v) => Some(track_infos_view(v@)),
                None => None,
            },
            current: match self.current {
                Some(c) => Some(c@),
                None => None,
            },
        }
    }
}

// ---------------------------------------------------------------------------
// What the player keeps of an album page
// ---------------------------------------------------------------------------

/// The tracks and texts of an album page.
pub struct AlbumDetail {
    pub tracks: Vec<Track>,
    pub about: Option<String>,
    pub credits: Option<String>,
    pub release_date: Option<String>,
}

/// Model of an `AlbumDetail`.
pub struct AlbumDetailView {
    pub tracks: Seq<TrackView>,
    pub about: Option<Seq<char>>,
    pub credits: Option<Seq<char>>,
    pub release_date: Option<Seq<char>>,
}

/// The models of a track list.
pub open spec fn tracks_view(s: Seq<Track>) -> Seq<TrackView> {
    s.map_values(|t: Track| t@)
}

impl View for AlbumDetail {
    type V = AlbumDetailView;

    open spec fn view(&self) -> AlbumDetailView {
        AlbumDetailView {
            tracks: tracks_view(self.tracks@),
            about: opt_str_view(self.about),
            credits: opt_str_view(self.credits),
            release_date: opt_str_view(self.release_date),
        }
    }
}

/// The value that a map built from the pairs, in order, holds for `key`:
/// that of the last pair with that key.
pub open spec fn lookup_last(p: Seq<(Seq<char>, Seq<char>)>, key: Seq<char>) -> Option<Seq<char>>
    decreases p.len(),
{
    if p.len() == 0 {
        None
    } else if p.last().0 == key {
        Some(p.last().1)
    } else {
        lookup_last(p.drop_last(), key)
    }
}

/// A track from its entry: a missing title reads `Untitled`, a missing
/// number or duration zero, and the stream is the `mp3-128` file.
pub open spec fn track_of_info(t: TrackInfoView) -> TrackView {
    TrackView {
        title: match t.title {
            Some(s) => s,
            None => "Untitled"@,
        },
        track_num: match t.track_num {
            Some(n) => n,
            None => 0,
        },
        duration_ms: match t.duration_ms {
            Some(d) => d,
            None => 0,
        },
        stream_url: match t.file {
            Some(f) => lookup_last(f, "mp3-128"@),
            None => None,
        },
    }
}

/// The detail of an album from the attribute's document: no `trackinfo`
/// gives no tracks, no `current` no texts.
pub open spec fn detail_of(d: TralbumDataView) -> AlbumDetailView {
    AlbumDetailView {
        tracks: match d.trackinfo {
            Some(ts) => ts.map_values(|t: TrackInfoView| track_of_info(t)),
            None => seq![],
        },
        about: match d.current {
            Some(c) => c.about,
            None => None,
        },
        credits: match d.current {
            Some(c) => c.credits,
            None => None,
        },
        release_date: match d.current {
            Some(c) => c.release_date,
            None => None,
        },
    }
}

/// The `mp3-128` stream of a track's files.
fn stream_of(files: &Vec<(String, String)>) -> (r: Option<String>)
    ensures
        opt_str_view(r) == lookup_last(pairs_view(files@), "mp3-128"@),
{
    let key = "mp3-128";
    let ghost pv = pairs_view(files@);
    let mut i: usize = files.len();
    assert(pv.take(i as int) =~= pv);
    while i > 0
        invariant
            i <= files@.len(),
            pv == pairs_view(files@),
            pv.len() == files@.len(),
            key@ == "mp3-128"@,
            lookup_last(pv, key@) == lookup_last(pv.take(i as int), key@),
        decreases i,
    {
        let ghost t = pv.take(i as int);
        assert(t.drop_last() =~= pv.take(i - 1));
        assert(t.last() == pv[i - 1]);
        assert(pv[i - 1] == (files@[i - 1].0@, files@[i - 1].1@));
        if str_eq(files[i - 1].0.as_str(), key) {
            assert(lookup_last(t, key@) == Some(files@[i - 1].1@));
            return Some(files[i - 1].1.clone());
        }
        i -= 1;
    }
    None
}

/// A copy of an optional string.
fn copy_opt(o: &Option<String>) -> (r: Option<String>)
    ensures
        opt_str_view(r) == opt_str_view(*o),
{
    match o {
        Some(s) => Some(s.clone()),
        None => None,
    }
}

/// The track that an entry describes.
pub fn track_from_info(t: &TrackInfo) -> (r: Track)
    ensures
        r@ == track_of_info(t@),
{
    let title = match &t.title {
        Some(s) => s.clone(),
        None => "Untitled".to_owned(),
    };
    let stream_url = match &t.file {
        Some(f) => stream_of(f),
        None => None,
    };
    Track {
        title,
        track_num: match t.track_num {
            Some(n) => n,
            None => 0,
        },
        duration_ms: match t.duration_ms {
            Some(d) => d,
            None => 0,
        },
        stream_url,
    }
}

/// The detail of an album from the attribute's records.
pub fn album_detail_from_tralbum(data: &TralbumData) -> (r: AlbumDetail)
    ensures
        r@ == detail_of(data@),
{
    let mut tracks: Vec<Track> = Vec::new();
    match &data.trackinfo {
        Some(infos) => {
            let ghost iv = track_infos_view(infos@);
            let mut i: usize = 0;
            while i < infos.len()
                invariant
                    i <= infos@.len(),
                    iv == track_infos_view(infos@),
                    tracks_view(tracks@) == iv.take(i as int).map_values(|t: TrackInfoView| track_of_info(t)),
                decreases infos@.len() - i,
            {
                let ghost before = tracks@;
                let t = track_from_info(&infos[i]);
                let ghost tv = t@;
                tracks.push(t);
                proof {
                    let f = |t: TrackInfoView| track_of_info(t);
                    assert(iv[i as int] == infos@[i as int]@);
                    assert(tv == track_of_info(iv[i as int]));
                    assert(tracks_view(tracks@) =~= tracks_view(before).push(tv));
                    assert(iv.take(i + 1).map_values(f) =~= iv.take(i as int).map_values(f).push(f(iv[i as int])));
                }
                i += 1;
            }
            assert(iv.take(i as int) =~= iv);
        },
        None => {
            assert(tracks_view(tracks@) =~= seq![]);
        },
    }
    let (about, credits, release_date) = match &data.current {
        Some(c) => (copy_opt(&c.about), copy_opt(&c.credits), copy_opt(&c.release_date)),
        None => (None, None, None),
    };
    AlbumDetail { tracks, about, credits, release_date }
}

/// Why an album page could not be read.
#[derive(PartialEq, Eq, Structural, Clone, Copy, Debug)]
pub enum AlbumPageError {
    /// The page has no `data-tralbum` attribute.
    NoTrackData,
    /// The attribute is not JSON, or not the records that it should hold.
    BadTrackData,
}

impl AlbumPageError {
    /// The message shown for the error.
    pub fn message(&self) -> (r: &'static str)
        ensures
            r@ == match *self {
                AlbumPageError::NoTrackData => "Could not find track data on album page"@,
                AlbumPageError::BadTrackData => "Failed to parse tralbum data"@,
            },
    {
        match self {
            AlbumPageError::NoTrackData => "Could not find track data on album page",
            AlbumPageError::BadTrackData => "Failed to parse tralbum data",
        }
    }
}

/// The result of reading an album page once the program has read the
/// attribute's document into its records: `attribute` is `None` when the
/// page has no `data-tralbum` attribute (`extract_data_tralbum` gives none),
/// and `Some(None)` when the document does not read as the records (the
/// derived `serde` read refuses a document that is not JSON, a field of the
/// wrong type, and an object that repeats a field).
pub fn album_page_detail(attribute: Option<Option<TralbumData>>) -> (r: Result<AlbumDetail, AlbumPageError>)
    ensures
        match attribute {
            None => r == Err::<AlbumDetail, AlbumPageError>(AlbumPageError::NoTrackData),
            Some(None) => r == Err::<AlbumDetail, AlbumPageError>(AlbumPageError::BadTrackData),
            Some(Some(d)) => r matches Ok(x) && x@ == detail_of(d@),
        },
{
    match attribute {
        None => Err(AlbumPageError::NoTrackData),
        Some(None) => Err(AlbumPageError::BadTrackData),
        Some(Some(d)) => Ok(album_detail_from_tralbum(&d)),
    }
}

} // verus!
