//! The records of a Bandcamp collection: albums, tracks and the login data.
//!
//! Durations are held in whole milliseconds (`duration_ms`). The program
//! turns the seconds that Bandcamp and the saved files give into them.
use vstd::prelude::*;

verus! {

/// One track of an album.
pub struct Track {
    pub title: String,
    pub track_num: u32,
    pub duration_ms: u64,
    pub stream_url: Option<String>,
}

/// The model of a track: its strings taken by their characters.
pub struct TrackView {
    pub title: Seq<char>,
    pub track_num: u32,
    pub duration_ms: u64,
    pub stream_url: Option<Seq<char>>,
}

/// The characters of a list of string pairs.
pub open spec fn pairs_view(s: Seq<(String, String)>) -> Seq<(Seq<char>, Seq<char>)> {
    s.map_values(|p: (String, String)| (p.0@, p.1@))
}

/// The characters of an optional string.
pub open spec fn opt_str_view(o: Option<String>) -> Option<Seq<char>> {
    match o {
        Some(s) => Some(s@),
        None => None,
    }
}

impl View for Track {
    type V = TrackView;

    open spec fn view(&self) -> TrackView {
        TrackView {
            title: self.title@,
            track_num: self.track_num,
            duration_ms: self.duration_ms,
            stream_url: opt_str_view(self.stream_url),
        }
    }
}

/// One album of the collection.
pub struct Album {
    pub item_id: u64,
    pub album_title: String,
    pub artist_name: String,
    pub item_url: String,
    pub art_url: Option<String>,
    pub date_added: Option<String>,
    pub tracks: Vec<Track>,
    pub about: Option<String>,
    pub credits: Option<String>,
    pub release_date: Option<String>,
    pub sale_item_id: Option<u64>,
}

/// The stored login: the `identity` cookie and what was learnt from it.
pub struct AuthData {
    pub identity_cookie: String,
    pub fan_id: Option<u64>,
    pub username: Option<String>,
}

/// A copy of an optional string.
pub fn copy_opt_string(o: &Option<String>) -> (r: Option<String>)
    ensures
        r == *o,
{
    match o {
        Some(s) => Some(s.clone()),
        None => None,
    }
}

impl Clone for Track {
    fn clone(&self) -> (r: Self)
        ensures
            r == *self,
    {
        Track {
            title: self.title.clone(),
            track_num: self.track_num,
            duration_ms: self.duration_ms,
            stream_url: copy_opt_string(&self.stream_url),
        }
    }
}

/// A copy of a track list.
pub fn copy_tracks(v: &Vec<Track>) -> (r: Vec<Track>)
    ensures
        r@ == v@,
{
    let mut r: Vec<Track> = Vec::new();
    let mut i: usize = 0;
    while i < v.len()
        invariant
            i <= v@.len(),
            r@ == v@.take(i as int),
        decreases v@.len() - i,
    {
        r.push(v[i].clone());
        i += 1;
        assert(r@ =~= v@.take(i as int));
    }
    assert(v@.take(i as int) =~= v@);
    r
}

impl Album {
    /// Field-by-field equality, the track lists compared by their contents.
    pub open spec fn same(self, o: Album) -> bool {
        &&& self.item_id == o.item_id
        &&& self.album_title == o.album_title
        &&& self.artist_name == o.artist_name
        &&& self.item_url == o.item_url
        &&& self.art_url == o.art_url
        &&& self.date_added == o.date_added
        &&& self.tracks@ == o.tracks@
        &&& self.about == o.about
        &&& self.credits == o.credits
        &&& self.release_date == o.release_date
        &&& self.sale_item_id == o.sale_item_id
    }
}

impl Clone for Album {
    fn clone(&self) -> (r: Self)
        ensures
            r.same(*self),
    {
        Album {
            item_id: self.item_id,
            album_title: self.album_title.clone(),
            artist_name: self.artist_name.clone(),
            item_url: self.item_url.clone(),
            art_url: copy_opt_string(&self.art_url),
            date_added: copy_opt_string(&self.date_added),
            tracks: copy_tracks(&self.tracks),
            about: copy_opt_string(&self.about),
            credits: copy_opt_string(&self.credits),
            release_date: copy_opt_string(&self.release_date),
            sale_item_id: self.sale_item_id,
        }
    }
}

impl Clone for AuthData {
    fn clone(&self) -> (r: Self)
        ensures
            r == *self,
    {
        AuthData {
            identity_cookie: self.identity_cookie.clone(),
            fan_id: self.fan_id,
            username: copy_opt_string(&self.username),
        }
    }
}

} // verus!
