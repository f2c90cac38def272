//! The local library: which albums and tracks have been downloaded, and how
//! downloaded files are named.
use vstd::prelude::*;
use std::collections::HashMap;
use crate::config::{FormatChoice, download_format, format_extension, extension_spec, format_key_spec};
use crate::models::{Album, Track, copy_opt_string};
use crate::album_page::AlbumDetail;
use crate::text::{
    lead_ws, trail_ws, is_ws,
    chars_of, string_of, trim, trim_spec, decimal2, decimal2_chars, rfind, rfind_spec,
    starts_with, occurs_at, slice_range, replace_all, replace_spec,
};

verus! {

broadcast use vstd::std_specs::hash::group_hash_axioms;

/// Download state of an album in the library.
#[derive(PartialEq, Eq, Structural, Clone, Copy, Debug)]
pub enum AlbumDownloadStatus {
    Complete,
    Partial,
    Downloading,
}

/// A track of a downloaded album.
pub struct DownloadedTrack {
    pub track_num: u32,
    pub title: String,
    pub file_name: String,
    pub downloaded: bool,
    pub duration_ms: u64,
}

/// An album of the library.
pub struct DownloadedAlbum {
    pub item_id: u64,
    pub album_title: String,
    pub artist_name: String,
    pub tracks: Vec<DownloadedTrack>,
    pub status: AlbumDownloadStatus,
}

/// What a download task reports.
pub enum DownloadEvent {
    Progress { item_id: u64, downloaded: u64, total: Option<u64> },
    TrackDone { item_id: u64, track_num: u32 },
    AlbumDone { item_id: u64 },
    Error { item_id: u64, msg: String },
}

/// The library index, keyed by album id.
pub struct LibraryIndex {
    pub albums: HashMap<u64, DownloadedAlbum>,
}

/// No more tracks are downloaded than there are.
pub proof fn lemma_count_downloaded_le(tracks: Seq<DownloadedTrack>)
    ensures
        count_downloaded(tracks) <= tracks.len(),
    decreases tracks.len(),
{
    if tracks.len() > 0 {
        lemma_count_downloaded_le(tracks.drop_last());
    }
}

/// The position of the first track numbered `n`.
pub open spec fn first_track(tracks: Seq<DownloadedTrack>, n: u32) -> Option<int>
    decreases tracks.len(),
{
    if tracks.len() == 0 {
        None
    } else if tracks[0].track_num == n {
        Some(0)
    } else {
        match first_track(tracks.drop_first(), n) {
            Some(i) => Some(i + 1),
            None => None,
        }
    }
}

/// Number of downloaded tracks.
pub open spec fn count_downloaded(tracks: Seq<DownloadedTrack>) -> nat
    decreases tracks.len(),
{
    if tracks.len() == 0 {
        0
    } else {
        count_downloaded(tracks.drop_last()) + if tracks.last().downloaded { 1nat } else { 0nat }
    }
}

/// The first track with a number lies inside the list and has that number.
pub proof fn lemma_first_track_bounds(tracks: Seq<DownloadedTrack>, n: u32)
    ensures
        first_track(tracks, n) matches Some(i) ==> 0 <= i < tracks.len() && tracks[i].track_num == n,
    decreases tracks.len(),
{
    if tracks.len() > 0 {
        lemma_first_track_bounds(tracks.drop_first(), n);
    }
}

proof fn lemma_first_track_found(tracks: Seq<DownloadedTrack>, n: u32, i: int)
    requires
        0 <= i < tracks.len(),
        tracks[i].track_num == n,
        forall|j: int| 0 <= j < i ==> tracks[j].track_num != n,
    ensures
        first_track(tracks, n) == Some(i),
    decreases i,
{
    if i > 0 {
        lemma_first_track_found(tracks.drop_first(), n, i - 1);
    }
}

proof fn lemma_first_track_none(tracks: Seq<DownloadedTrack>, n: u32)
    requires
        forall|j: int| 0 <= j < tracks.len() ==> tracks[j].track_num != n,
    ensures
        first_track(tracks, n) is None,
    decreases tracks.len(),
{
    if tracks.len() > 0 {
        lemma_first_track_none(tracks.drop_first(), n);
    }
}

/// Finds the first track numbered `n`.
pub fn find_track(tracks: &Vec<DownloadedTrack>, n: u32) -> (r: Option<usize>)
    ensures
        match r {
            Some(i) => first_track(tracks@, n) == Some(i as int) && i < tracks@.len(),
            None => first_track(tracks@, n) is None,
        },
{
    let mut i: usize = 0;
    while i < tracks.len()
        invariant
            i <= tracks@.len(),
            forall|j: int| 0 <= j < i ==> tracks@[j].track_num != n,
        decreases tracks@.len() - i,
    {
        if tracks[i].track_num == n {
            proof {
                lemma_first_track_found(tracks@, n, i as int);
            }
            return Some(i);
        }
        i += 1;
    }
    proof {
        lemma_first_track_none(tracks@, n);
    }
    None
}

/// Where a downloaded track may be found: the album directory, as two path
/// components under the library root, and the file names to try, in order.
pub struct TrackLocation {
    pub artist_dir: String,
    pub album_dir: String,
    pub candidates: Vec<String>,
}

/// The extensions tried, in order, when the stored file name is missing.
pub open spec fn alt_extension(i: int) -> Seq<char> {
    if i == 0 {
        "flac"@
    } else if i == 1 {
        "mp3"@
    } else if i == 2 {
        "wav"@
    } else if i == 3 {
        "aiff"@
    } else if i == 4 {
        "m4a"@
    } else {
        "ogg"@
    }
}

/// A file name without its last extension (`rsplit_once('.')`), or the whole
/// name when it holds no dot.
pub open spec fn file_stem(name: Seq<char>) -> Seq<char> {
    match rfind_spec(name, seq!['.']) {
        Some(p) => name.take(p),
        None => name,
    }
}

/// The file names tried for a downloaded track: the stored one, then its stem
/// with each alternative extension.
pub open spec fn candidate_names(file_name: Seq<char>) -> Seq<Seq<char>> {
    seq![file_name] + Seq::new(6, |i: int| file_stem(file_name) + seq!['.'] + alt_extension(i))
}

impl LibraryIndex {
    /// An empty library.
    pub fn new() -> (r: Self)
        ensures
            r.albums@ == Map::<u64, DownloadedAlbum>::empty(),
    {
        LibraryIndex { albums: HashMap::new() }
    }

    /// Whether an album is fully downloaded.
    pub fn is_downloaded(&self, item_id: u64) -> (r: bool)
        ensures
            r == (self.albums@.contains_key(item_id) && self.albums@[item_id].status
                == AlbumDownloadStatus::Complete),
    {
        match self.albums.get(&item_id) {
            Some(a) => a.status == AlbumDownloadStatus::Complete,
            None => false,
        }
    }

    /// The download status of an album, if it is in the library.
    pub fn album_status(&self, item_id: u64) -> (r: Option<AlbumDownloadStatus>)
        ensures
            r == if self.albums@.contains_key(item_id) {
                Some(self.albums@[item_id].status)
            } else {
                None
            },
    {
        match self.albums.get(&item_id) {
            Some(a) => Some(a.status),
            None => None,
        }
    }

    /// Whether a track is downloaded: the first track of the album with that
    /// number is marked downloaded.
    pub fn is_track_downloaded(&self, item_id: u64, track_num: u32) -> (r: bool)
        ensures
            r == (self.albums@.contains_key(item_id) && match first_track(
                self.albums@[item_id].tracks@,
                track_num,
            ) {
                Some(i) => self.albums@[item_id].tracks@[i].downloaded,
                None => false,
            }),
    {
        match self.albums.get(&item_id) {
            Some(a) => match find_track(&a.tracks, track_num) {
                Some(i) => a.tracks[i].downloaded,
                None => false,
            },
            None => false,
        }
    }

    /// Download progress as (downloaded, total) track counts.
    pub fn progress(&self, item_id: u64) -> (r: (usize, usize))
        ensures
            r == if self.albums@.contains_key(item_id) {
                (
                    count_downloaded(self.albums@[item_id].tracks@) as usize,
                    self.albums@[item_id].tracks@.len() as usize,
                )
            } else {
                (0usize, 0usize)
            },
    {
        match self.albums.get(&item_id) {
            Some(a) => {
                let mut done: usize = 0;
                let mut i: usize = 0;
                while i < a.tracks.len()
                    invariant
                        i <= a.tracks@.len(),
                        done == count_downloaded(a.tracks@.take(i as int)),
                        done <= i,
                    decreases a.tracks@.len() - i,
                {
                    assert(a.tracks@.take(i + 1).drop_last() =~= a.tracks@.take(i as int));
                    if a.tracks[i].downloaded {
                        done += 1;
                    }
                    i += 1;
                }
                assert(a.tracks@.take(i as int) =~= a.tracks@);
                (done, a.tracks.len())
            },
            None => (0, 0),
        }
    }

    /// Where the file of a downloaded track may be: `None` when the album is
    /// not in the library, the track is not in the album, or it is not marked
    /// downloaded.
    pub fn track_path(&self, item_id: u64, track_num: u32) -> (r: Option<TrackLocation>)
        ensures
            match r {
                None => !self.albums@.contains_key(item_id) || match first_track(
                    self.albums@[item_id].tracks@,
                    track_num,
                ) {
                    Some(i) => !self.albums@[item_id].tracks@[i].downloaded,
                    None => true,
                },
                Some(loc) => self.albums@.contains_key(item_id) && {
                    let a = self.albums@[item_id];
                    &&& first_track(a.tracks@, track_num) matches Some(i)
                    &&& a.tracks@[i].downloaded
                    &&& loc.artist_dir@ == sanitize_spec(a.artist_name@)
                    &&& loc.album_dir@ == sanitize_spec(a.album_title@)
                    &&& loc.candidates@.len() == 7
                    &&& forall|k: int| 0 <= k < 7 ==> #[trigger] loc.candidates@[k]@ == candidate_names(a.tracks@[i].file_name@)[k]
                },
            },
    {
        let album = match self.albums.get(&item_id) {
            Some(a) => a,
            None => return None,
        };
        let i = match find_track(&album.tracks, track_num) {
            Some(i) => i,
            None => return None,
        };
        let track = &album.tracks[i];
        if !track.downloaded {
            return None;
        }
        let candidates = candidate_files(track.file_name.as_str());
        let loc = TrackLocation {
            artist_dir: sanitize_filename(album.artist_name.as_str()),
            album_dir: sanitize_filename(album.album_title.as_str()),
            candidates,
        };
        Some(loc)
    }

    /// Adds or replaces the entry of an album.
    pub fn insert(&mut self, entry: DownloadedAlbum)
        ensures
            final(self).albums@ == old(self).albums@.insert(entry.item_id, entry),
    {
        let id = entry.item_id;
        self.albums.insert(id, entry);
    }

    /// Marks the first track with the given number downloaded (a finished
    /// track download). Nothing changes if the album or track is unknown.
    pub fn mark_track_downloaded(&mut self, item_id: u64, track_num: u32)
        ensures
            old(self).albums@.contains_key(item_id) ==> match first_track(
                old(self).albums@[item_id].tracks@,
                track_num,
            ) {
                Some(i) => {
                    let a = old(self).albums@[item_id];
                    let b = final(self).albums@[item_id];
                    &&& final(self).albums@.dom() == old(self).albums@.dom()
                    &&& forall|k: u64| k != item_id && old(self).albums@.contains_key(k) ==> final(self).albums@[k] == old(self).albums@[k]
                    &&& b.item_id == a.item_id && b.album_title == a.album_title
                    &&& b.artist_name == a.artist_name && b.status == a.status
                    &&& b.tracks@ == a.tracks@.update(i, DownloadedTrack { downloaded: true, ..a.tracks@[i] })
                },
                None => final(self).albums@ == old(self).albums@,
            },
            !old(self).albums@.contains_key(item_id) ==> final(self).albums@ == old(self).albums@,
    {
        let mut album = match self.albums.remove(&item_id) {
            Some(a) => a,
            None => return,
        };
        let ghost removed = self.albums@;
        match find_track(&album.tracks, track_num) {
            Some(i) => {
                let mut t = album.tracks.remove(i);
                t.downloaded = true;
                album.tracks.insert(i, t);
            },
            None => {},
        }
        self.albums.insert(item_id, album);
        proof {
            if first_track(old(self).albums@[item_id].tracks@, track_num) is None {
                assert(final(self).albums@ =~= old(self).albums@);
            }
        }
    }

    /// Marks an album complete (a finished album download) and returns its
    /// artist and title; `None`, and no change, for an unknown album.
    pub fn mark_album_complete(&mut self, item_id: u64) -> (r: Option<(String, String)>)
        ensures
            match r {
                Some((artist, title)) => {
                    let a = old(self).albums@[item_id];
                    &&& old(self).albums@.contains_key(item_id)
                    &&& artist == a.artist_name && title == a.album_title
                    &&& final(self).albums@ == old(self).albums@.insert(item_id, DownloadedAlbum { status: AlbumDownloadStatus::Complete, ..a })
                },
                None => !old(self).albums@.contains_key(item_id) && final(self).albums@ == old(self).albums@,
            },
    {
        let mut album = match self.albums.remove(&item_id) {
            Some(a) => a,
            None => return None,
        };
        album.status = AlbumDownloadStatus::Complete;
        let names = (album.artist_name.clone(), album.album_title.clone());
        self.albums.insert(item_id, album);
        proof {
            assert(final(self).albums@ =~= old(self).albums@.insert(item_id, DownloadedAlbum { status: AlbumDownloadStatus::Complete, ..old(self).albums@[item_id] }));
        }
        Some(names)
    }
}

/// The file names tried for a downloaded track.
pub fn candidate_files(file_name: &str) -> (r: Vec<String>)
    ensures
        r@.len() == 7,
        forall|k: int| 0 <= k < 7 ==> #[trigger] r@[k]@ == candidate_names(file_name@)[k],
{
    let name = chars_of(file_name);
    let dot = ['.'];
    let stem: Vec<char> = match rfind(name.as_slice(), &dot) {
        Some(p) => slice_range(name.as_slice(), 0, p),
        None => slice_range(name.as_slice(), 0, name.len()),
    };
    proof {
        assert(seq!['.'] =~= dot@);
        assert(name@.subrange(0, name@.len() as int) =~= name@);
    }
    let mut candidates: Vec<String> = Vec::new();
    candidates.push(file_name.to_string());
    let mut k: usize = 0;
    while k < 6
        invariant
            k <= 6,
            candidates@.len() == k + 1,
            candidates@[0]@ == file_name@,
            stem@ == file_stem(file_name@),
            forall|j: int| 1 <= j <= k ==> #[trigger] candidates@[j]@ == file_stem(file_name@) + seq!['.'] + alt_extension(j - 1),
        decreases 6 - k,
    {
        let ext = alt_extension_str(k);
        let mut n: Vec<char> = slice_range(stem.as_slice(), 0, stem.len());
        n.push('.');
        let e = chars_of(ext);
        n.extend_from_slice(e.as_slice());
        assert(n@ =~= stem@ + seq!['.'] + alt_extension(k as int));
        candidates.push(string_of(n.as_slice()));
        k += 1;
    }
    assert forall|j: int| 0 <= j < 7 implies #[trigger] candidates@[j]@ == candidate_names(file_name@)[j] by {
        if j >= 1 {
            assert(candidate_names(file_name@)[j] == file_stem(file_name@) + seq!['.'] + alt_extension(j - 1));
        }
    }
    candidates
}

/// The extension at a position of the alternative extension list.
fn alt_extension_str(i: usize) -> (r: &'static str)
    requires
        i < 6,
    ensures
        r@ == alt_extension(i as int),
{
    if i == 0 {
        "flac"
    } else if i == 1 {
        "mp3"
    } else if i == 2 {
        "wav"
    } else if i == 3 {
        "aiff"
    } else if i == 4 {
        "m4a"
    } else {
        "ogg"
    }
}

/// Characters that cannot stand in a file name; each becomes `_`.
pub open spec fn is_path_special(c: char) -> bool {
    c == '/' || c == '\\' || c == ':' || c == '*' || c == '?' || c == '"' || c == '<' || c == '>'
        || c == '|'
}

/// A character as it stands in a sanitized file name.
pub open spec fn sanitize_char(c: char) -> char {
    if is_path_special(c) {
        '_'
    } else {
        c
    }
}

/// A name made safe for the file system: special characters replaced by `_`,
/// then surrounding whitespace trimmed.
pub open spec fn sanitize_spec(name: Seq<char>) -> Seq<char> {
    trim_spec(name.map_values(|c: char| sanitize_char(c)))
}

/// Makes a name safe for use as a file or directory name.
pub fn sanitize_filename(name: &str) -> (r: String)
    ensures
        r@ == sanitize_spec(name@),
{
    let cs = chars_of(name);
    let mut out: Vec<char> = Vec::new();
    let mut i: usize = 0;
    while i < cs.len()
        invariant
            i <= cs@.len(),
            cs@ == name@,
            out@ == cs@.take(i as int).map_values(|c: char| sanitize_char(c)),
        decreases cs@.len() - i,
    {
        let c = cs[i];
        let d = if c == '/' || c == '\\' || c == ':' || c == '*' || c == '?' || c == '"' || c == '<'
            || c == '>' || c == '|' {
            '_'
        } else {
            c
        };
        out.push(d);
        i += 1;
        assert(out@ =~= cs@.take(i as int).map_values(|c: char| sanitize_char(c)));
    }
    assert(cs@.take(i as int) =~= cs@);
    let t = trim(out.as_slice());
    string_of(t.as_slice())
}

/// Makes a name safe for use as a path component.
pub fn sanitize_for_path(name: &str) -> (r: String)
    ensures
        r@ == sanitize_spec(name@),
{
    sanitize_filename(name)
}

/// The file name of a downloaded track: `NN - Title.ext`, the number padded
/// to two digits and the title sanitized.
pub open spec fn track_filename_spec(track_num: u32, title: Seq<char>, ext: Seq<char>) -> Seq<char> {
    decimal2(track_num as nat) + " - "@ + sanitize_spec(title) + seq!['.'] + ext
}

/// The file name under which a track is stored.
pub fn track_filename(track_num: u32, title: &str, ext: &str) -> (r: String)
    ensures
        r@ == track_filename_spec(track_num, title@, ext@),
{
    let mut v = decimal2_chars(track_num as u64);
    v.push(' ');
    v.push('-');
    v.push(' ');
    let s = sanitize_filename(title);
    let sc = chars_of(s.as_str());
    v.extend_from_slice(sc.as_slice());
    v.push('.');
    let e = chars_of(ext);
    v.extend_from_slice(e.as_slice());
    proof {
        reveal_strlit(" - ");
    }
    assert(v@ =~= track_filename_spec(track_num, title@, ext@));
    string_of(v.as_slice())
}

/// The library entry of an album about to be downloaded in the format at
/// `index`: its id, title and artist, each track not downloaded yet under
/// its file name for that format, and the download running.
pub open spec fn entry_for(d: DownloadedAlbumView, album: Album, index: nat) -> bool {
    &&& d.item_id == album.item_id
    &&& d.album_title == album.album_title@
    &&& d.artist_name == album.artist_name@
    &&& d.status == AlbumDownloadStatus::Downloading
    &&& d.tracks.len() == album.tracks@.len()
    &&& forall|i: int| 0 <= i < d.tracks.len() ==> {
        let e = #[trigger] d.tracks[i];
        let t = album.tracks@[i];
        &&& e.track_num == t.track_num
        &&& e.title == t.title
        &&& e.file_name@ == track_filename_spec(t.track_num, t.title@, extension_spec(format_key_spec(index)))
        &&& !e.downloaded
        &&& e.duration_ms == t.duration_ms
    }
}

/// Prepares the library entry for an album that is about to be downloaded.
pub fn prepare_album_entry(album: &Album, choice: &FormatChoice) -> (r: DownloadedAlbum)
    requires
        choice.wf(),
    ensures
        entry_for(r@, *album, choice.index as nat),
{
    let fmt = download_format(choice);
    let ext = format_extension(fmt.as_str());
    let mut tracks: Vec<DownloadedTrack> = Vec::new();
    let mut i: usize = 0;
    while i < album.tracks.len()
        invariant
            i <= album.tracks@.len(),
            tracks@.len() == i,
            ext@ == extension_spec(format_key_spec(choice.index as nat)),
            forall|j: int| 0 <= j < i ==> {
                let d = #[trigger] tracks@[j];
                let t = album.tracks@[j];
                &&& d.track_num == t.track_num
                &&& d.title == t.title
                &&& d.file_name@ == track_filename_spec(t.track_num, t.title@, ext@)
                &&& !d.downloaded
                &&& d.duration_ms == t.duration_ms
            },
        decreases album.tracks@.len() - i,
    {
        let t = &album.tracks[i];
        tracks.push(DownloadedTrack {
            track_num: t.track_num,
            title: t.title.clone(),
            file_name: track_filename(t.track_num, t.title.as_str(), ext),
            downloaded: false,
            duration_ms: t.duration_ms,
        });
        i += 1;
    }
    DownloadedAlbum {
        item_id: album.item_id,
        album_title: album.album_title.clone(),
        artist_name: album.artist_name.clone(),
        tracks,
        status: AlbumDownloadStatus::Downloading,
    }
}

/// The two directory names (artist, then album) under which an album is stored.
pub fn album_dir(artist: &str, title: &str) -> (r: (String, String))
    ensures
        r.0@ == sanitize_spec(artist@),
        r.1@ == sanitize_spec(title@),
{
    (sanitize_filename(artist), sanitize_filename(title))
}

/// Where an album's cover is kept, under the library directory.
pub struct CoverPath {
    pub artist_dir: String,
    pub album_dir: String,
    pub file_name: String,
}

/// The file whose presence tells whether an album has its cover:
/// `cover.jpg` in the album's directory. The program tests that it exists.
pub fn has_cover(artist: &str, album_title: &str) -> (r: CoverPath)
    ensures
        r.artist_dir@ == sanitize_spec(artist@),
        r.album_dir@ == sanitize_spec(album_title@),
        r.file_name@ == "cover.jpg"@,
{
    let (artist_dir, album_dir) = album_dir(artist, album_title);
    CoverPath { artist_dir, album_dir, file_name: "cover.jpg".to_owned() }
}

/// The address of an album's large cover: the collection's art address
/// with every `_16.` size marker replaced by `_5.`.
pub fn cover_art_url(art_url: &str) -> (r: String)
    ensures
        r@ == replace_spec(art_url@, "_16."@, "_5."@),
{
    let pat = chars_of("_16.");
    let rep = chars_of("_5.");
    proof {
        reveal_strlit("_16.");
    }
    let src = chars_of(art_url);
    let out = replace_all(src.as_slice(), pat.as_slice(), rep.as_slice());
    string_of(out.as_slice())
}

/// The last path component of an archive entry name.
pub open spec fn entry_file_name(zip_name: Seq<char>) -> Seq<char> {
    match rfind_spec(zip_name, seq!['/']) {
        Some(p) => zip_name.skip(p + 1),
        None => zip_name,
    }
}

/// The part of a file name after its last ` - `, where the track number stands.
pub open spec fn entry_track_part(file_name: Seq<char>) -> Seq<char> {
    match rfind_spec(file_name, " - "@) {
        Some(p) => file_name.skip(p + 3),
        None => file_name,
    }
}

/// Whether a name part begins with a track number (two digits at least)
/// followed by a space, a dot, a hyphen or an underscore.
pub open spec fn starts_with_number(part: Seq<char>, n: u32) -> bool {
    ||| occurs_at(part, decimal2(n as nat).push(' '), 0)
    ||| occurs_at(part, decimal2(n as nat).push('.'), 0)
    ||| occurs_at(part, decimal2(n as nat).push('-'), 0)
    ||| occurs_at(part, decimal2(n as nat).push('_'), 0)
}

/// The position of the first listed track whose number begins the name part.
pub open spec fn first_numbered(tracks: Seq<(u32, String)>, part: Seq<char>) -> Option<int>
    decreases tracks.len(),
{
    if tracks.len() == 0 {
        None
    } else if starts_with_number(part, tracks[0].0) {
        Some(0)
    } else {
        match first_numbered(tracks.drop_first(), part) {
            Some(i) => Some(i + 1),
            None => None,
        }
    }
}

/// The track that an archive entry holds, by the number at the start of the
/// name part: Bandcamp names files like `Artist - Album - 01 Title.flac`.
pub open spec fn zip_entry_track(zip_name: Seq<char>, tracks: Seq<(u32, String)>) -> Option<int> {
    first_numbered(tracks, entry_track_part(entry_file_name(zip_name)))
}

proof fn lemma_first_numbered(tracks: Seq<(u32, String)>, part: Seq<char>, i: int)
    requires
        0 <= i <= tracks.len(),
        forall|j: int| 0 <= j < i ==> !starts_with_number(part, #[trigger] tracks[j].0),
        i < tracks.len() ==> starts_with_number(part, tracks[i].0),
    ensures
        first_numbered(tracks, part) == if i < tracks.len() { Some(i) } else { None::<int> },
    decreases i,
{
    if i > 0 {
        lemma_first_numbered(tracks.drop_first(), part, i - 1);
    }
}

/// Tests `starts_with_number`.
fn starts_with_number_exec(part: &[char], n: u32) -> (r: bool)
    ensures
        r == starts_with_number(part@, n),
{
    let num = decimal2_chars(n as u64);
    let seps = [' ', '.', '-', '_'];
    let mut k: usize = 0;
    while k < 4
        invariant
            k <= 4,
            num@ == decimal2(n as nat),
            seps@ == seq![' ', '.', '-', '_'],
            forall|j: int| 0 <= j < k ==> !occurs_at(part@, decimal2(n as nat).push(#[trigger] seps@[j]), 0),
        decreases 4 - k,
    {
        let mut p = slice_range(num.as_slice(), 0, num.len());
        p.push(seps[k]);
        assert(num@.subrange(0, num@.len() as int) =~= num@);
        if starts_with(part, p.as_slice()) {
            return true;
        }
        k += 1;
    }
    assert(!occurs_at(part@, decimal2(n as nat).push(seps@[0]), 0));
    assert(!occurs_at(part@, decimal2(n as nat).push(seps@[1]), 0));
    assert(!occurs_at(part@, decimal2(n as nat).push(seps@[2]), 0));
    assert(!occurs_at(part@, decimal2(n as nat).push(seps@[3]), 0));
    false
}

/// The name part of an archive entry that should begin with a track number.
fn entry_part(zip_name: &str) -> (part: Vec<char>)
    ensures
        part@ == entry_track_part(entry_file_name(zip_name@)),
{
    let file_name = entry_file(zip_name);
    let sep = [' ', '-', ' '];
    proof {
        reveal_strlit(" - ");
        assert(sep@ =~= " - "@);
    }
    let part: Vec<char> = match rfind(file_name.as_slice(), &sep) {
        Some(p) => {
            assert(occurs_at(file_name@, sep@, p as int));
            assert(p + 3 <= file_name.len());
            slice_range(file_name.as_slice(), p + 3, file_name.len())
        },
        None => slice_range(file_name.as_slice(), 0, file_name.len()),
    };
    assert(file_name@.subrange(0, file_name@.len() as int) =~= file_name@);
    assert(part@ =~= entry_track_part(file_name@));
    part
}

/// The last path component of an archive entry name.
fn entry_file(zip_name: &str) -> (r: Vec<char>)
    ensures
        r@ == entry_file_name(zip_name@),
{
    let name = chars_of(zip_name);
    let slash = ['/'];
    proof {
        assert(slash@ =~= seq!['/']);
    }
    let file_name: Vec<char> = match rfind(name.as_slice(), &slash) {
        Some(p) => {
            assert(occurs_at(name@, slash@, p as int));
            assert(p < name.len());
            slice_range(name.as_slice(), p + 1, name.len())
        },
        None => slice_range(name.as_slice(), 0, name.len()),
    };
    assert(name@.subrange(0, name@.len() as int) =~= name@);
    assert(file_name@ =~= entry_file_name(zip_name@));
    file_name
}

/// Matches an archive entry name to a track by the track number prefix.
pub fn match_zip_entry_to_track(zip_name: &str, tracks: &[(u32, String)]) -> (r: Option<(u32, String)>)
    ensures
        match zip_entry_track(zip_name@, tracks@) {
            Some(i) => r == Some(tracks@[i]),
            None => r is None,
        },
{
    let part = entry_part(zip_name);
    let mut i: usize = 0;
    while i < tracks.len()
        invariant
            i <= tracks@.len(),
            part@ == entry_track_part(entry_file_name(zip_name@)),
            forall|j: int| 0 <= j < i ==> !starts_with_number(part@, #[trigger] tracks@[j].0),
        decreases tracks@.len() - i,
    {
        if starts_with_number_exec(part.as_slice(), tracks[i].0) {
            proof {
                lemma_first_numbered(tracks@, part@, i as int);
            }
            return Some((tracks[i].0, tracks[i].1.clone()));
        }
        i += 1;
    }
    proof {
        lemma_first_numbered(tracks@, part@, i as int);
    }
    None
}

/// Model of a library album: its texts by their characters.
pub struct DownloadedAlbumView {
    pub item_id: u64,
    pub album_title: Seq<char>,
    pub artist_name: Seq<char>,
    pub tracks: Seq<DownloadedTrack>,
    pub status: AlbumDownloadStatus,
}

impl View for DownloadedAlbum {
    type V = DownloadedAlbumView;

    open spec fn view(&self) -> DownloadedAlbumView {
        DownloadedAlbumView {
            item_id: self.item_id,
            album_title: self.album_title@,
            artist_name: self.artist_name@,
            tracks: self.tracks@,
            status: self.status,
        }
    }
}

/// The models of the library's albums.
pub open spec fn library_view(m: Map<u64, DownloadedAlbum>) -> Map<u64, DownloadedAlbumView> {
    m.map_values(|a: DownloadedAlbum| a@)
}

/// The position of the first track of an album's listing numbered `n`.
pub open spec fn first_listed(ts: Seq<Track>, n: u32) -> Option<int>
    decreases ts.len(),
{
    if ts.len() == 0 {
        None
    } else if ts[0].track_num == n {
        Some(0)
    } else {
        match first_listed(ts.drop_first(), n) {
            Some(i) => Some(i + 1),
            None => None,
        }
    }
}

/// Downloaded tracks with the durations of the listing: each takes the
/// duration of the first listed track with its number, if any.
pub open spec fn synced_tracks(dl: Seq<DownloadedTrack>, ts: Seq<Track>) -> Seq<DownloadedTrack> {
    dl.map_values(|d: DownloadedTrack| match first_listed(ts, d.track_num) {
        Some(i) => DownloadedTrack { duration_ms: ts[i].duration_ms, ..d },
        None => d,
    })
}

/// The first listed track numbered `n`.
fn find_listed(ts: &Vec<Track>, n: u32) -> (r: Option<usize>)
    ensures
        match r {
            Some(i) => first_listed(ts@, n) == Some(i as int) && i < ts@.len(),
            None => first_listed(ts@, n) is None,
        },
{
    let mut i: usize = 0;
    assert(ts@.skip(0) =~= ts@);
    while i < ts.len()
        invariant
            i <= ts@.len(),
            first_listed(ts@, n) == match first_listed(ts@.skip(i as int), n) {
                Some(k) => Some(k + i),
                None => None,
            },
        decreases ts@.len() - i,
    {
        assert(ts@.skip(i as int).drop_first() =~= ts@.skip(i + 1));
        assert(ts@.skip(i as int)[0] == ts@[i as int]);
        if ts[i].track_num == n {
            return Some(i);
        }
        i += 1;
    }
    None
}

/// Takes the durations of an album's track listing for its downloaded tracks.
fn synced(dl: &Vec<DownloadedTrack>, ts: &Vec<Track>) -> (r: Vec<DownloadedTrack>)
    ensures
        r@ == synced_tracks(dl@, ts@),
{
    let mut out: Vec<DownloadedTrack> = Vec::new();
    let mut i: usize = 0;
    while i < dl.len()
        invariant
            i <= dl@.len(),
            out@ =~= synced_tracks(dl@.take(i as int), ts@),
        decreases dl@.len() - i,
    {
        let d = &dl[i];
        let duration_ms = match find_listed(ts, d.track_num) {
            Some(j) => ts[j].duration_ms,
            None => d.duration_ms,
        };
        let t = DownloadedTrack {
            track_num: d.track_num,
            title: d.title.clone(),
            file_name: d.file_name.clone(),
            downloaded: d.downloaded,
            duration_ms,
        };
        out.push(t);
        i += 1;
        assert(out@ =~= synced_tracks(dl@.take(i as int), ts@));
    }
    assert(dl@.take(i as int) =~= dl@);
    out
}

impl LibraryIndex {
    /// Takes the durations of an album's track listing for its downloaded
    /// tracks; no change for an album not in the library.
    pub fn sync_durations(&mut self, item_id: u64, ts: &Vec<Track>)
        ensures
            library_view(final(self).albums@) == if old(self).albums@.contains_key(item_id) {
                library_view(old(self).albums@).insert(
                    item_id,
                    DownloadedAlbumView {
                        tracks: synced_tracks(old(self).albums@[item_id].tracks@, ts@),
                        ..old(self).albums@[item_id]@
                    },
                )
            } else {
                library_view(old(self).albums@)
            },
    {
        let mut album = match self.albums.remove(&item_id) {
            Some(a) => a,
            None => return,
        };
        album.tracks = synced(&album.tracks, ts);
        let ghost a = album;
        self.albums.insert(item_id, album);
        proof {
            assert(library_view(self.albums@) =~= library_view(old(self).albums@).insert(item_id, a@));
        }
    }
}

/// A track as saved in an album's `metadata.json`.
pub struct TrackMetadata {
    pub track_num: u32,
    pub title: String,
    pub duration_ms: u64,
    pub stream_url: Option<String>,
}

/// What is saved of an album beside its files: its tracks and texts.
pub struct AlbumMetadata {
    pub item_id: u64,
    pub tracks: Vec<TrackMetadata>,
    pub about: Option<String>,
    pub credits: Option<String>,
    pub release_date: Option<String>,
}

/// A track's saved form.
pub open spec fn saved_track(t: Track) -> TrackMetadata {
    TrackMetadata { track_num: t.track_num, title: t.title, duration_ms: t.duration_ms, stream_url: t.stream_url }
}

/// A track read back from its saved form.
pub open spec fn restored_track(m: TrackMetadata) -> Track {
    Track { title: m.title, track_num: m.track_num, duration_ms: m.duration_ms, stream_url: m.stream_url }
}

/// What is saved of an album.
pub fn album_metadata(album: &Album) -> (r: AlbumMetadata)
    ensures
        r.item_id == album.item_id,
        r.tracks@ == album.tracks@.map_values(|t: Track| saved_track(t)),
        r.about == album.about,
        r.credits == album.credits,
        r.release_date == album.release_date,
{
    let mut tracks: Vec<TrackMetadata> = Vec::new();
    let mut i: usize = 0;
    while i < album.tracks.len()
        invariant
            i <= album.tracks@.len(),
            tracks@ =~= album.tracks@.take(i as int).map_values(|t: Track| saved_track(t)),
        decreases album.tracks@.len() - i,
    {
        let t = &album.tracks[i];
        tracks.push(TrackMetadata {
            track_num: t.track_num,
            title: t.title.clone(),
            duration_ms: t.duration_ms,
            stream_url: copy_opt_string(&t.stream_url),
        });
        i += 1;
    }
    assert(album.tracks@.take(i as int) =~= album.tracks@);
    AlbumMetadata {
        item_id: album.item_id,
        tracks,
        about: copy_opt_string(&album.about),
        credits: copy_opt_string(&album.credits),
        release_date: copy_opt_string(&album.release_date),
    }
}

/// The tracks and texts of an album read back from what was saved.
pub fn detail_from_metadata(meta: AlbumMetadata) -> (r: AlbumDetail)
    ensures
        r.tracks@ == meta.tracks@.map_values(|m: TrackMetadata| restored_track(m)),
        r.about == meta.about,
        r.credits == meta.credits,
        r.release_date == meta.release_date,
{
    let AlbumMetadata { item_id: _, tracks: saved, about, credits, release_date } = meta;
    let mut tracks: Vec<Track> = Vec::new();
    let mut i: usize = 0;
    while i < saved.len()
        invariant
            i <= saved@.len(),
            tracks@ =~= saved@.take(i as int).map_values(|m: TrackMetadata| restored_track(m)),
        decreases saved@.len() - i,
    {
        let m = &saved[i];
        tracks.push(Track {
            title: m.title.clone(),
            track_num: m.track_num,
            duration_ms: m.duration_ms,
            stream_url: copy_opt_string(&m.stream_url),
        });
        i += 1;
    }
    assert(saved@.take(i as int) =~= saved@);
    AlbumDetail { tracks, about, credits, release_date }
}

/// Saving an album's metadata and reading it back gives its tracks and
/// texts unchanged.
pub proof fn law_metadata_round_trip(album: Album, meta: AlbumMetadata, back: AlbumDetail)
    requires
        meta.tracks@ == album.tracks@.map_values(|t: Track| saved_track(t)),
        meta.about == album.about,
        meta.credits == album.credits,
        meta.release_date == album.release_date,
        back.tracks@ == meta.tracks@.map_values(|m: TrackMetadata| restored_track(m)),
        back.about == meta.about,
        back.credits == meta.credits,
        back.release_date == meta.release_date,
    ensures
        back.tracks@ == album.tracks@,
        back.about == album.about,
        back.credits == album.credits,
        back.release_date == album.release_date,
{
    assert(back.tracks@ =~= album.tracks@);
}

/// Where the download of an entry of an album's archive goes: no file for
/// a directory (an entry flagged so, or whose name ends with `/`) nor for an
/// entry that matches no track; else the track's number and file name.
pub open spec fn zip_entry_target_spec(zip_name: Seq<char>, is_dir: bool, tracks: Seq<(u32, String)>, ext: Seq<char>) -> Option<(u32, Seq<char>)> {
    if is_dir || (zip_name.len() > 0 && zip_name.last() == '/') {
        None
    } else {
        match zip_entry_track(zip_name, tracks) {
            Some(i) => Some((tracks[i].0, track_filename_spec(tracks[i].0, tracks[i].1@, ext))),
            None => None,
        }
    }
}

/// The track and file name an archive entry is extracted to, if any.
pub fn zip_entry_target(zip_name: &str, is_dir: bool, tracks: &[(u32, String)], ext: &str) -> (r: Option<(u32, String)>)
    ensures
        match r {
            Some((n, f)) => zip_entry_target_spec(zip_name@, is_dir, tracks@, ext@) == Some((n, f@)),
            None => zip_entry_target_spec(zip_name@, is_dir, tracks@, ext@) is None,
        },
{
    let name = chars_of(zip_name);
    if is_dir || (name.len() > 0 && name[name.len() - 1] == '/') {
        return None;
    }
    match match_zip_entry_to_track(zip_name, tracks) {
        Some((n, title)) => Some((n, track_filename(n, title.as_str(), ext))),
        None => None,
    }
}

/// The first character after the leading whitespace is not whitespace.
proof fn lemma_lead_ws_stops(s: Seq<char>)
    ensures
        lead_ws(s) <= s.len(),
        lead_ws(s) < s.len() ==> !is_ws(s[lead_ws(s) as int]),
        forall|j: int| 0 <= j < lead_ws(s) ==> is_ws(#[trigger] s[j]),
    decreases s.len(),
{
    if s.len() > 0 && is_ws(s[0]) {
        lemma_lead_ws_stops(s.drop_first());
        assert forall|j: int| 0 <= j < lead_ws(s) implies is_ws(#[trigger] s[j]) by {
            if j > 0 {
                assert(s[j] == s.drop_first()[j - 1]);
            }
        }
    }
}

/// The last character before the trailing whitespace is not whitespace.
proof fn lemma_trail_ws_stops(s: Seq<char>)
    ensures
        trail_ws(s) <= s.len(),
        trail_ws(s) < s.len() ==> !is_ws(s[s.len() - trail_ws(s) - 1]),
    decreases s.len(),
{
    if s.len() > 0 && is_ws(s.last()) {
        lemma_trail_ws_stops(s.drop_last());
    }
}

/// A trimmed text starts and ends with no whitespace, so trimming it again
/// leaves it as it is.
pub proof fn lemma_trim_idempotent(s: Seq<char>)
    ensures
        trim_spec(trim_spec(s)) == trim_spec(s),
{
    let t = s.skip(lead_ws(s) as int);
    lemma_lead_ws_stops(s);
    lemma_trail_ws_stops(t);
    let u = t.take(t.len() - trail_ws(t));
    if u.len() > 0 {
        assert(u[0] == s[lead_ws(s) as int]);
        assert(lead_ws(u) == 0);
        assert(u.last() == t[t.len() - trail_ws(t) - 1]);
        assert(trail_ws(u.skip(0)) == 0) by {
            assert(u.skip(0) =~= u);
        }
        assert(u.skip(0) =~= u);
        assert(u.skip(0).take(u.len() as int) =~= u);
    } else {
        assert(trim_spec(u) =~= u);
    }
}

/// A sanitized name holds none of the characters that paths reserve.
pub proof fn law_sanitized_is_path_safe(name: Seq<char>)
    ensures
        forall|i: int| 0 <= i < sanitize_spec(name).len() ==> !is_path_special(#[trigger] sanitize_spec(name)[i]),
{
    let m = name.map_values(|c: char| sanitize_char(c));
    let t = m.skip(lead_ws(m) as int);
    lemma_lead_ws_stops(m);
    lemma_trail_ws_stops(t);
    assert forall|i: int| 0 <= i < sanitize_spec(name).len() implies !is_path_special(#[trigger] sanitize_spec(name)[i]) by {
        assert(sanitize_spec(name)[i] == m[i + lead_ws(m)]);
    }
}

/// Sanitizing a sanitized name changes nothing.
pub proof fn law_sanitize_idempotent(name: Seq<char>)
    ensures
        sanitize_spec(sanitize_spec(name)) == sanitize_spec(name),
{
    let s1 = sanitize_spec(name);
    law_sanitized_is_path_safe(name);
    assert(s1.map_values(|c: char| sanitize_char(c)) =~= s1);
    lemma_trim_idempotent(name.map_values(|c: char| sanitize_char(c)));
}

/// Changing the download flag of the first track numbered `n` keeps it the
/// first track numbered `n`.
pub proof fn lemma_first_track_update(tracks: Seq<DownloadedTrack>, n: u32, i: int, t: DownloadedTrack)
    requires
        first_track(tracks, n) == Some(i),
        t.track_num == tracks[i].track_num,
    ensures
        first_track(tracks.update(i, t), n) == Some(i),
    decreases tracks.len(),
{
    lemma_first_track_bounds(tracks, n);
    if tracks[0].track_num != n {
        lemma_first_track_bounds(tracks.drop_first(), n);
        assert(tracks.update(i, t).drop_first() =~= tracks.drop_first().update(i - 1, t));
        assert(tracks.drop_first()[i - 1] == tracks[i]);
        lemma_first_track_update(tracks.drop_first(), n, i - 1, t);
        assert(tracks.update(i, t)[0] == tracks[0]);
    } else {
        assert(i == 0);
    }
}

} // verus!
