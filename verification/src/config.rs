//! Download formats and the format chosen for downloads, and the paths of
//! the player's files: configuration, state and library directories.
use vstd::prelude::*;
use crate::text::{str_eq, chars_of, string_of, starts_with, slice_range, occurs_at};
use crate::models::pairs_view;
use crate::album_page::lookup_last;

verus! {

/// Number of supported download formats.
pub const DOWNLOAD_FORMAT_COUNT: usize = 3;

/// The key of the download format at a position of the format list.
pub open spec fn format_key_spec(i: nat) -> Seq<char> {
    if i == 0 {
        "flac"@
    } else if i == 1 {
        "mp3-320"@
    } else {
        "mp3-v0"@
    }
}

/// The description of the download format at a position of the format list.
pub open spec fn format_label_spec(i: nat) -> Seq<char> {
    if i == 0 {
        "FLAC (lossless)"@
    } else if i == 1 {
        "MP3 320kbps"@
    } else {
        "MP3 V0 (VBR)"@
    }
}

/// The position of a format key in the format list.
pub open spec fn format_position(format: Seq<char>) -> Option<nat> {
    if format == format_key_spec(0) {
        Some(0)
    } else if format == format_key_spec(1) {
        Some(1)
    } else if format == format_key_spec(2) {
        Some(2)
    } else {
        None
    }
}

/// The file extension of a format key; unknown keys give `flac`.
pub open spec fn extension_spec(format: Seq<char>) -> Seq<char> {
    if format == "flac"@ {
        "flac"@
    } else if format == "mp3-320"@ || format == "mp3-v0"@ {
        "mp3"@
    } else {
        "flac"@
    }
}

/// The description of a format key; unknown keys get the first description.
pub open spec fn description_spec(format: Seq<char>) -> Seq<char> {
    match format_position(format) {
        Some(i) => format_label_spec(i),
        None => format_label_spec(0),
    }
}

/// The key of the format at position `i` of the format list.
pub fn format_key(i: usize) -> (r: &'static str)
    requires
        i < DOWNLOAD_FORMAT_COUNT,
    ensures
        r@ == format_key_spec(i as nat),
{
    if i == 0 {
        "flac"
    } else if i == 1 {
        "mp3-320"
    } else {
        "mp3-v0"
    }
}

/// The description of the format at position `i` of the format list.
pub fn format_label(i: usize) -> (r: &'static str)
    requires
        i < DOWNLOAD_FORMAT_COUNT,
    ensures
        r@ == format_label_spec(i as nat),
{
    if i == 0 {
        "FLAC (lossless)"
    } else if i == 1 {
        "MP3 320kbps"
    } else {
        "MP3 V0 (VBR)"
    }
}

/// The position of a format key in the format list, if it is one.
pub fn format_index(format: &str) -> (r: Option<usize>)
    ensures
        r matches Some(i) ==> format_position(format@) == Some(i as nat),
        r is None ==> format_position(format@) is None,
{
    let mut i: usize = 0;
    while i < DOWNLOAD_FORMAT_COUNT
        invariant
            i <= DOWNLOAD_FORMAT_COUNT,
            forall|j: nat| j < i ==> format@ != #[trigger] format_key_spec(j),
        decreases DOWNLOAD_FORMAT_COUNT - i,
    {
        if str_eq(format, format_key(i)) {
            return Some(i);
        }
        i += 1;
    }
    assert(format@ != format_key_spec(0) && format@ != format_key_spec(1) && format@
        != format_key_spec(2));
    None
}

/// The file extension for a download format.
pub fn format_extension(format: &str) -> (r: &'static str)
    ensures
        r@ == extension_spec(format@),
{
    if str_eq(format, "flac") {
        "flac"
    } else if str_eq(format, "mp3-320") || str_eq(format, "mp3-v0") {
        "mp3"
    } else {
        "flac"
    }
}

/// The description of a download format.
pub fn format_description(format: &str) -> (r: &'static str)
    ensures
        r@ == description_spec(format@),
{
    match format_index(format) {
        Some(i) => format_label(i),
        None => format_label(0),
    }
}

/// The download format in use, as a position of the format list.
pub struct FormatChoice {
    pub index: usize,
}

/// Position reached from `index` by a cycling step of `delta`, wrapping around.
pub open spec fn cycled(index: nat, delta: int) -> nat {
    ((index + delta) % (DOWNLOAD_FORMAT_COUNT as int)) as nat
}

impl FormatChoice {
    /// The position lies in the format list.
    pub open spec fn wf(&self) -> bool {
        self.index < DOWNLOAD_FORMAT_COUNT
    }

    /// The choice read from the configuration: the configured format when it
    /// is a known, non-empty key, else the first format.
    pub fn from_config(format: Option<&str>) -> (r: Self)
        ensures
            r.wf(),
            r.index == match format {
                Some(f) => match format_position(f@) {
                    Some(i) => i,
                    None => 0,
                },
                None => 0,
            },
    {
        match format {
            Some(f) => match format_index(f) {
                Some(i) => FormatChoice { index: i },
                None => FormatChoice { index: 0 },
            },
            None => FormatChoice { index: 0 },
        }
    }
}

/// The configured download format key.
pub fn download_format(choice: &FormatChoice) -> (r: String)
    requires
        choice.wf(),
    ensures
        r@ == format_key_spec(choice.index as nat),
{
    format_key(choice.index).to_string()
}

/// Moves the choice by `delta` positions, wrapping around, and returns the
/// key to persist in the configuration.
pub fn cycle_download_format(choice: &mut FormatChoice, delta: i8) -> (r: String)
    requires
        old(choice).wf(),
    ensures
        final(choice).wf(),
        final(choice).index == cycled(old(choice).index as nat, delta as int),
        r@ == format_key_spec(final(choice).index as nat),
{
    let len: i64 = 3;
    let sum: i64 = choice.index as i64 + delta as i64;
    let m = sum % len;
    let new: usize = if m < 0 { (m + len) as usize } else { m as usize };
    assert(new == cycled(choice.index as nat, delta as int)) by {
        assert(sum % 3 == (choice.index + delta as int) % 3 || sum % 3 + 3 == (choice.index + delta as int) % 3);
    }
    choice.index = new;
    format_key(new).to_string()
}

/// Cycling forward and then backward comes back to the same format, and so do
/// three steps forward.
pub proof fn law_cycle_round_trip(index: nat)
    requires
        index < DOWNLOAD_FORMAT_COUNT,
    ensures
        cycled(cycled(index, 1), -1) == index,
        cycled(cycled(cycled(index, 1), 1), 1) == index,
        cycled(index, 1) < DOWNLOAD_FORMAT_COUNT,
{
}

/// `Path::join` of a relative name to a directory: the name alone under an
/// empty directory, else the two joined by one `/`.
pub open spec fn join_spec(dir: Seq<char>, name: Seq<char>) -> Seq<char> {
    if dir.len() == 0 {
        name
    } else if dir.last() == '/' {
        dir + name
    } else {
        dir + seq!['/'] + name
    }
}

/// Joins a relative name to a directory.
pub fn join_path(dir: &str, name: &str) -> (r: String)
    ensures
        r@ == join_spec(dir@, name@),
{
    let mut v = chars_of(dir);
    let n = chars_of(name);
    if v.len() > 0 && v[v.len() - 1] != '/' {
        v.push('/');
    }
    v.extend_from_slice(n.as_slice());
    string_of(v.as_slice())
}

/// The file of the saved player state, in the cache directory.
pub fn state_file(cache_dir: &str) -> (r: String)
    ensures
        r@ == join_spec(cache_dir@, "state.json"@),
{
    join_path(cache_dir, "state.json")
}

/// A configured path with a leading `~/` read as the home directory, when
/// the home directory is known.
pub open spec fn shellexpand_spec(path: Seq<char>, home: Option<Seq<char>>) -> Seq<char> {
    match home {
        Some(h) => if occurs_at(path, "~/"@, 0) {
            h + seq!['/'] + path.skip(2)
        } else {
            path
        },
        None => path,
    }
}

/// Expands a leading `~/` of a configured path.
pub fn shellexpand(path: &str, home: Option<&str>) -> (r: String)
    ensures
        r@ == shellexpand_spec(path@, match home { Some(h) => Some(h@), None => None }),
{
    let p = chars_of(path);
    let tilde = chars_of("~/");
    match home {
        Some(h) => if starts_with(p.as_slice(), tilde.as_slice()) {
            proof {
                reveal_strlit("~/");
            }
            let mut v = chars_of(h);
            v.push('/');
            let rest = slice_range(p.as_slice(), 2, p.len());
            v.extend_from_slice(rest.as_slice());
            assert(v@ =~= h@ + seq!['/'] + path@.skip(2));
            string_of(v.as_slice())
        } else {
            path.to_owned()
        },
        None => path.to_owned(),
    }
}

/// The library directory: the configured path, expanded, when one is set
/// and not empty, else `Music/bcp` under the home directory; none when that
/// is needed and the home directory is not known.
pub open spec fn library_dir_spec(configured: Option<Seq<char>>, home: Option<Seq<char>>) -> Option<Seq<char>> {
    match configured {
        Some(p) => if p.len() > 0 {
            Some(shellexpand_spec(p, home))
        } else {
            default_library_dir(home)
        },
        None => default_library_dir(home),
    }
}

/// `Music/bcp` under the home directory.
pub open spec fn default_library_dir(home: Option<Seq<char>>) -> Option<Seq<char>> {
    match home {
        Some(h) => Some(join_spec(join_spec(h, "Music"@), "bcp"@)),
        None => None,
    }
}

/// The library directory.
pub fn library_dir(configured: Option<&str>, home: Option<&str>) -> (r: Option<String>)
    ensures
        match r {
            Some(d) => library_dir_spec(
                match configured { Some(c) => Some(c@), None => None },
                match home { Some(h) => Some(h@), None => None },
            ) == Some(d@),
            None => library_dir_spec(
                match configured { Some(c) => Some(c@), None => None },
                match home { Some(h) => Some(h@), None => None },
            ) is None,
        },
{
    if let Some(p) = configured {
        if !p.is_empty() {
            return Some(shellexpand(p, home));
        }
    }
    match home {
        Some(h) => {
            let m = join_path(h, "Music");
            Some(join_path(m.as_str(), "bcp"))
        },
        None => None,
    }
}

/// The format of a purchase's download page to fetch, given the formats the
/// page offers (key and address): the preferred one when offered, else the
/// first offered in the order of the format list; with its address.
pub open spec fn hq_choice_spec(formats: Seq<(Seq<char>, Seq<char>)>, preferred: Seq<char>) -> Option<(Seq<char>, Seq<char>)> {
    match lookup_last(formats, preferred) {
        Some(url) => Some((url, preferred)),
        None => match lookup_last(formats, format_key_spec(0)) {
            Some(url) => Some((url, format_key_spec(0))),
            None => match lookup_last(formats, format_key_spec(1)) {
                Some(url) => Some((url, format_key_spec(1))),
                None => match lookup_last(formats, format_key_spec(2)) {
                    Some(url) => Some((url, format_key_spec(2))),
                    None => None,
                },
            },
        },
    }
}

/// The address offered for a format key (the last pair with that key).
fn offered(formats: &[(String, String)], key: &str) -> (r: Option<String>)
    ensures
        match r {
            Some(u) => lookup_last(pairs_view(formats@), key@) == Some(u@),
            None => lookup_last(pairs_view(formats@), key@) is None,
        },
{
    let ghost pv = pairs_view(formats@);
    let mut i: usize = formats.len();
    assert(pv.take(i as int) =~= pv);
    while i > 0
        invariant
            i <= formats@.len(),
            pv == pairs_view(formats@),
            pv.len() == formats@.len(),
            lookup_last(pv, key@) == lookup_last(pv.take(i as int), key@),
        decreases i,
    {
        let ghost t = pv.take(i as int);
        assert(t.drop_last() =~= pv.take(i - 1));
        assert(t.last() == pv[i - 1]);
        assert(pv[i - 1] == (formats@[i - 1].0@, formats@[i - 1].1@));
        if str_eq(formats[i - 1].0.as_str(), key) {
            return Some(formats[i - 1].1.clone());
        }
        i -= 1;
    }
    None
}

/// Picks the format to download from a purchase's download page.
pub fn hq_format_choice(formats: &[(String, String)], preferred: &str) -> (r: Option<(String, String)>)
    ensures
        match r {
            Some((url, key)) => hq_choice_spec(pairs_view(formats@), preferred@) == Some((url@, key@)),
            None => hq_choice_spec(pairs_view(formats@), preferred@) is None,
        },
{
    if let Some(u) = offered(formats, preferred) {
        return Some((u, preferred.to_owned()));
    }
    let mut i: usize = 0;
    while i < DOWNLOAD_FORMAT_COUNT
        invariant
            i <= DOWNLOAD_FORMAT_COUNT,
            lookup_last(pairs_view(formats@), preferred@) is None,
            forall|j: nat| j < i ==> #[trigger] lookup_last(pairs_view(formats@), format_key_spec(j)) is None,
        decreases DOWNLOAD_FORMAT_COUNT - i,
    {
        let k = format_key(i);
        if let Some(u) = offered(formats, k) {
            proof {
                if i >= 1 {
                    assert(lookup_last(pairs_view(formats@), format_key_spec(0nat)) is None);
                }
                if i >= 2 {
                    assert(lookup_last(pairs_view(formats@), format_key_spec(1nat)) is None);
                }
            }
            return Some((u, k.to_owned()));
        }
        i += 1;
    }
    assert(lookup_last(pairs_view(formats@), format_key_spec(0nat)) is None);
    assert(lookup_last(pairs_view(formats@), format_key_spec(1nat)) is None);
    assert(lookup_last(pairs_view(formats@), format_key_spec(2nat)) is None);
    None
}

} // verus!
