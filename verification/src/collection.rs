//! The fan's collection as the Bandcamp API serves it: who the fan is, and
//! the pages of purchased items, gathered into albums with no album twice.
use vstd::prelude::*;
use std::collections::HashSet;
use crate::json::{Json, JsonView, json_view, json_document, parse_json, get, get_spec};
use crate::models::{Album, opt_str_view, pairs_view};
use crate::number::{uint_spec, parse_uint};
use crate::text::{chars_of, decimal, decimal_chars, string_of, slice_range};

verus! {

broadcast use vstd::std_specs::hash::group_hash_axioms;

// ---------------------------------------------------------------------------
// Who the fan is
// ---------------------------------------------------------------------------

/// Why the collection summary gave no fan.
#[derive(PartialEq, Eq, Structural, Clone, Copy, Debug)]
pub enum FanInfoError {
    /// The summary is not JSON.
    BadJson,
    /// The summary has no `fan_id` that is a whole number.
    NoFanId,
}

/// The user name of a collection summary: `collection_summary.username`
/// when it is a string, else `unknown`.
pub open spec fn username_of(doc: JsonView) -> Seq<char> {
    match get_spec(doc, "collection_summary"@) {
        Some(cs) => match get_spec(cs, "username"@) {
            Some(JsonView::Str(s)) => s,
            _ => "unknown"@,
        },
        None => "unknown"@,
    }
}

/// The fan id and user name of a collection summary.
pub open spec fn fan_info_of(doc: JsonView) -> Result<(u64, Seq<char>), FanInfoError> {
    match get_spec(doc, "fan_id"@) {
        Some(JsonView::Number(t)) => match uint_spec(t) {
            Some(n) => if n <= u64::MAX {
                Ok((n as u64, username_of(doc)))
            } else {
                Err(FanInfoError::NoFanId)
            },
            None => Err(FanInfoError::NoFanId),
        },
        _ => Err(FanInfoError::NoFanId),
    }
}

/// The fan id and user name of a parsed collection summary.
pub fn fan_info_from_json(doc: &Json) -> (r: Result<(u64, String), FanInfoError>)
    ensures
        match r {
            Ok((id, name)) => fan_info_of(json_view(*doc)) == Ok::<(u64, Seq<char>), FanInfoError>((id, name@)),
            Err(e) => fan_info_of(json_view(*doc)) == Err::<(u64, Seq<char>), FanInfoError>(e),
        },
{
    let id = match get(doc, "fan_id") {
        Some(Json::Number(t)) => {
            let digits = chars_of(t.as_str());
            match parse_uint(digits.as_slice()) {
                Some(n) => n,
                None => return Err(FanInfoError::NoFanId),
            }
        },
        _ => return Err(FanInfoError::NoFanId),
    };
    let name = match get(doc, "collection_summary") {
        Some(cs) => match get(cs, "username") {
            Some(Json::Str(s)) => s.clone(),
            _ => "unknown".to_owned(),
        },
        None => "unknown".to_owned(),
    };
    Ok((id, name))
}

/// Reads the fan id and user name out of a collection summary's body.
pub fn parse_fan_info(body: &str) -> (r: Result<(u64, String), FanInfoError>)
    ensures
        match json_document(body@) {
            None => r == Err::<(u64, String), FanInfoError>(FanInfoError::BadJson),
            Some(doc) => match r {
                Ok((id, name)) => fan_info_of(doc) == Ok::<(u64, Seq<char>), FanInfoError>((id, name@)),
                Err(e) => fan_info_of(doc) == Err::<(u64, Seq<char>), FanInfoError>(e),
            },
        },
{
    match parse_json(body) {
        Ok(doc) => fan_info_from_json(&doc),
        Err(_) => Err(FanInfoError::BadJson),
    }
}

// ---------------------------------------------------------------------------
// Pages of the collection
// ---------------------------------------------------------------------------

/// One purchased item of a collection page.
pub struct CollectionItem {
    pub sale_item_id: Option<u64>,
    pub item_id: Option<u64>,
    pub item_title: Option<String>,
    pub band_name: Option<String>,
    pub item_url: Option<String>,
    pub item_art_url: Option<String>,
    pub added: Option<String>,
}

/// One page of the collection, as the program reads it from the API's
/// response with `serde`.
pub struct CollectionResponse {
    pub items: Vec<CollectionItem>,
    pub more_available: bool,
    pub last_token: Option<String>,
    pub redownload_urls: Vec<(String, String)>,
}

/// Model of a `CollectionItem`.
pub struct CollectionItemView {
    pub sale_item_id: Option<u64>,
    pub item_id: Option<u64>,
    pub item_title: Option<Seq<char>>,
    pub band_name: Option<Seq<char>>,
    pub item_url: Option<Seq<char>>,
    pub item_art_url: Option<Seq<char>>,
    pub added: Option<Seq<char>>,
}

/// Model of a `CollectionResponse`.
pub struct CollectionResponseView {
    pub items: Seq<CollectionItemView>,
    pub more_available: bool,
    pub last_token: Option<Seq<char>>,
    pub redownload_urls: Seq<(Seq<char>, Seq<char>)>,
}

impl View for CollectionItem {
    type V = CollectionItemView;

    open spec fn view(&self) -> CollectionItemView {
        CollectionItemView {
            sale_item_id: self.sale_item_id,
            item_id: self.item_id,
            item_title: opt_str_view(self.item_title),
            band_name: opt_str_view(self.band_name),
            item_url: opt_str_view(self.item_url),
            item_art_url: opt_str_view(self.item_art_url),
            added: opt_str_view(self.added),
        }
    }
}

/// The models of a list of items.
pub open spec fn items_view(s: Seq<CollectionItem>) -> Seq<CollectionItemView> {
    s.map_values(|it: CollectionItem| it@)
}

impl View for CollectionResponse {
    type V = CollectionResponseView;

    open spec fn view(&self) -> CollectionResponseView {
        CollectionResponseView {
            items: items_view(self.items@),
            more_available: self.more_available,
            last_token: opt_str_view(self.last_token),
            redownload_urls: pairs_view(self.redownload_urls@),
        }
    }
}

// ---------------------------------------------------------------------------
// Gathering the pages
// ---------------------------------------------------------------------------

/// The token that asks for the newest page: the time in seconds, then
/// `::a::`.
pub open spec fn start_token_spec(now_secs: u64) -> Seq<char> {
    decimal(now_secs as nat) + "::a::"@
}

/// The time in seconds as the collection API's tokens write it.
pub fn chrono_like_timestamp(now_secs: u64) -> (r: String)
    ensures
        r@ == decimal(now_secs as nat),
{
    let d = decimal_chars(now_secs);
    string_of(d.as_slice())
}

/// The token of a collection request: the one given, or the start token.
pub fn collection_token(older_than_token: Option<&str>, now_secs: u64) -> (r: String)
    ensures
        r@ == match older_than_token {
            Some(t) => t@,
            None => start_token_spec(now_secs),
        },
{
    match older_than_token {
        Some(t) => t.to_owned(),
        None => {
            let mut v = decimal_chars(now_secs);
            let tail = chars_of("::a::");
            v.extend_from_slice(tail.as_slice());
            string_of(v.as_slice())
        },
    }
}

/// The album id of an item: its sale id, else its item id, else zero.
pub open spec fn item_key(it: CollectionItemView) -> u64 {
    match it.sale_item_id {
        Some(i) => i,
        None => match it.item_id {
            Some(i) => i,
            None => 0,
        },
    }
}

/// A string or, when missing, the empty string.
pub open spec fn or_empty(o: Option<Seq<char>>) -> Seq<char> {
    match o {
        Some(s) => s,
        None => seq![],
    }
}

/// The album that the collection makes of an item: no tracks and no texts
/// yet.
pub open spec fn album_of_item(a: Album, it: CollectionItemView) -> bool {
    &&& a.item_id == item_key(it)
    &&& a.album_title@ == or_empty(it.item_title)
    &&& a.artist_name@ == or_empty(it.band_name)
    &&& a.item_url@ == or_empty(it.item_url)
    &&& opt_str_view(a.art_url) == it.item_art_url
    &&& opt_str_view(a.date_added) == it.added
    &&& a.tracks@.len() == 0
    &&& a.about is None
    &&& a.credits is None
    &&& a.release_date is None
    &&& a.sale_item_id == it.sale_item_id
}

/// The album ids of a list of items.
pub open spec fn keys_of(items: Seq<CollectionItemView>) -> Set<u64>
    decreases items.len(),
{
    if items.len() == 0 {
        Set::empty()
    } else {
        keys_of(items.drop_last()).insert(item_key(items.last()))
    }
}

/// The positions of the items that give an album: those whose id is neither
/// among `seen` nor among the items before them.
pub open spec fn fresh_positions(items: Seq<CollectionItemView>, seen: Set<u64>) -> Seq<int>
    decreases items.len(),
{
    if items.len() == 0 {
        seq![]
    } else {
        let prev = fresh_positions(items.drop_last(), seen);
        if seen.union(keys_of(items.drop_last())).contains(item_key(items.last())) {
            prev
        } else {
            prev.push(items.len() - 1)
        }
    }
}

/// The next token to ask for after a page: its `last_token` when more pages
/// are available, else none.
pub open spec fn next_token(page: CollectionResponseView) -> Option<Seq<char>> {
    if page.more_available {
        page.last_token
    } else {
        None
    }
}

/// The albums gathered so far from the pages of a collection, and the ids
/// already taken.
pub struct CollectionPager {
    pub albums: Vec<Album>,
    pub seen: HashSet<u64>,
}

impl CollectionPager {
    /// No album occurs twice, and `seen` holds exactly the albums' ids.
    pub open spec fn wf(&self) -> bool {
        &&& forall|i: int, j: int|
            0 <= i < j < self.albums@.len() ==> #[trigger] self.albums@[i].item_id
                != #[trigger] self.albums@[j].item_id
        &&& forall|k: u64|
            self.seen@.contains(k) <==> exists|i: int|
                0 <= i < self.albums@.len() && #[trigger] self.albums@[i].item_id == k
    }

    /// Nothing gathered yet.
    pub fn new() -> (r: Self)
        ensures
            r.wf(),
            r.albums@.len() == 0,
            r.seen@ == Set::<u64>::empty(),
    {
        CollectionPager { albums: Vec::new(), seen: HashSet::new() }
    }

    /// Adds the albums of a page, skipping every id already taken, and
    /// returns the token of the next page to ask for, if any.
    pub fn add_page(&mut self, page: &CollectionResponse) -> (r: Option<String>)
        requires
            old(self).wf(),
        ensures
            final(self).wf(),
            final(self).seen@ == old(self).seen@.union(keys_of(page@.items)),
            final(self).albums@.len() == old(self).albums@.len() + fresh_positions(
                page@.items,
                old(self).seen@,
            ).len(),
            forall|i: int| 0 <= i < old(self).albums@.len() ==> final(self).albums@[i] == old(self).albums@[i],
            forall|j: int|
                0 <= j < fresh_positions(page@.items, old(self).seen@).len() ==> album_of_item(
                    #[trigger] final(self).albums@[old(self).albums@.len() + j],
                    page@.items[fresh_positions(page@.items, old(self).seen@)[j]],
                ),
            opt_str_view(r) == next_token(page@),
    {
        let ghost iv = page@.items;
        let ghost seen0 = self.seen@;
        let ghost albums0 = self.albums@;
        let mut i: usize = 0;
        assert(iv.take(0) =~= seq![]);
        assert(seen0.union(Set::<u64>::empty()) =~= seen0);
        while i < page.items.len()
            invariant
                i <= page.items@.len(),
                iv == page@.items,
                iv.len() == page.items@.len(),
                self.wf(),
                self.seen@ == seen0.union(keys_of(iv.take(i as int))),
                self.albums@.len() == albums0.len() + fresh_positions(iv.take(i as int), seen0).len(),
                forall|k: int| 0 <= k < albums0.len() ==> self.albums@[k] == albums0[k],
                forall|j: int|
                    0 <= j < fresh_positions(iv.take(i as int), seen0).len() ==> album_of_item(
                        #[trigger] self.albums@[albums0.len() + j],
                        iv[fresh_positions(iv.take(i as int), seen0)[j]],
                    ),
                forall|j: int|
                    0 <= j < fresh_positions(iv.take(i as int), seen0).len() ==> 0
                        <= #[trigger] fresh_positions(iv.take(i as int), seen0)[j] < i,
            decreases page.items@.len() - i,
        {
            let it = &page.items[i];
            let ghost itv = iv[i as int];
            assert(itv == page.items@[i as int]@);
            let key = collection_item_key(it);
            let ghost t = iv.take(i + 1);
            assert(t.drop_last() =~= iv.take(i as int));
            assert(t.last() == itv);
            let ghost fp = fresh_positions(iv.take(i as int), seen0);
            let ghost old_albums = self.albums@;
            let ghost old_seen = self.seen@;
            let fresh = self.seen.insert(key);
            if fresh {
                let a = album_from_item(it);
                self.albums.push(a);
                proof {
                    assert(fresh_positions(t, seen0) == fp.push(i as int));
                    assert forall|x: int, y: int|
                        0 <= x < y < self.albums@.len() implies #[trigger] self.albums@[x].item_id
                        != #[trigger] self.albums@[y].item_id by {
                        if y == self.albums@.len() - 1 {
                            assert(old_seen.contains(old_albums[x].item_id));
                        }
                    }
                    assert forall|k: u64|
                        self.seen@.contains(k) <==> exists|x: int|
                            0 <= x < self.albums@.len() && #[trigger] self.albums@[x].item_id == k by {
                        if self.seen@.contains(k) && k != key {
                            assert(old_seen.contains(k));
                            let x = choose|x: int| 0 <= x < old_albums.len() && #[trigger] old_albums[x].item_id == k;
                            assert(self.albums@[x].item_id == k);
                        }
                        if k == key {
                            assert(self.albums@[self.albums@.len() - 1].item_id == k);
                        }
                        if exists|x: int| 0 <= x < self.albums@.len() && #[trigger] self.albums@[x].item_id == k {
                            let x = choose|x: int| 0 <= x < self.albums@.len() && #[trigger] self.albums@[x].item_id == k;
                            if x < old_albums.len() {
                                assert(old_albums[x].item_id == k);
                            }
                        }
                    }
                }
            } else {
                proof {
                    assert(fresh_positions(t, seen0) == fp);
                }
            }
            proof {
                assert(self.seen@ =~= seen0.union(keys_of(t)));
            }
            i += 1;
        }
        assert(iv.take(i as int) =~= iv);
        if page.more_available {
            match &page.last_token {
                Some(t) => Some(t.clone()),
                None => None,
            }
        } else {
            None
        }
    }
}

/// The album id of an item.
fn collection_item_key(it: &CollectionItem) -> (r: u64)
    ensures
        r == item_key(it@),
{
    match it.sale_item_id {
        Some(i) => i,
        None => match it.item_id {
            Some(i) => i,
            None => 0,
        },
    }
}

/// A copy of an optional string.
fn copy_opt(o: &Option<String>) -> (r: Option<String>)
    ensures
        opt_str_view(r) == opt_str_view(*o),
{
    match o {
        Some(s) => Some(s.clone()),
        None => None,
    }
}

/// A string or the empty string.
fn or_empty_exec(o: &Option<String>) -> (r: String)
    ensures
        r@ == or_empty(opt_str_view(*o)),
{
    match o {
        Some(s) => s.clone(),
        None => {
            let e = String::new();
            assert(e@ =~= seq![]);
            e
        },
    }
}

/// The album that the collection makes of an item.
pub fn album_from_item(it: &CollectionItem) -> (r: Album)
    ensures
        album_of_item(r, it@),
{
    Album {
        item_id: collection_item_key(it),
        album_title: or_empty_exec(&it.item_title),
        artist_name: or_empty_exec(&it.band_name),
        item_url: or_empty_exec(&it.item_url),
        art_url: copy_opt(&it.item_art_url),
        date_added: copy_opt(&it.added),
        tracks: Vec::new(),
        about: None,
        credits: None,
        release_date: None,
        sale_item_id: it.sale_item_id,
    }
}

// ---------------------------------------------------------------------------
// Download pages
// ---------------------------------------------------------------------------

/// The sale id that a key of a page's `redownload_urls` names: the whole
/// number after its leading `p`.
pub open spec fn download_key_id(key: Seq<char>) -> Option<u64> {
    if key.len() > 0 && key[0] == 'p' {
        match uint_spec(key.drop_first()) {
            Some(n) => if n <= u64::MAX {
                Some(n as u64)
            } else {
                None
            },
            None => None,
        }
    } else {
        None
    }
}

/// Reads the sale id out of a `redownload_urls` key.
pub fn download_key_sale_id(key: &str) -> (r: Option<u64>)
    ensures
        r == download_key_id(key@),
{
    let cs = chars_of(key);
    if cs.len() > 0 && cs[0] == 'p' {
        let rest = slice_range(cs.as_slice(), 1, cs.len());
        assert(rest@ =~= key@.drop_first());
        parse_uint(rest.as_slice())
    } else {
        None
    }
}

/// Download pages keyed by sale id, their addresses taken by characters.
pub open spec fn id_urls_view(urls: Seq<(u64, String)>) -> Seq<(u64, Seq<char>)> {
    urls.map_values(|p: (u64, String)| (p.0, p.1@))
}

/// The first download page listed for an id.
pub open spec fn url_for_id(urls: Seq<(u64, Seq<char>)>, id: u64) -> Option<Seq<char>>
    decreases urls.len(),
{
    if urls.len() == 0 {
        None
    } else if urls[0].0 == id {
        Some(urls[0].1)
    } else {
        url_for_id(urls.drop_first(), id)
    }
}

/// The download page of an album: the one of its sale id, else the one of
/// its item id.
pub open spec fn download_page_of(sale_item_id: Option<u64>, item_id: u64, urls: Seq<(u64, Seq<char>)>) -> Option<Seq<char>> {
    match sale_item_id {
        Some(s) => match url_for_id(urls, s) {
            Some(u) => Some(u),
            None => url_for_id(urls, item_id),
        },
        None => url_for_id(urls, item_id),
    }
}

/// Looks up the first download page listed for an id.
fn find_url(urls: &[(u64, String)], id: u64) -> (r: Option<String>)
    ensures
        match r {
            Some(u) => url_for_id(id_urls_view(urls@), id) == Some(u@),
            None => url_for_id(id_urls_view(urls@), id) is None,
        },
{
    let ghost v = id_urls_view(urls@);
    assert(v.skip(0) =~= v);
    let mut i: usize = 0;
    while i < urls.len()
        invariant
            i <= urls@.len(),
            v == id_urls_view(urls@),
            v.len() == urls@.len(),
            url_for_id(v, id) == url_for_id(v.skip(i as int), id),
        decreases urls@.len() - i,
    {
        assert(v.skip(i as int)[0] == v[i as int]);
        assert(v.skip(i as int).drop_first() =~= v.skip(i + 1));
        if urls[i].0 == id {
            return Some(urls[i].1.clone());
        }
        i += 1;
    }
    None
}

/// The download page of an album, if the collection listed one.
pub fn download_url_for(album: &Album, urls: &[(u64, String)]) -> (r: Option<String>)
    ensures
        match r {
            Some(u) => download_page_of(album.sale_item_id, album.item_id, id_urls_view(urls@)) == Some(u@),
            None => download_page_of(album.sale_item_id, album.item_id, id_urls_view(urls@)) is None,
        },
{
    match album.sale_item_id {
        Some(s) => match find_url(urls, s) {
            Some(u) => Some(u),
            None => find_url(urls, album.item_id),
        },
        None => find_url(urls, album.item_id),
    }
}

} // verus!
