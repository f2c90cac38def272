//! The artist column: the collection's artists, each named once whatever
//! the letter case, in alphabetical order, with the albums of each.
use vstd::prelude::*;
use crate::models::Album;
use crate::text::{chars_of, to_lowercase, lowercase_of};

verus! {

/// Lexicographic order of texts by character code, the order of `String`'s
/// `cmp` (UTF-8 keeps the order of code points).
pub open spec fn lex_lt(a: Seq<char>, b: Seq<char>) -> bool
    decreases a.len(),
{
    if a.len() == 0 {
        b.len() > 0
    } else if b.len() == 0 {
        false
    } else if a[0] != b[0] {
        (a[0] as u32) < (b[0] as u32)
    } else {
        lex_lt(a.drop_first(), b.drop_first())
    }
}

/// No text comes before itself.
pub proof fn lemma_lex_irreflexive(a: Seq<char>)
    ensures
        !lex_lt(a, a),
    decreases a.len(),
{
    if a.len() > 0 {
        lemma_lex_irreflexive(a.drop_first());
    }
}

/// The order is transitive.
pub proof fn lemma_lex_transitive(a: Seq<char>, b: Seq<char>, c: Seq<char>)
    requires
        lex_lt(a, b),
        lex_lt(b, c),
    ensures
        lex_lt(a, c),
    decreases a.len(),
{
    if a.len() > 0 && b.len() > 0 && c.len() > 0 && a[0] == b[0] && b[0] == c[0] {
        lemma_lex_transitive(a.drop_first(), b.drop_first(), c.drop_first());
    }
}

/// Of two different texts one comes first, and not both.
pub proof fn lemma_lex_total(a: Seq<char>, b: Seq<char>)
    ensures
        a != b ==> (lex_lt(a, b) || lex_lt(b, a)),
        !(lex_lt(a, b) && lex_lt(b, a)),
    decreases a.len(),
{
    if a.len() > 0 && b.len() > 0 && a[0] == b[0] {
        lemma_lex_total(a.drop_first(), b.drop_first());
        if a.drop_first() == b.drop_first() {
            assert(a =~= seq![a[0]] + a.drop_first());
            assert(b =~= seq![b[0]] + b.drop_first());
            assert(a =~= b);
        }
    } else if a.len() == 0 && b.len() == 0 {
        assert(a =~= b);
    } else if a.len() > 0 && b.len() > 0 {
        lemma_char_code_injective(a[0], b[0]);
    }
}

/// Characters with the same code are the same character.
proof fn lemma_char_code_injective(a: char, b: char)
    ensures
        (a as u32) == (b as u32) ==> a == b,
{
}

/// Compares two texts in `lex_lt` order.
pub fn lex_less(a: &[char], b: &[char]) -> (r: bool)
    ensures
        r == lex_lt(a@, b@),
{
    let mut i: usize = 0;
    assert(a@.skip(0) =~= a@);
    assert(b@.skip(0) =~= b@);
    while i < a.len() && i < b.len() && a[i] == b[i]
        invariant
            i <= a@.len(),
            i <= b@.len(),
            lex_lt(a@, b@) == lex_lt(a@.skip(i as int), b@.skip(i as int)),
        decreases a@.len() - i,
    {
        assert(a@.skip(i as int).drop_first() =~= a@.skip(i + 1));
        assert(b@.skip(i as int).drop_first() =~= b@.skip(i + 1));
        i += 1;
    }
    if i == a.len() {
        i < b.len()
    } else if i == b.len() {
        false
    } else {
        assert(a@.skip(i as int)[0] == a@[i as int]);
        assert(b@.skip(i as int)[0] == b@[i as int]);
        (a[i] as u32) < (b[i] as u32)
    }
}

/// The key that groups an artist name: its lower-case form.
pub open spec fn artist_key(name: Seq<char>) -> Seq<char> {
    lowercase_of(name)
}

/// The positions of the albums, among `names` (their artist names), whose
/// artist has the key `k`, in increasing order.
pub open spec fn positions_with_key(names: Seq<Seq<char>>, k: Seq<char>) -> Seq<usize>
    decreases names.len(),
{
    if names.len() == 0 {
        seq![]
    } else {
        let p = positions_with_key(names.drop_last(), k);
        if artist_key(names.last()) == k {
            p.push((names.len() - 1) as usize)
        } else {
            p
        }
    }
}

/// The artist names of a list of albums.
pub open spec fn artist_names(albums: Seq<Album>) -> Seq<Seq<char>> {
    albums.map_values(|a: Album| a.artist_name@)
}

/// The artists of a collection and the albums of each.
pub struct ArtistIndex {
    /// Artist names as first met in the collection, sorted by their keys.
    pub artists: Vec<String>,
    /// The key of each artist.
    pub keys: Vec<String>,
    /// The positions in the collection of each artist's albums.
    pub albums_by_artist: Vec<Vec<usize>>,
}

impl ArtistIndex {
    /// The index describes the albums whose artist names are `names`: one
    /// artist per key, keys in strictly increasing order, each artist named
    /// as its first album names it, and its albums all those of its key.
    pub open spec fn describes(&self, names: Seq<Seq<char>>) -> bool {
        &&& self.artists@.len() == self.keys@.len()
        &&& self.albums_by_artist@.len() == self.keys@.len()
        &&& forall|i: int, j: int|
            0 <= i < j < self.keys@.len() ==> lex_lt(#[trigger] self.keys@[i]@, #[trigger] self.keys@[j]@)
        &&& forall|i: int|
            0 <= i < self.keys@.len() ==> #[trigger] self.keys@[i]@ == artist_key(self.artists@[i]@)
        &&& forall|i: int|
            0 <= i < self.keys@.len() ==> #[trigger] self.albums_by_artist@[i]@ == positions_with_key(
                names,
                self.keys@[i]@,
            )
        &&& forall|i: int|
            0 <= i < self.keys@.len() ==> self.albums_by_artist@[i]@.len() > 0
                && #[trigger] self.artists@[i]@ == names[self.albums_by_artist@[i]@[0] as int]
        &&& forall|j: int|
            0 <= j < names.len() ==> exists|i: int|
                0 <= i < self.keys@.len() && #[trigger] self.keys@[i]@ == artist_key(#[trigger] names[j])
    }

    /// An index of no albums.
    pub fn new() -> (r: Self)
        ensures
            r.describes(seq![]),
            r.artists@.len() == 0,
    {
        ArtistIndex { artists: Vec::new(), keys: Vec::new(), albums_by_artist: Vec::new() }
    }

    /// The positions of the albums of the artist at `artist_idx`; none for a
    /// position past the artists.
    pub fn albums_for(&self, artist_idx: usize) -> (r: &[usize])
        ensures
            r@ == if artist_idx < self.albums_by_artist@.len() {
                self.albums_by_artist@[artist_idx as int]@
            } else {
                seq![]
            },
    {
        if artist_idx < self.albums_by_artist.len() {
            self.albums_by_artist[artist_idx].as_slice()
        } else {
            let e: &[usize] = &[];
            assert(e@ =~= seq![]);
            e
        }
    }
}

/// Adding a name to the list adds its position to the positions of its key.
proof fn lemma_positions_push(names: Seq<Seq<char>>, name: Seq<char>, k: Seq<char>)
    ensures
        positions_with_key(names.push(name), k) == if artist_key(name) == k {
            positions_with_key(names, k).push(names.len() as usize)
        } else {
            positions_with_key(names, k)
        },
{
    assert(names.push(name).drop_last() =~= names);
}

/// The positions of a key are positions of the list, of names with that key.
proof fn lemma_positions_bound(names: Seq<Seq<char>>, k: Seq<char>)
    requires
        names.len() <= usize::MAX,
    ensures
        forall|x: int|
            0 <= x < positions_with_key(names, k).len() ==> #[trigger] positions_with_key(names, k)[x]
                < names.len() && artist_key(names[positions_with_key(names, k)[x] as int]) == k,
    decreases names.len(),
{
    if names.len() > 0 {
        lemma_positions_bound(names.drop_last(), k);
        let p = positions_with_key(names.drop_last(), k);
        assert forall|x: int| 0 <= x < positions_with_key(names, k).len() implies #[trigger] positions_with_key(
            names,
            k,
        )[x] < names.len() && artist_key(names[positions_with_key(names, k)[x] as int]) == k by {
            if x < p.len() {
                assert(positions_with_key(names, k)[x] == p[x]);
                assert(names[p[x] as int] == names.drop_last()[p[x] as int]);
            }
        }
    }
}

/// A key that no name has has no positions.
proof fn lemma_positions_empty(names: Seq<Seq<char>>, k: Seq<char>)
    requires
        forall|j: int| 0 <= j < names.len() ==> artist_key(#[trigger] names[j]) != k,
    ensures
        positions_with_key(names, k).len() == 0,
    decreases names.len(),
{
    if names.len() > 0 {
        assert forall|j: int| 0 <= j < names.drop_last().len() implies artist_key(#[trigger] names.drop_last()[j]) != k by {
            assert(names.drop_last()[j] == names[j]);
        }
        lemma_positions_empty(names.drop_last(), k);
        assert(artist_key(names[names.len() - 1]) != k);
    }
}

impl ArtistIndex {
    /// Indexes the artists of a list of albums.
    pub fn build(albums: &[Album]) -> (r: Self)
        ensures
            r.describes(artist_names(albums@)),
    {
        let mut idx = ArtistIndex::new();
        let ghost names = artist_names(albums@);
        let mut j: usize = 0;
        assert(names.take(0) =~= seq![]);
        while j < albums.len()
            invariant
                j <= albums@.len(),
                names == artist_names(albums@),
                idx.describes(names.take(j as int)),
            decreases albums@.len() - j,
        {
            assert(names.take(j + 1) =~= names.take(j as int).push(albums@[j as int].artist_name@));
            idx.add_album(&albums[j].artist_name, j, Ghost(names.take(j as int)));
            j += 1;
        }
        assert(names.take(j as int) =~= names);
        idx
    }

    /// Adds the album at position `j`, whose artist is `name`.
    fn add_album(&mut self, name: &String, j: usize, Ghost(prev): Ghost<Seq<Seq<char>>>)
        requires
            old(self).describes(prev),
            prev.len() == j,
        ensures
            final(self).describes(prev.push(name@)),
    {
        let key = to_lowercase(name.as_str());
        let kc = chars_of(key.as_str());
        let ghost k = key@;
        let ghost names = prev.push(name@);
        let mut p: usize = 0;
        while p < self.keys.len() && lex_less(chars_of(self.keys[p].as_str()).as_slice(), kc.as_slice())
            invariant
                p <= self.keys@.len(),
                self.describes(prev),
                kc@ == k,
                forall|i: int| 0 <= i < p ==> lex_lt(#[trigger] self.keys@[i]@, k),
            decreases self.keys@.len() - p,
        {
            p += 1;
        }
        let ghost old_self = *self;
        proof {
            assert forall|i: int| 0 <= i < self.keys@.len() implies #[trigger] positions_with_key(
                prev,
                self.keys@[i]@,
            ).len() > 0 by {
                assert(self.albums_by_artist@[i]@.len() > 0);
            }
            lemma_positions_bound(prev, k);
        }
        if p < self.keys.len() && self.keys[p] == key {
            let ghost g = self.albums_by_artist@[p as int]@;
            self.albums_by_artist[p].push(j);
            proof {
                lemma_positions_push(prev, name@, k);
                assert forall|i: int| 0 <= i < self.keys@.len() && i != p implies self.keys@[i]@ != k by {
                    if i < p {
                        lemma_lex_irreflexive(k);
                    } else {
                        assert(lex_lt(self.keys@[p as int]@, self.keys@[i]@));
                        lemma_lex_irreflexive(k);
                    }
                }
                assert forall|i: int| 0 <= i < self.keys@.len() implies #[trigger] self.albums_by_artist@[i]@
                    == positions_with_key(names, self.keys@[i]@) by {
                    lemma_positions_push(prev, name@, self.keys@[i]@);
                }
                assert forall|i: int| 0 <= i < self.keys@.len() implies self.albums_by_artist@[i]@.len() > 0
                    && #[trigger] self.artists@[i]@ == names[self.albums_by_artist@[i]@[0] as int] by {
                    let g0 = old_self.albums_by_artist@[i]@;
                    lemma_positions_bound(prev, self.keys@[i]@);
                    assert(g0[0] < prev.len());
                    assert(self.albums_by_artist@[i]@[0] == g0[0]);
                }
                assert forall|x: int| 0 <= x < names.len() implies exists|i: int|
                    0 <= i < self.keys@.len() && #[trigger] self.keys@[i]@ == artist_key(#[trigger] names[x]) by {
                    if x < prev.len() {
                        assert(names[x] == prev[x]);
                        let i = choose|i: int| 0 <= i < old_self.keys@.len() && #[trigger] old_self.keys@[i]@
                            == artist_key(#[trigger] prev[x]);
                        assert(self.keys@[i]@ == artist_key(names[x]));
                    } else {
                        assert(self.keys@[p as int]@ == artist_key(names[x]));
                    }
                }
            }
        } else {
            proof {
                // The key is new: it comes after the first `p` keys and before the rest.
                if p < self.keys@.len() {
                    lemma_lex_total(self.keys@[p as int]@, k);
                }
                assert forall|i: int| p <= i < self.keys@.len() implies lex_lt(k, #[trigger] self.keys@[i]@) by {
                    if i > p {
                        lemma_lex_transitive(k, self.keys@[p as int]@, self.keys@[i]@);
                    }
                }
                assert forall|x: int| 0 <= x < prev.len() implies artist_key(#[trigger] prev[x]) != k by {
                    let i = choose|i: int| 0 <= i < self.keys@.len() && #[trigger] self.keys@[i]@
                        == artist_key(#[trigger] prev[x]);
                    if i < p {
                        lemma_lex_irreflexive(k);
                    } else {
                        lemma_lex_irreflexive(k);
                    }
                }
                lemma_positions_empty(prev, k);
                lemma_positions_push(prev, name@, k);
            }
            let mut group: Vec<usize> = Vec::new();
            group.push(j);
            let ghost old_keys = self.keys@;
            let ghost old_artists = self.artists@;
            let ghost old_groups = self.albums_by_artist@;
            self.keys.insert(p, key);
            self.artists.insert(p, name.clone());
            self.albums_by_artist.insert(p, group);
            proof {
                assert(positions_with_key(names, k) =~= seq![j]);
                assert forall|a: int, b: int| 0 <= a < b < self.keys@.len() implies lex_lt(
                    #[trigger] self.keys@[a]@,
                    #[trigger] self.keys@[b]@,
                ) by {
                    if a < p && b == p {
                    } else if a < p && b > p {
                        assert(self.keys@[b]@ == old_keys[b - 1]@);
                    } else if a == p {
                        assert(self.keys@[b]@ == old_keys[b - 1]@);
                    } else if a > p {
                        assert(self.keys@[a]@ == old_keys[a - 1]@);
                        assert(self.keys@[b]@ == old_keys[b - 1]@);
                    }
                }
                assert forall|i: int| 0 <= i < self.keys@.len() implies #[trigger] self.keys@[i]@ == artist_key(
                    self.artists@[i]@,
                ) by {
                    if i > p {
                        assert(self.keys@[i] == old_keys[i - 1]);
                        assert(self.artists@[i] == old_artists[i - 1]);
                    }
                }
                assert forall|i: int| 0 <= i < self.keys@.len() implies #[trigger] self.albums_by_artist@[i]@
                    == positions_with_key(names, self.keys@[i]@) by {
                    if i != p {
                        let oi = if i < p { i } else { i - 1 };
                        assert(self.keys@[i] == old_keys[oi]);
                        assert(self.albums_by_artist@[i] == old_groups[oi]);
                        lemma_positions_push(prev, name@, old_keys[oi]@);
                        if oi < p {
                            lemma_lex_irreflexive(k);
                        } else {
                            lemma_lex_irreflexive(k);
                        }
                    }
                }
                assert forall|i: int| 0 <= i < self.keys@.len() implies self.albums_by_artist@[i]@.len() > 0
                    && #[trigger] self.artists@[i]@ == names[self.albums_by_artist@[i]@[0] as int] by {
                    if i != p {
                        let oi = if i < p { i } else { i - 1 };
                        assert(self.artists@[i] == old_artists[oi]);
                        assert(self.albums_by_artist@[i] == old_groups[oi]);
                        lemma_positions_bound(prev, old_keys[oi]@);
                        assert(old_groups[oi]@[0] < prev.len());
                    }
                }
                assert forall|x: int| 0 <= x < names.len() implies exists|i: int|
                    0 <= i < self.keys@.len() && #[trigger] self.keys@[i]@ == artist_key(#[trigger] names[x]) by {
                    if x < prev.len() {
                        assert(names[x] == prev[x]);
                        let i = choose|i: int| 0 <= i < old_keys.len() && #[trigger] old_keys[i]@
                            == artist_key(#[trigger] prev[x]);
                        let ni = if i < p { i } else { i + 1 };
                        assert(self.keys@[ni]@ == artist_key(names[x]));
                    } else {
                        assert(self.keys@[p as int]@ == artist_key(names[x]));
                    }
                }
            }
        }
    }
}

/// A name's position is among the positions of its key.
proof fn lemma_position_listed(names: Seq<Seq<char>>, j: int)
    requires
        0 <= j < names.len(),
        names.len() <= usize::MAX,
    ensures
        positions_with_key(names, artist_key(names[j])).contains(j as usize),
    decreases names.len(),
{
    let k = artist_key(names[j]);
    if j == names.len() - 1 {
        assert(positions_with_key(names, k).last() == j as usize);
    } else {
        assert(names.drop_last()[j] == names[j]);
        lemma_position_listed(names.drop_last(), j);
        let p = positions_with_key(names.drop_last(), k);
        let x = choose|x: int| 0 <= x < p.len() && p[x] == j as usize;
        assert(positions_with_key(names, k)[x] == j as usize);
    }
}

/// Every album of an indexed collection is listed under exactly one artist:
/// the one whose key is that of the album's artist name.
pub proof fn law_each_album_has_one_artist(idx: ArtistIndex, names: Seq<Seq<char>>, j: int)
    requires
        idx.describes(names),
        0 <= j < names.len(),
        names.len() <= usize::MAX,
    ensures
        exists|i: int| 0 <= i < idx.keys@.len() && idx.albums_by_artist@[i]@.contains(j as usize),
        forall|i1: int, i2: int|
            0 <= i1 < idx.keys@.len() && 0 <= i2 < idx.keys@.len() && idx.albums_by_artist@[i1]@.contains(j as usize)
                && idx.albums_by_artist@[i2]@.contains(j as usize) ==> i1 == i2,
{
    let i = choose|i: int| 0 <= i < idx.keys@.len() && #[trigger] idx.keys@[i]@ == artist_key(#[trigger] names[j]);
    assert(0 <= i < idx.keys@.len() && idx.keys@[i]@ == artist_key(names[j]));
    lemma_position_listed(names, j);
    assert(idx.albums_by_artist@[i]@ == positions_with_key(names, idx.keys@[i]@));
    assert forall|i1: int, i2: int|
        0 <= i1 < idx.keys@.len() && 0 <= i2 < idx.keys@.len() && idx.albums_by_artist@[i1]@.contains(j as usize)
            && idx.albums_by_artist@[i2]@.contains(j as usize) implies i1 == i2 by {
        lemma_positions_bound(names, idx.keys@[i1]@);
        lemma_positions_bound(names, idx.keys@[i2]@);
        let x1 = choose|x: int| 0 <= x < idx.albums_by_artist@[i1]@.len() && idx.albums_by_artist@[i1]@[x] == j as usize;
        let x2 = choose|x: int| 0 <= x < idx.albums_by_artist@[i2]@.len() && idx.albums_by_artist@[i2]@[x] == j as usize;
        assert(idx.albums_by_artist@[i1]@ == positions_with_key(names, idx.keys@[i1]@));
        assert(idx.albums_by_artist@[i2]@ == positions_with_key(names, idx.keys@[i2]@));
        assert(artist_key(names[j]) == idx.keys@[i1]@);
        assert(artist_key(names[j]) == idx.keys@[i2]@);
        if i1 < i2 {
            assert(lex_lt(idx.keys@[i1]@, idx.keys@[i2]@));
            lemma_lex_irreflexive(idx.keys@[i1]@);
        } else if i2 < i1 {
            assert(lex_lt(idx.keys@[i2]@, idx.keys@[i1]@));
            lemma_lex_irreflexive(idx.keys@[i2]@);
        }
    }
}

/// The album positions an index lists are positions of the collection.
pub proof fn law_listed_albums_exist(idx: ArtistIndex, names: Seq<Seq<char>>, i: int, x: int)
    requires
        idx.describes(names),
        names.len() <= usize::MAX,
        0 <= i < idx.keys@.len(),
        0 <= x < idx.albums_by_artist@[i]@.len(),
    ensures
        idx.albums_by_artist@[i]@[x] < names.len(),
{
    lemma_positions_bound(names, idx.keys@[i]@);
}

} // verus!
