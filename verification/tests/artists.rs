use bcp::artists::{lex_less, ArtistIndex};
use bcp::models::Album;

fn by(artist: &str) -> Album {
    Album {
        item_id: 0,
        album_title: String::new(),
        artist_name: artist.to_string(),
        item_url: String::new(),
        art_url: None,
        date_added: None,
        tracks: vec![],
        about: None,
        credits: None,
        release_date: None,
        sale_item_id: None,
    }
}

#[test]
fn artists_are_grouped_case_insensitively_and_sorted() {
    let albums = vec![by("Zed"), by("abba"), by("Beck"), by("ABBA"), by("zed")];
    let idx = ArtistIndex::build(&albums);
    assert_eq!(idx.artists, vec!["abba".to_string(), "Beck".to_string(), "Zed".to_string()]);
    assert_eq!(idx.keys, vec!["abba".to_string(), "beck".to_string(), "zed".to_string()]);
    assert_eq!(idx.albums_by_artist, vec![vec![1, 3], vec![2], vec![0, 4]]);
    assert_eq!(idx.albums_for(2), &[0, 4]);
    assert!(idx.albums_for(3).is_empty());
}

#[test]
fn empty_collection_has_no_artists() {
    let idx = ArtistIndex::build(&[]);
    assert!(idx.artists.is_empty());
    assert!(ArtistIndex::new().albums_by_artist.is_empty());
}

#[test]
fn lexicographic_order() {
    let a: Vec<char> = "abc".chars().collect();
    let b: Vec<char> = "abd".chars().collect();
    let p: Vec<char> = "ab".chars().collect();
    assert!(lex_less(&a, &b));
    assert!(!lex_less(&b, &a));
    assert!(lex_less(&p, &a));
    assert!(!lex_less(&a, &a));
}
