use bcp::collection::{
    album_from_item, download_key_sale_id, download_url_for, chrono_like_timestamp, collection_token,
    parse_fan_info, CollectionItem, CollectionPager, CollectionResponse, FanInfoError,
};

fn item(sale: Option<u64>, id: Option<u64>, title: &str) -> CollectionItem {
    CollectionItem {
        sale_item_id: sale,
        item_id: id,
        item_title: Some(title.to_string()),
        band_name: Some("Band".to_string()),
        item_url: Some(format!("https://band.bandcamp.com/album/{}", title)),
        item_art_url: None,
        added: Some("01 Jan 2024 10:00:00 GMT".to_string()),
    }
}

fn page(items: Vec<CollectionItem>, more: bool, token: Option<&str>) -> CollectionResponse {
    CollectionResponse {
        items,
        more_available: more,
        last_token: token.map(|t| t.to_string()),
        redownload_urls: vec![],
    }
}

#[test]
fn fan_info_reads_id_and_name() {
    let body = r#"{"fan_id": 12345, "collection_summary": {"username": "someone"}}"#;
    assert_eq!(parse_fan_info(body), Ok((12345, "someone".to_string())));
}

#[test]
fn fan_info_without_username() {
    assert_eq!(parse_fan_info(r#"{"fan_id": 7}"#), Ok((7, "unknown".to_string())));
    assert_eq!(
        parse_fan_info(r#"{"fan_id": 7, "collection_summary": {"username": null}}"#),
        Ok((7, "unknown".to_string()))
    );
}

#[test]
fn fan_info_errors() {
    assert_eq!(parse_fan_info("not json"), Err(FanInfoError::BadJson));
    assert_eq!(parse_fan_info(r#"{"collection_summary": {}}"#), Err(FanInfoError::NoFanId));
    assert_eq!(parse_fan_info(r#"{"fan_id": "12"}"#), Err(FanInfoError::NoFanId));
    assert_eq!(parse_fan_info(r#"{"fan_id": -3}"#), Err(FanInfoError::NoFanId));
}

#[test]
fn tokens() {
    assert_eq!(chrono_like_timestamp(1700000000), "1700000000");
    assert_eq!(collection_token(None, 1700000000), "1700000000::a::");
    assert_eq!(collection_token(Some("99::b::"), 1700000000), "99::b::");
}

#[test]
fn pager_skips_ids_already_taken() {
    let mut pager = CollectionPager::new();
    let next = pager.add_page(&page(
        vec![item(Some(10), Some(1), "a"), item(None, Some(2), "b"), item(Some(10), Some(3), "c")],
        true,
        Some("tok"),
    ));
    assert_eq!(next.as_deref(), Some("tok"));
    assert_eq!(pager.albums.len(), 2);
    assert_eq!(pager.albums[0].item_id, 10);
    assert_eq!(pager.albums[1].item_id, 2);
    let next = pager.add_page(&page(vec![item(None, Some(2), "b"), item(None, None, "z")], false, Some("t2")));
    assert_eq!(next, None);
    assert_eq!(pager.albums.len(), 3);
    assert_eq!(pager.albums[2].item_id, 0);
    assert!(pager.seen.contains(&10) && pager.seen.contains(&2) && pager.seen.contains(&0));
    assert_eq!(pager.seen.len(), 3);
}

#[test]
fn album_from_an_item() {
    let a = album_from_item(&item(Some(55), Some(5), "Title"));
    assert_eq!(a.item_id, 55);
    assert_eq!(a.sale_item_id, Some(55));
    assert_eq!(a.album_title, "Title");
    assert_eq!(a.artist_name, "Band");
    assert_eq!(a.item_url, "https://band.bandcamp.com/album/Title");
    assert_eq!(a.art_url, None);
    assert_eq!(a.date_added.as_deref(), Some("01 Jan 2024 10:00:00 GMT"));
    assert!(a.tracks.is_empty());
    let mut bare = item(None, None, "x");
    bare.item_title = None;
    let b = album_from_item(&bare);
    assert_eq!(b.item_id, 0);
    assert_eq!(b.album_title, "");
}

#[test]
fn download_pages() {
    assert_eq!(download_key_sale_id("p123"), Some(123));
    assert_eq!(download_key_sale_id("123"), None);
    assert_eq!(download_key_sale_id("p"), None);
    assert_eq!(download_key_sale_id("pa1"), None);
    let urls = vec![(5, "https://dl/5".to_string()), (55, "https://dl/55".to_string()), (5, "https://dl/5b".to_string())];
    let a = album_from_item(&item(Some(55), Some(5), "t"));
    assert_eq!(download_url_for(&a, &urls).as_deref(), Some("https://dl/55"));
    let mut b = album_from_item(&item(None, Some(5), "t"));
    assert_eq!(download_url_for(&b, &urls).as_deref(), Some("https://dl/5"));
    b.sale_item_id = Some(9);
    assert_eq!(download_url_for(&b, &urls).as_deref(), Some("https://dl/5"));
    b.item_id = 7;
    assert_eq!(download_url_for(&b, &urls), None);
}
