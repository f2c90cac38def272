use bcp::auth::{
    auth_file, bundle_id_to_browser, default_browser_from_plist, desktop_file_to_browser,
    detect_default_browser, find_identity_cookie, Browser,
};

#[test]
fn auth_file_sits_in_the_config_dir() {
    assert_eq!(auth_file("/home/me/.config/bcp"), "/home/me/.config/bcp/auth.json");
}

#[test]
fn bundle_ids() {
    assert_eq!(bundle_id_to_browser("org.mozilla.firefox"), Some(Browser::Firefox));
    assert_eq!(bundle_id_to_browser("com.google.chrome.canary"), Some(Browser::Chrome));
    assert_eq!(bundle_id_to_browser("com.microsoft.edgemac.dev"), Some(Browser::Edge));
    assert_eq!(bundle_id_to_browser("app.zen-browser.zen"), Some(Browser::Zen));
    assert_eq!(bundle_id_to_browser("com.apple.safari"), None);
}

#[test]
fn desktop_files() {
    assert_eq!(desktop_file_to_browser("firefox.desktop"), Some(Browser::Firefox));
    assert_eq!(desktop_file_to_browser("brave-browser.desktop"), Some(Browser::Brave));
    assert_eq!(desktop_file_to_browser("chromium"), Some(Browser::Chromium));
    assert_eq!(desktop_file_to_browser("vivaldi-stable.desktop"), Some(Browser::Vivaldi));
    assert_eq!(desktop_file_to_browser("org.gnome.Epiphany.desktop"), None);
    assert_eq!(desktop_file_to_browser(".desktop"), None);
}

#[test]
fn xdg_output_is_trimmed_and_lowercased() {
    assert_eq!(detect_default_browser("  Firefox.desktop\n"), Some(Browser::Firefox));
    assert_eq!(detect_default_browser("Google-Chrome.desktop\n"), Some(Browser::Chrome));
    assert_eq!(detect_default_browser(""), None);
}

#[test]
fn launch_services_plist() {
    let json = r#"{"LSHandlers": [
        {"LSHandlerContentType": "public.html", "LSHandlerRoleAll": "com.apple.safari"},
        {"LSHandlerURLScheme": "https", "LSHandlerRoleAll": "org.mozilla.firefox"},
        {"LSHandlerURLScheme": "http", "LSHandlerRoleAll": "Com.Brave.Browser"},
        {"LSHandlerURLScheme": "http", "LSHandlerRoleAll": "org.mozilla.firefox"}
    ]}"#;
    assert_eq!(default_browser_from_plist(json), Some(Browser::Brave));
    assert_eq!(default_browser_from_plist(r#"{"LSHandlers": []}"#), None);
    assert_eq!(default_browser_from_plist("garbage"), None);
    let unknown = r#"{"LSHandlers": [{"LSHandlerURLScheme": "http", "LSHandlerRoleAll": "com.apple.safari"},
        {"LSHandlerURLScheme": "http", "LSHandlerRoleAll": "org.mozilla.firefox"}]}"#;
    assert_eq!(default_browser_from_plist(unknown), None);
}

#[test]
fn identity_cookie_is_found() {
    let cookies = vec![
        ("session".to_string(), "abc".to_string()),
        ("identity".to_string(), "".to_string()),
        ("identity".to_string(), "7%09secret".to_string()),
        ("identity".to_string(), "later".to_string()),
    ];
    assert_eq!(find_identity_cookie(&cookies), Some("7%09secret".to_string()));
    assert_eq!(find_identity_cookie(&cookies[..2]), None);
    assert_eq!(find_identity_cookie(&[]), None);
}

#[test]
fn cookie_stores_searched() {
    assert_eq!(bcp::auth::cookie_domains(), vec![".bandcamp.com".to_string(), "bandcamp.com".to_string()]);
    let bases = bcp::auth::firefox_profile_bases("/home/me");
    assert_eq!(bases.len(), 8);
    assert_eq!(bases[0], "/home/me/Library/Application Support/Firefox");
    assert_eq!(bases[1], "/home/me/.mozilla/firefox");
    assert_eq!(bases[7], "/home/me/.waterfox");
    assert_eq!(bcp::auth::firefox_profile_bases("")[3], ".zen");
    assert_eq!(
        bcp::auth::profile_search_dirs("/p/zen"),
        ("/p/zen".to_string(), "/p/zen/Profiles".to_string())
    );
    assert_eq!(bcp::auth::cookie_db_file("/p/zen/abc.default"), "/p/zen/abc.default/cookies.sqlite");
}
