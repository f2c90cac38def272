//! Logging in: which browser is the default one, and which of its cookies
//! is the Bandcamp login. Reading the browser's files and running the system
//! tools is left to the program around the library.
use vstd::prelude::*;
use crate::config::{join_path, join_spec};
use crate::json::{Json, JsonView, json_view, json_document, parse_json, get, get_spec};
use crate::text::{chars_of, string_of, str_eq, trim, trim_spec, to_lowercase, lowercase_of, slice_range};

verus! {

/// The file of the stored login, in the configuration directory.
pub fn auth_file(config_dir: &str) -> (r: String)
    ensures
        r@ == join_spec(config_dir@, "auth.json"@),
{
    join_path(config_dir, "auth.json")
}

/// The browsers whose cookies can be read.
#[derive(PartialEq, Eq, Structural, Clone, Copy, Debug)]
pub enum Browser {
    Firefox,
    Zen,
    LibreWolf,
    Waterfox,
    Chrome,
    Chromium,
    Brave,
    Edge,
    Vivaldi,
    Opera,
}

/// The browser of a macOS application bundle id.
pub open spec fn bundle_browser(id: Seq<char>) -> Option<Browser> {
    if id == "org.mozilla.firefox"@ || id == "org.mozilla.firefoxdeveloperedition"@ || id == "org.mozilla.nightly"@ {
        Some(Browser::Firefox)
    } else if id == "app.zen-browser.zen"@ || id == "org.zen-browser.zen"@ {
        Some(Browser::Zen)
    } else if id == "io.gitlab.librewolf-community"@ {
        Some(Browser::LibreWolf)
    } else if id == "net.waterfox.waterfox"@ || id == "org.waterfox.waterfox"@ {
        Some(Browser::Waterfox)
    } else if id == "com.google.chrome"@ || id == "com.google.chrome.canary"@ {
        Some(Browser::Chrome)
    } else if id == "org.chromium.chromium"@ {
        Some(Browser::Chromium)
    } else if id == "com.brave.browser"@ || id == "com.brave.browser.nightly"@ {
        Some(Browser::Brave)
    } else if id == "com.microsoft.edgemac"@ || id == "com.microsoft.edgemac.beta"@ || id == "com.microsoft.edgemac.dev"@ {
        Some(Browser::Edge)
    } else if id == "com.vivaldi.vivaldi"@ {
        Some(Browser::Vivaldi)
    } else if id == "com.operasoftware.opera"@ {
        Some(Browser::Opera)
    } else {
        None
    }
}

/// The browser of a macOS application bundle id.
pub fn bundle_id_to_browser(id: &str) -> (r: Option<Browser>)
    ensures
        r == bundle_browser(id@),
{
    if str_eq(id, "org.mozilla.firefox") || str_eq(id, "org.mozilla.firefoxdeveloperedition") || str_eq(id, "org.mozilla.nightly") {
        Some(Browser::Firefox)
    } else if str_eq(id, "app.zen-browser.zen") || str_eq(id, "org.zen-browser.zen") {
        Some(Browser::Zen)
    } else if str_eq(id, "io.gitlab.librewolf-community") {
        Some(Browser::LibreWolf)
    } else if str_eq(id, "net.waterfox.waterfox") || str_eq(id, "org.waterfox.waterfox") {
        Some(Browser::Waterfox)
    } else if str_eq(id, "com.google.chrome") || str_eq(id, "com.google.chrome.canary") {
        Some(Browser::Chrome)
    } else if str_eq(id, "org.chromium.chromium") {
        Some(Browser::Chromium)
    } else if str_eq(id, "com.brave.browser") || str_eq(id, "com.brave.browser.nightly") {
        Some(Browser::Brave)
    } else if str_eq(id, "com.microsoft.edgemac") || str_eq(id, "com.microsoft.edgemac.beta") || str_eq(id, "com.microsoft.edgemac.dev") {
        Some(Browser::Edge)
    } else if str_eq(id, "com.vivaldi.vivaldi") {
        Some(Browser::Vivaldi)
    } else if str_eq(id, "com.operasoftware.opera") {
        Some(Browser::Opera)
    } else {
        None
    }
}

/// A desktop file name without its `.desktop` suffix.
pub open spec fn desktop_stem(desktop: Seq<char>) -> Seq<char> {
    let suffix = ".desktop"@;
    if desktop.len() >= suffix.len() && desktop.skip(desktop.len() - suffix.len()) == suffix {
        desktop.take(desktop.len() - suffix.len())
    } else {
        desktop
    }
}

/// The browser of a freedesktop desktop file name.
pub open spec fn desktop_browser(desktop: Seq<char>) -> Option<Browser> {
    let stem = desktop_stem(desktop);
    if stem == "firefox"@ || stem == "firefox-esr"@ || stem == "firefox_firefox"@ {
        Some(Browser::Firefox)
    } else if stem == "zen"@ || stem == "zen-browser"@ || stem == "app.zen_browser.zen"@ {
        Some(Browser::Zen)
    } else if stem == "librewolf"@ || stem == "io.gitlab.librewolf-community"@ {
        Some(Browser::LibreWolf)
    } else if stem == "waterfox"@ {
        Some(Browser::Waterfox)
    } else if stem == "google-chrome"@ || stem == "google-chrome-stable"@ {
        Some(Browser::Chrome)
    } else if stem == "chromium"@ || stem == "chromium-browser"@ {
        Some(Browser::Chromium)
    } else if stem == "brave-browser"@ || stem == "brave"@ {
        Some(Browser::Brave)
    } else if stem == "microsoft-edge"@ || stem == "microsoft-edge-stable"@ {
        Some(Browser::Edge)
    } else if stem == "vivaldi"@ || stem == "vivaldi-stable"@ {
        Some(Browser::Vivaldi)
    } else if stem == "opera"@ {
        Some(Browser::Opera)
    } else {
        None
    }
}

/// The browser of a freedesktop desktop file name.
pub fn desktop_file_to_browser(desktop: &str) -> (r: Option<Browser>)
    ensures
        r == desktop_browser(desktop@),
{
    let d = chars_of(desktop);
    let suffix = chars_of(".desktop");
    proof {
        reveal_strlit(".desktop");
    }
    let stem_v = if d.len() >= suffix.len() && crate::text::chars_eq(
        slice_range(d.as_slice(), d.len() - suffix.len(), d.len()).as_slice(),
        suffix.as_slice(),
    ) {
        slice_range(d.as_slice(), 0, d.len() - suffix.len())
    } else {
        d
    };
    proof {
        assert(desktop@.skip(desktop@.len() - 8) =~= desktop@.subrange(desktop@.len() - 8, desktop@.len() as int));
        assert(desktop@.take(desktop@.len() - 8) =~= desktop@.subrange(0, desktop@.len() - 8));
    }
    assert(stem_v@ == desktop_stem(desktop@));
    let stem = string_of(stem_v.as_slice());
    let s = stem.as_str();
    if str_eq(s, "firefox") || str_eq(s, "firefox-esr") || str_eq(s, "firefox_firefox") {
        Some(Browser::Firefox)
    } else if str_eq(s, "zen") || str_eq(s, "zen-browser") || str_eq(s, "app.zen_browser.zen") {
        Some(Browser::Zen)
    } else if str_eq(s, "librewolf") || str_eq(s, "io.gitlab.librewolf-community") {
        Some(Browser::LibreWolf)
    } else if str_eq(s, "waterfox") {
        Some(Browser::Waterfox)
    } else if str_eq(s, "google-chrome") || str_eq(s, "google-chrome-stable") {
        Some(Browser::Chrome)
    } else if str_eq(s, "chromium") || str_eq(s, "chromium-browser") {
        Some(Browser::Chromium)
    } else if str_eq(s, "brave-browser") || str_eq(s, "brave") {
        Some(Browser::Brave)
    } else if str_eq(s, "microsoft-edge") || str_eq(s, "microsoft-edge-stable") {
        Some(Browser::Edge)
    } else if str_eq(s, "vivaldi") || str_eq(s, "vivaldi-stable") {
        Some(Browser::Vivaldi)
    } else if str_eq(s, "opera") {
        Some(Browser::Opera)
    } else {
        None
    }
}

/// The default browser from what `xdg-settings get default-web-browser`
/// printed: the desktop file named, trimmed and lower-cased.
pub open spec fn xdg_default_browser(output: Seq<char>) -> Option<Browser> {
    desktop_browser(lowercase_of(trim_spec(output)))
}

/// The default browser named by `xdg-settings get default-web-browser`.
pub fn detect_default_browser(xdg_output: &str) -> (r: Option<Browser>)
    ensures
        r == xdg_default_browser(xdg_output@),
{
    let t = trim(chars_of(xdg_output).as_slice());
    let ts = string_of(t.as_slice());
    let lower = to_lowercase(ts.as_str());
    desktop_file_to_browser(lower.as_str())
}

/// Whether a JSON value is the string `s`.
pub open spec fn is_str(v: Option<JsonView>, s: Seq<char>) -> bool {
    v == Some(JsonView::Str(s))
}

/// The bundle id that a launch-services handler names for the `http`
/// scheme, lower-cased; none for a handler of another scheme or without a
/// string `LSHandlerRoleAll`.
pub open spec fn http_handler(h: JsonView) -> Option<Seq<char>> {
    if is_str(get_spec(h, "LSHandlerURLScheme"@), "http"@) {
        match get_spec(h, "LSHandlerRoleAll"@) {
            Some(JsonView::Str(id)) => Some(lowercase_of(id)),
            _ => None,
        }
    } else {
        None
    }
}

/// The first handler, in order, that names an `http` bundle id.
pub open spec fn first_http_handler(hs: Seq<JsonView>) -> Option<Seq<char>>
    decreases hs.len(),
{
    if hs.len() == 0 {
        None
    } else {
        match http_handler(hs[0]) {
            Some(id) => Some(id),
            None => first_http_handler(hs.drop_first()),
        }
    }
}

/// The default browser from the launch-services preferences (as JSON): the
/// bundle id of the first `http` handler of `LSHandlers`.
pub open spec fn launch_services_browser(doc: JsonView) -> Option<Browser> {
    match get_spec(doc, "LSHandlers"@) {
        Some(JsonView::Array(hs)) => match first_http_handler(hs) {
            Some(id) => bundle_browser(id),
            None => None,
        },
        _ => None,
    }
}

/// The bundle id of a handler, if it handles `http`.
fn http_handler_exec(h: &Json) -> (r: Option<String>)
    ensures
        match r {
            Some(id) => http_handler(json_view(*h)) == Some(id@),
            None => http_handler(json_view(*h)) is None,
        },
{
    let scheme_ok = match get(h, "LSHandlerURLScheme") {
        Some(Json::Str(s)) => str_eq(s.as_str(), "http"),
        _ => false,
    };
    if !scheme_ok {
        return None;
    }
    match get(h, "LSHandlerRoleAll") {
        Some(Json::Str(id)) => Some(to_lowercase(id.as_str())),
        _ => None,
    }
}

/// The default browser from the parsed launch-services preferences.
pub fn browser_from_launch_services(doc: &Json) -> (r: Option<Browser>)
    ensures
        r == launch_services_browser(json_view(*doc)),
{
    let hs = match get(doc, "LSHandlers") {
        Some(Json::Array(hs)) => hs,
        _ => return None,
    };
    let ghost hv = crate::json::json_view_seq(hs@);
    proof {
        crate::json::lemma_view_seq_len(hs@);
        assert(hv.skip(0) =~= hv);
    }
    let mut i: usize = 0;
    while i < hs.len()
        invariant
            i <= hs@.len(),
            hv == crate::json::json_view_seq(hs@),
            hv.len() == hs@.len(),
            get_spec(json_view(*doc), "LSHandlers"@) == Some(JsonView::Array(hv)),
            first_http_handler(hv) == first_http_handler(hv.skip(i as int)),
        decreases hs@.len() - i,
    {
        proof {
            crate::json::lemma_view_seq_index(hs@, i as int);
            assert(hv.skip(i as int)[0] == hv[i as int]);
            assert(hv.skip(i as int).drop_first() =~= hv.skip(i + 1));
        }
        match http_handler_exec(&hs[i]) {
            Some(id) => return bundle_id_to_browser(id.as_str()),
            None => {},
        }
        i += 1;
    }
    None
}

/// The default browser from the launch-services preferences, as the JSON
/// text `plutil` prints; none when the text is not JSON.
pub fn default_browser_from_plist(json_text: &str) -> (r: Option<Browser>)
    ensures
        match json_document(json_text@) {
            Some(doc) => r == launch_services_browser(doc),
            None => r is None,
        },
{
    match parse_json(json_text) {
        Ok(doc) => browser_from_launch_services(&doc),
        Err(_) => None,
    }
}

/// The value of the first cookie named `identity` that is not empty.
pub open spec fn identity_cookie(cookies: Seq<(Seq<char>, Seq<char>)>) -> Option<Seq<char>>
    decreases cookies.len(),
{
    if cookies.len() == 0 {
        None
    } else if cookies[0].0 == "identity"@ && cookies[0].1.len() > 0 {
        Some(cookies[0].1)
    } else {
        identity_cookie(cookies.drop_first())
    }
}

/// Finds the login cookie among a browser's cookies, given as name and
/// value.
pub fn find_identity_cookie(cookies: &[(String, String)]) -> (r: Option<String>)
    ensures
        match r {
            Some(v) => identity_cookie(crate::models::pairs_view(cookies@)) == Some(v@),
            None => identity_cookie(crate::models::pairs_view(cookies@)) is None,
        },
{
    let ghost cv = crate::models::pairs_view(cookies@);
    assert(cv.skip(0) =~= cv);
    let mut i: usize = 0;
    while i < cookies.len()
        invariant
            i <= cookies@.len(),
            cv == crate::models::pairs_view(cookies@),
            cv.len() == cookies@.len(),
            identity_cookie(cv) == identity_cookie(cv.skip(i as int)),
        decreases cookies@.len() - i,
    {
        assert(cv.skip(i as int)[0] == cv[i as int]);
        assert(cv.skip(i as int).drop_first() =~= cv.skip(i + 1));
        if str_eq(cookies[i].0.as_str(), "identity") && !cookies[i].1.as_str().is_empty() {
            return Some(cookies[i].1.clone());
        }
        i += 1;
    }
    None
}

// ---------------------------------------------------------------------------
// Where cookies are looked for
// ---------------------------------------------------------------------------

/// The cookie domains of Bandcamp.
pub open spec fn cookie_domains_spec() -> Seq<Seq<char>> {
    seq![".bandcamp.com"@, "bandcamp.com"@]
}

/// The domains whose cookies are read.
pub fn cookie_domains() -> (r: Vec<String>)
    ensures
        r@.len() == 2,
        forall|k: int| 0 <= k < 2 ==> #[trigger] r@[k]@ == cookie_domains_spec()[k],
{
    let v = vec![".bandcamp.com".to_owned(), "bandcamp.com".to_owned()];
    v
}

/// The profile directories of the Firefox-based browsers, under the home
/// directory, in the order they are searched when the default browser gave
/// no cookie: Firefox, Zen, LibreWolf, Waterfox, each at its macOS place
/// and then at its Linux one.
pub open spec fn firefox_bases_spec(home: Seq<char>) -> Seq<Seq<char>> {
    seq![
        join_spec(home, "Library/Application Support/Firefox"@),
        join_spec(home, ".mozilla/firefox"@),
        join_spec(home, "Library/Application Support/zen"@),
        join_spec(home, ".zen"@),
        join_spec(home, "Library/Application Support/librewolf"@),
        join_spec(home, ".librewolf"@),
        join_spec(home, "Library/Application Support/waterfox"@),
        join_spec(home, ".waterfox"@),
    ]
}

/// The profile directories of the Firefox-based browsers.
pub fn firefox_profile_bases(home: &str) -> (r: Vec<String>)
    ensures
        r@.len() == 8,
        forall|k: int| 0 <= k < 8 ==> #[trigger] r@[k]@ == firefox_bases_spec(home@)[k],
{
    let v = vec![
        join_path(home, "Library/Application Support/Firefox"),
        join_path(home, ".mozilla/firefox"),
        join_path(home, "Library/Application Support/zen"),
        join_path(home, ".zen"),
        join_path(home, "Library/Application Support/librewolf"),
        join_path(home, ".librewolf"),
        join_path(home, "Library/Application Support/waterfox"),
        join_path(home, ".waterfox"),
    ];
    v
}

/// Where profiles sit under a browser's directory: the directory itself,
/// then its `Profiles` subdirectory.
pub fn profile_search_dirs(base: &str) -> (r: (String, String))
    ensures
        r.0@ == base@,
        r.1@ == join_spec(base@, "Profiles"@),
{
    (base.to_owned(), join_path(base, "Profiles"))
}

/// The cookie database of a profile.
pub fn cookie_db_file(profile_dir: &str) -> (r: String)
    ensures
        r@ == join_spec(profile_dir@, "cookies.sqlite"@),
{
    join_path(profile_dir, "cookies.sqlite")
}

/// The macOS bundle ids that the player recognises, each with its browser:
/// the release, developer and nightly builds of Firefox, Zen, LibreWolf,
/// Waterfox, Chrome and Chrome Canary, Chromium, Brave and Brave Nightly,
/// Edge with its beta and dev channels, Vivaldi and Opera.
pub proof fn law_known_bundle_ids()
    ensures
        bundle_browser("org.mozilla.firefox"@) == Some(Browser::Firefox),
        bundle_browser("org.mozilla.firefoxdeveloperedition"@) == Some(Browser::Firefox),
        bundle_browser("org.mozilla.nightly"@) == Some(Browser::Firefox),
        bundle_browser("app.zen-browser.zen"@) == Some(Browser::Zen),
        bundle_browser("org.zen-browser.zen"@) == Some(Browser::Zen),
        bundle_browser("io.gitlab.librewolf-community"@) == Some(Browser::LibreWolf),
        bundle_browser("net.waterfox.waterfox"@) == Some(Browser::Waterfox),
        bundle_browser("org.waterfox.waterfox"@) == Some(Browser::Waterfox),
        bundle_browser("com.google.chrome"@) == Some(Browser::Chrome),
        bundle_browser("com.google.chrome.canary"@) == Some(Browser::Chrome),
        bundle_browser("org.chromium.chromium"@) == Some(Browser::Chromium),
        bundle_browser("com.brave.browser"@) == Some(Browser::Brave),
        bundle_browser("com.brave.browser.nightly"@) == Some(Browser::Brave),
        bundle_browser("com.microsoft.edgemac"@) == Some(Browser::Edge),
        bundle_browser("com.microsoft.edgemac.beta"@) == Some(Browser::Edge),
        bundle_browser("com.microsoft.edgemac.dev"@) == Some(Browser::Edge),
        bundle_browser("com.vivaldi.vivaldi"@) == Some(Browser::Vivaldi),
        bundle_browser("com.operasoftware.opera"@) == Some(Browser::Opera),
{
    reveal_strlit("org.mozilla.firefox");
    reveal_strlit("org.mozilla.firefoxdeveloperedition");
    reveal_strlit("org.mozilla.nightly");
    reveal_strlit("app.zen-browser.zen");
    reveal_strlit("org.zen-browser.zen");
    reveal_strlit("io.gitlab.librewolf-community");
    reveal_strlit("net.waterfox.waterfox");
    reveal_strlit("org.waterfox.waterfox");
    reveal_strlit("com.google.chrome");
    reveal_strlit("com.google.chrome.canary");
    reveal_strlit("org.chromium.chromium");
    reveal_strlit("com.brave.browser");
    reveal_strlit("com.brave.browser.nightly");
    reveal_strlit("com.microsoft.edgemac");
    reveal_strlit("com.microsoft.edgemac.beta");
    reveal_strlit("com.microsoft.edgemac.dev");
    reveal_strlit("com.vivaldi.vivaldi");
    reveal_strlit("com.operasoftware.opera");
    assert("org.mozilla.firefox"@.len() == 19);
    assert("org.mozilla.firefoxdeveloperedition"@.len() == 35);
    assert("org.mozilla.nightly"@.len() == 19);
    assert("app.zen-browser.zen"@.len() == 19);
    assert("org.zen-browser.zen"@.len() == 19);
    assert("io.gitlab.librewolf-community"@.len() == 29);
    assert("net.waterfox.waterfox"@.len() == 21);
    assert("org.waterfox.waterfox"@.len() == 21);
    assert("com.google.chrome"@.len() == 17);
    assert("com.google.chrome.canary"@.len() == 24);
    assert("org.chromium.chromium"@.len() == 21);
    assert("com.brave.browser"@.len() == 17);
    assert("com.brave.browser.nightly"@.len() == 25);
    assert("com.microsoft.edgemac"@.len() == 21);
    assert("com.microsoft.edgemac.beta"@.len() == 26);
    assert("com.microsoft.edgemac.dev"@.len() == 25);
    assert("com.vivaldi.vivaldi"@.len() == 19);
    assert("com.operasoftware.opera"@.len() == 23);
    assert("org.mozilla.firefox"@[12] != "org.mozilla.nightly"@[12]);
    assert("org.mozilla.firefox"@[0] != "app.zen-browser.zen"@[0]);
    assert("org.mozilla.firefox"@[4] != "org.zen-browser.zen"@[4]);
    assert("org.mozilla.firefox"@[0] != "com.vivaldi.vivaldi"@[0]);
    assert("org.mozilla.nightly"@[0] != "app.zen-browser.zen"@[0]);
    assert("org.mozilla.nightly"@[4] != "org.zen-browser.zen"@[4]);
    assert("org.mozilla.nightly"@[0] != "com.vivaldi.vivaldi"@[0]);
    assert("app.zen-browser.zen"@[0] != "org.zen-browser.zen"@[0]);
    assert("app.zen-browser.zen"@[0] != "com.vivaldi.vivaldi"@[0]);
    assert("org.zen-browser.zen"@[0] != "com.vivaldi.vivaldi"@[0]);
    assert("net.waterfox.waterfox"@[0] != "org.waterfox.waterfox"@[0]);
    assert("net.waterfox.waterfox"@[0] != "org.chromium.chromium"@[0]);
    assert("net.waterfox.waterfox"@[0] != "com.microsoft.edgemac"@[0]);
    assert("org.waterfox.waterfox"@[4] != "org.chromium.chromium"@[4]);
    assert("org.waterfox.waterfox"@[0] != "com.microsoft.edgemac"@[0]);
    assert("com.google.chrome"@[4] != "com.brave.browser"@[4]);
    assert("org.chromium.chromium"@[0] != "com.microsoft.edgemac"@[0]);
    assert("com.brave.browser.nightly"@[4] != "com.microsoft.edgemac.dev"@[4]);
}

/// No other bundle id is taken for a browser.
pub proof fn law_other_bundle_ids_unknown(id: Seq<char>)
    requires
        bundle_browser(id) is Some,
    ensures
        ({
            ||| id == "org.mozilla.firefox"@
            ||| id == "org.mozilla.firefoxdeveloperedition"@
            ||| id == "org.mozilla.nightly"@
            ||| id == "app.zen-browser.zen"@
            ||| id == "org.zen-browser.zen"@
            ||| id == "io.gitlab.librewolf-community"@
            ||| id == "net.waterfox.waterfox"@
            ||| id == "org.waterfox.waterfox"@
            ||| id == "com.google.chrome"@
            ||| id == "com.google.chrome.canary"@
            ||| id == "org.chromium.chromium"@
            ||| id == "com.brave.browser"@
            ||| id == "com.brave.browser.nightly"@
            ||| id == "com.microsoft.edgemac"@
            ||| id == "com.microsoft.edgemac.beta"@
            ||| id == "com.microsoft.edgemac.dev"@
            ||| id == "com.vivaldi.vivaldi"@
            ||| id == "com.operasoftware.opera"@
        }),
{
}

/// The freedesktop desktop files that the player recognises, as
/// `xdg-settings` names them, each with its browser.
pub proof fn law_known_desktop_files()
    ensures
        desktop_browser("firefox.desktop"@) == Some(Browser::Firefox),
        desktop_browser("firefox-esr.desktop"@) == Some(Browser::Firefox),
        desktop_browser("firefox_firefox.desktop"@) == Some(Browser::Firefox),
        desktop_browser("zen.desktop"@) == Some(Browser::Zen),
        desktop_browser("zen-browser.desktop"@) == Some(Browser::Zen),
        desktop_browser("app.zen_browser.zen.desktop"@) == Some(Browser::Zen),
        desktop_browser("librewolf.desktop"@) == Some(Browser::LibreWolf),
        desktop_browser("io.gitlab.librewolf-community.desktop"@) == Some(Browser::LibreWolf),
        desktop_browser("waterfox.desktop"@) == Some(Browser::Waterfox),
        desktop_browser("google-chrome.desktop"@) == Some(Browser::Chrome),
        desktop_browser("google-chrome-stable.desktop"@) == Some(Browser::Chrome),
        desktop_browser("chromium.desktop"@) == Some(Browser::Chromium),
        desktop_browser("chromium-browser.desktop"@) == Some(Browser::Chromium),
        desktop_browser("brave-browser.desktop"@) == Some(Browser::Brave),
        desktop_browser("brave.desktop"@) == Some(Browser::Brave),
        desktop_browser("microsoft-edge.desktop"@) == Some(Browser::Edge),
        desktop_browser("microsoft-edge-stable.desktop"@) == Some(Browser::Edge),
        desktop_browser("vivaldi.desktop"@) == Some(Browser::Vivaldi),
        desktop_browser("vivaldi-stable.desktop"@) == Some(Browser::Vivaldi),
        desktop_browser("opera.desktop"@) == Some(Browser::Opera),
{
    reveal_strlit(".desktop");
    assert(".desktop"@.len() == 8);
    reveal_strlit("firefox");
    reveal_strlit("firefox.desktop");
    assert("firefox"@.len() == 7);
    assert("firefox.desktop"@.len() == 15);
    assert("firefox.desktop"@.skip(7) =~= ".desktop"@);
    assert("firefox.desktop"@.take(7) =~= "firefox"@);
    reveal_strlit("firefox-esr");
    reveal_strlit("firefox-esr.desktop");
    assert("firefox-esr"@.len() == 11);
    assert("firefox-esr.desktop"@.len() == 19);
    assert("firefox-esr.desktop"@.skip(11) =~= ".desktop"@);
    assert("firefox-esr.desktop"@.take(11) =~= "firefox-esr"@);
    reveal_strlit("firefox_firefox");
    reveal_strlit("firefox_firefox.desktop");
    assert("firefox_firefox"@.len() == 15);
    assert("firefox_firefox.desktop"@.len() == 23);
    assert("firefox_firefox.desktop"@.skip(15) =~= ".desktop"@);
    assert("firefox_firefox.desktop"@.take(15) =~= "firefox_firefox"@);
    reveal_strlit("zen");
    reveal_strlit("zen.desktop");
    assert("zen"@.len() == 3);
    assert("zen.desktop"@.len() == 11);
    assert("zen.desktop"@.skip(3) =~= ".desktop"@);
    assert("zen.desktop"@.take(3) =~= "zen"@);
    reveal_strlit("zen-browser");
    reveal_strlit("zen-browser.desktop");
    assert("zen-browser"@.len() == 11);
    assert("zen-browser.desktop"@.len() == 19);
    assert("zen-browser.desktop"@.skip(11) =~= ".desktop"@);
    assert("zen-browser.desktop"@.take(11) =~= "zen-browser"@);
    reveal_strlit("app.zen_browser.zen");
    reveal_strlit("app.zen_browser.zen.desktop");
    assert("app.zen_browser.zen"@.len() == 19);
    assert("app.zen_browser.zen.desktop"@.len() == 27);
    assert("app.zen_browser.zen.desktop"@.skip(19) =~= ".desktop"@);
    assert("app.zen_browser.zen.desktop"@.take(19) =~= "app.zen_browser.zen"@);
    reveal_strlit("librewolf");
    reveal_strlit("librewolf.desktop");
    assert("librewolf"@.len() == 9);
    assert("librewolf.desktop"@.len() == 17);
    assert("librewolf.desktop"@.skip(9) =~= ".desktop"@);
    assert("librewolf.desktop"@.take(9) =~= "librewolf"@);
    reveal_strlit("io.gitlab.librewolf-community");
    reveal_strlit("io.gitlab.librewolf-community.desktop");
    assert("io.gitlab.librewolf-community"@.len() == 29);
    assert("io.gitlab.librewolf-community.desktop"@.len() == 37);
    assert("io.gitlab.librewolf-community.desktop"@.skip(29) =~= ".desktop"@);
    assert("io.gitlab.librewolf-community.desktop"@.take(29) =~= "io.gitlab.librewolf-community"@);
    reveal_strlit("waterfox");
    reveal_strlit("waterfox.desktop");
    assert("waterfox"@.len() == 8);
    assert("waterfox.desktop"@.len() == 16);
    assert("waterfox.desktop"@.skip(8) =~= ".desktop"@);
    assert("waterfox.desktop"@.take(8) =~= "waterfox"@);
    reveal_strlit("google-chrome");
    reveal_strlit("google-chrome.desktop");
    assert("google-chrome"@.len() == 13);
    assert("google-chrome.desktop"@.len() == 21);
    assert("google-chrome.desktop"@.skip(13) =~= ".desktop"@);
    assert("google-chrome.desktop"@.take(13) =~= "google-chrome"@);
    reveal_strlit("google-chrome-stable");
    reveal_strlit("google-chrome-stable.desktop");
    assert("google-chrome-stable"@.len() == 20);
    assert("google-chrome-stable.desktop"@.len() == 28);
    assert("google-chrome-stable.desktop"@.skip(20) =~= ".desktop"@);
    assert("google-chrome-stable.desktop"@.take(20) =~= "google-chrome-stable"@);
    reveal_strlit("chromium");
    reveal_strlit("chromium.desktop");
    assert("chromium"@.len() == 8);
    assert("chromium.desktop"@.len() == 16);
    assert("chromium.desktop"@.skip(8) =~= ".desktop"@);
    assert("chromium.desktop"@.take(8) =~= "chromium"@);
    reveal_strlit("chromium-browser");
    reveal_strlit("chromium-browser.desktop");
    assert("chromium-browser"@.len() == 16);
    assert("chromium-browser.desktop"@.len() == 24);
    assert("chromium-browser.desktop"@.skip(16) =~= ".desktop"@);
    assert("chromium-browser.desktop"@.take(16) =~= "chromium-browser"@);
    reveal_strlit("brave-browser");
    reveal_strlit("brave-browser.desktop");
    assert("brave-browser"@.len() == 13);
    assert("brave-browser.desktop"@.len() == 21);
    assert("brave-browser.desktop"@.skip(13) =~= ".desktop"@);
    assert("brave-browser.desktop"@.take(13) =~= "brave-browser"@);
    reveal_strlit("brave");
    reveal_strlit("brave.desktop");
    assert("brave"@.len() == 5);
    assert("brave.desktop"@.len() == 13);
    assert("brave.desktop"@.skip(5) =~= ".desktop"@);
    assert("brave.desktop"@.take(5) =~= "brave"@);
    reveal_strlit("microsoft-edge");
    reveal_strlit("microsoft-edge.desktop");
    assert("microsoft-edge"@.len() == 14);
    assert("microsoft-edge.desktop"@.len() == 22);
    assert("microsoft-edge.desktop"@.skip(14) =~= ".desktop"@);
    assert("microsoft-edge.desktop"@.take(14) =~= "microsoft-edge"@);
    reveal_strlit("microsoft-edge-stable");
    reveal_strlit("microsoft-edge-stable.desktop");
    assert("microsoft-edge-stable"@.len() == 21);
    assert("microsoft-edge-stable.desktop"@.len() == 29);
    assert("microsoft-edge-stable.desktop"@.skip(21) =~= ".desktop"@);
    assert("microsoft-edge-stable.desktop"@.take(21) =~= "microsoft-edge-stable"@);
    reveal_strlit("vivaldi");
    reveal_strlit("vivaldi.desktop");
    assert("vivaldi"@.len() == 7);
    assert("vivaldi.desktop"@.len() == 15);
    assert("vivaldi.desktop"@.skip(7) =~= ".desktop"@);
    assert("vivaldi.desktop"@.take(7) =~= "vivaldi"@);
    reveal_strlit("vivaldi-stable");
    reveal_strlit("vivaldi-stable.desktop");
    assert("vivaldi-stable"@.len() == 14);
    assert("vivaldi-stable.desktop"@.len() == 22);
    assert("vivaldi-stable.desktop"@.skip(14) =~= ".desktop"@);
    assert("vivaldi-stable.desktop"@.take(14) =~= "vivaldi-stable"@);
    reveal_strlit("opera");
    reveal_strlit("opera.desktop");
    assert("opera"@.len() == 5);
    assert("opera.desktop"@.len() == 13);
    assert("opera.desktop"@.skip(5) =~= ".desktop"@);
    assert("opera.desktop"@.take(5) =~= "opera"@);
    assert("firefox"@[0] != "vivaldi"@[0]);
    assert("firefox-esr"@[0] != "zen-browser"@[0]);
    assert("waterfox"@[0] != "chromium"@[0]);
    assert("google-chrome"@[0] != "brave-browser"@[0]);
    assert("brave"@[0] != "opera"@[0]);
    assert("microsoft-edge"@[0] != "vivaldi-stable"@[0]);
}

} // verus!



