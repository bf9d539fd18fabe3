//! The player over HTTP.

use rufin_core::api::authorization::{Address, Authorization, Denied, ATTEMPTS, HISTORY, WINDOW};
use rufin_core::api::browser::{
    catalog_page, clock_text, index, is_paused, link, login_error, neighbors, page_links,
    turn_over, Appearance, CatalogView, CurrentTrack, Page, SourceFacts, Switches,
};
use rufin_core::api::catalog::{
    album_sort, artist_sort, home_blocks, home_sections, playlist_sort, smart_playlist_sort,
    AlbumSort, ArtistSort, HomeBlock, ListSort, ProviderSection, SectionOf,
};
use rufin_core::api::commands::{action, FormAction, SelectionMode};
use rufin_core::api::controller::{
    access_token, serve, ControllerSettings, ControllerStatus, SocketAddress,
};
use rufin_core::api::form::{body_field, collect_parameters, form_fields, query_text, FieldValue};
use rufin_core::api::listing::{folder_parent, home, scope, Listing, PageKind, Scope};
use rufin_core::api::media::{
    artwork, cover, favorite, lyrics_font_size, playlist_cover, radio, random, random_settings,
    reorder_target, shows_album_artists, CoverOf, FavoriteKind, LyricsState,
};
use rufin_core::api::parameters::{
    boolean, key, limit, number, parse_usize, required, track_sort, ApiError, NumberError,
    Parameters, TrackSort,
};
use rufin_core::api::pins::{list, Badge, PinFacts, PinKind, SourceEntry};
use rufin_core::api::playlists::{
    create, failure_status, file_action, selected_uris, selection_target, FileAction,
    MediaSelection, Selected, SelectionScope,
};
use rufin_core::api::queue::{
    entry_sort, media_kind, queue_drop_target, queue_plan, queue_play, queue_slice, return_parameters,
    EntrySort, MediaKind, QueuePlace, QueueRequest, QueueSelection, QueueSlice,
};
use rufin_core::api::session::{
    cookie, cookie_name, form_session, is_form, random_secret, return_target, session, set_cookie,
    sign_session, verify_session, LoginFailure, RequestFacts, SessionHeaders, BROWSER_SESSION_AGE,
};
use rufin_core::api::source::{adds_local, queue_entry, select, SourceAction};
use rufin_core::api::transport::{
    event_shows_queue, needs_body, playback_command, repeat_name, CommandBody, PlaybackState,
    TransportCommand,
};
use rufin_core::api::web::{
    disc_heading, home_menu_id, icon, library_menu_id, list_kind, script, source_icon, style,
    wants_html, DiscHeading, DiscSection, IconFile, Row,
};
use rufin_core::playback::plex::{QueuePlacement, QueueReorderTarget, RepeatMode};
use rufin_core::playback::target::PlaybackTarget;
use rufin_core::textmap::TextMap;

const LOCAL: Address = Address::V4(0x7f00_0001);
const SECOND: u64 = 1_000_000_000;

fn parameters(pairs: &[(&str, &str)]) -> Parameters {
    let mut result = TextMap::new();
    for (key, value) in pairs {
        result.insert(key.to_string(), value.to_string());
    }
    result
}

fn text<'a>(parameters: &'a Parameters, key: &str) -> Option<&'a str> {
    parameters.get(key).map(String::as_str)
}

/// The parameters of a link.
fn read_back(link: &str) -> Parameters {
    form_fields(link.split_once('?').unwrap().1.as_bytes())
}

#[test]
fn failed_attempts_expire_and_are_separate_for_each_address() {
    let mut authorization = Authorization::new("valid");
    let address = LOCAL;
    let now = 5 * SECOND;
    for _ in 0..10 {
        assert_eq!(authorization.check(address, None, now).unwrap_err().status(), 401);
    }
    let rejected = authorization.check(address, Some("Bearer valid"), now).unwrap_err();
    assert_eq!(rejected.status(), 429);
    assert_eq!(rejected.retry_after(), Some(60));
    assert!(authorization.check(Address::V6(1), Some("Bearer valid"), now).is_ok());
    let rejected = authorization.check(address, None, now + 59 * SECOND).unwrap_err();
    assert_eq!(rejected.retry_after(), Some(1));
    assert!(authorization.check(address, Some("Bearer valid"), now + 60 * SECOND).is_ok());
}

#[test]
fn successful_authentication_clears_previous_failures() {
    let mut authorization = Authorization::new("valid");
    let address = LOCAL;
    let now = 5 * SECOND;
    for _ in 0..2 {
        for _ in 0..9 {
            assert_eq!(authorization.check(address, None, now).unwrap_err().status(), 401);
        }
        assert!(authorization.check(address, Some("Bearer valid"), now).is_ok());
    }
}

#[test]
fn the_history_of_failures_is_bounded() {
    let mut authorization = Authorization::new("valid");
    for _ in 0..ATTEMPTS {
        let _ = authorization.check(LOCAL, None, 0);
    }
    for other in 0..HISTORY as u128 {
        let _ = authorization.check(Address::V6(other), None, 1);
    }
    assert_eq!(authorization.check(LOCAL, None, 2), Err(Denied::Unauthorized));
    assert_eq!(authorization.check(LOCAL, Some("Bearer valid"), WINDOW - 1), Ok(()));
}

#[test]
fn a_late_wait_counts_one_second() {
    let mut authorization = Authorization::new("valid");
    for _ in 0..ATTEMPTS {
        let _ = authorization.check(LOCAL, None, 0);
    }
    let denied = authorization.check(LOCAL, None, WINDOW - 1).unwrap_err();
    assert_eq!(denied, Denied::TooMany { retry_after: 1 });
    assert_eq!(denied.text(), "Too many failed authentication attempts. Try again shortly.");
    assert_eq!(Denied::ConnectAgain.status(), 401);
    assert_eq!(Denied::InvalidForm.status(), 403);
    assert_eq!(Denied::InvalidForm.retry_after(), None);
}

#[test]
fn sessions_are_signed_with_the_derived_key() {
    let authorization = Authorization::new("secret");
    let key = blake3::derive_key("Rufin browser authentication v1", b"secret");
    assert_eq!(authorization.browser_key(), &key);
    let value = sign_session(&authorization, "nonce");
    assert_eq!(value, format!("nonce.{}", blake3::keyed_hash(&key, b"nonce").to_hex()));
    assert_eq!(verify_session(&key, &value).as_deref(), Some("nonce"));
    assert_eq!(verify_session(&key, &value.to_uppercase().replace("NONCE", "nonce")).as_deref(), Some("nonce"));
    assert_eq!(verify_session(&key, "nonce.00"), None);
    assert_eq!(verify_session(&key, "nonce"), None);
    let other = Authorization::new("other");
    assert_eq!(verify_session(other.browser_key(), &value), None);
}

#[test]
fn cookies_are_named_by_their_port() {
    assert_eq!(cookie_name(Some("player.test:4533")), "rufin-session-4533");
    assert_eq!(cookie_name(Some("[::1]:80")), "rufin-session-80");
    assert_eq!(cookie_name(Some("player.test")), "rufin-session-0");
    assert_eq!(cookie_name(Some("not a host")), "rufin-session-0");
    assert_eq!(cookie_name(None), "rufin-session-0");
    let headers = vec!["a=1; b = 2".to_string(), "x; rufin=one=two;rufin=three".to_string()];
    assert_eq!(cookie(&headers, "rufin").as_deref(), Some("one=two"));
    assert_eq!(cookie(&headers, "a").as_deref(), Some("1"));
    assert_eq!(cookie(&headers, "b ").as_deref(), Some(" 2"));
    assert_eq!(cookie(&headers, "x"), None);
    assert_eq!(
        set_cookie("n", "v", Some(BROWSER_SESSION_AGE), Some("https://x")),
        "n=v; Path=/; HttpOnly; SameSite=Lax; Max-Age=31536000; Secure"
    );
    assert_eq!(
        set_cookie("n", "", None, Some("http://x")),
        "n=; Path=/; HttpOnly; SameSite=Lax"
    );
}

fn browser(authorization: &Authorization, nonce: &str) -> SessionHeaders {
    SessionHeaders {
        host: Some("h:1".to_string()),
        cookies: vec![format!("rufin-session-1={}", sign_session(authorization, nonce))],
    }
}

#[test]
fn sessions_must_prove_their_secret_to_write() {
    let mut authorization = Authorization::new("valid");
    let headers = browser(&authorization, "abc");
    assert_eq!(session(&authorization, &headers).as_deref(), Some("abc"));
    assert_eq!(form_session(&authorization, &headers, Some("abc")), Ok(()));
    assert_eq!(form_session(&authorization, &headers, None), Err(Denied::InvalidForm));
    let nobody = SessionHeaders { host: None, cookies: Vec::new() };
    assert_eq!(form_session(&authorization, &nobody, Some("abc")), Err(Denied::ConnectAgain));
    let mut facts = RequestFacts {
        address: LOCAL,
        token: None,
        headers,
        reads: true,
        form_csrf: None,
        header_csrf: None,
    };
    assert_eq!(authorization.authorize(&facts, 0), Ok(()));
    facts.reads = false;
    assert_eq!(authorization.authorize(&facts, 0), Err(Denied::InvalidForm));
    facts.header_csrf = Some("abc".to_string());
    assert_eq!(authorization.authorize(&facts, 0), Ok(()));
    facts.form_csrf = Some("wrong".to_string());
    assert_eq!(authorization.authorize(&facts, 0), Err(Denied::InvalidForm));
    facts.token = Some("Bearer wrong".to_string());
    assert_eq!(authorization.authorize(&facts, 0), Err(Denied::Unauthorized));
    facts.token = Some("Bearer valid".to_string());
    assert_eq!(authorization.authorize(&facts, 0), Ok(()));
    facts.token = None;
    facts.headers = nobody;
    for _ in 0..ATTEMPTS {
        assert_eq!(authorization.authorize(&facts, 0), Err(Denied::Unauthorized));
    }
    assert_eq!(authorization.authorize(&facts, 0), Err(Denied::TooMany { retry_after: 60 }));
}

#[test]
fn logins_are_checked_by_their_token() {
    let mut authorization = Authorization::new("valid");
    assert_eq!(authorization.login(LOCAL, Some("valid"), 0, false), Ok(()));
    assert_eq!(authorization.login(LOCAL, None, 0, false), Err(LoginFailure::Retry));
    assert_eq!(
        authorization.login(LOCAL, Some("x"), 0, true),
        Err(LoginFailure::Denied(Denied::Unauthorized))
    );
    for _ in 0..8 {
        let _ = authorization.login(LOCAL, Some("x"), 0, false);
    }
    assert_eq!(
        authorization.login(LOCAL, Some("valid"), 0, false),
        Err(LoginFailure::Denied(Denied::TooMany { retry_after: 60 }))
    );
    let headers = browser(&authorization, "kept");
    assert_eq!(authorization.login_secret(&headers, "fresh".to_string()), "kept");
    let nobody = SessionHeaders { host: None, cookies: Vec::new() };
    assert_eq!(authorization.login_secret(&nobody, "fresh".to_string()), "fresh");
    let secret = random_secret().unwrap();
    assert_eq!(secret.len(), 64);
    assert!(secret.chars().all(|c| c.is_ascii_hexdigit() && !c.is_ascii_uppercase()));
    assert_ne!(secret, random_secret().unwrap());
}

#[test]
fn forms_return_to_the_players_pages() {
    assert!(is_form(Some("application/x-www-form-urlencoded; charset=utf-8")));
    assert!(!is_form(Some("application/json")));
    assert!(!is_form(None));
    assert_eq!(return_target(Some("/?view=home")), "/?view=home");
    assert_eq!(return_target(Some("//elsewhere")), "/");
    assert_eq!(return_target(Some("/?a\r\nb")), "/");
    assert_eq!(return_target(None), "/");
}

#[test]
fn parameters_are_checked() {
    let given = parameters(&[("a", "x"), ("b", ""), ("n", "7"), ("t", "true"), ("o", "999")]);
    assert_eq!(required(&given, "a").ok(), Some("x"));
    assert_eq!(required(&given, "b").err().unwrap().message, "b is required");
    assert_eq!(required(&given, "c").err().unwrap().status, 400);
    assert_eq!(number(&given, "n", 1).ok(), Some(7));
    assert_eq!(number(&given, "m", 1).ok(), Some(1));
    assert_eq!(limit(&parameters(&[("limit", "999")]), 100, 256).ok(), Some(256));
    assert_eq!(limit(&given, 100, 256).ok(), Some(100));
    assert_eq!(boolean(&given, "t").ok(), Some(true));
    assert_eq!(boolean(&given, "z").ok(), Some(false));
    assert_eq!(
        boolean(&given, "a").err().unwrap().message,
        "x".parse::<bool>().unwrap_err().to_string()
    );
    for wrong in ["", "x", "-1", "99999999999999999999999"] {
        let failure = number(&parameters(&[("n", wrong)]), "n", 0).err().unwrap();
        assert_eq!(failure.message, wrong.parse::<usize>().unwrap_err().to_string());
    }
    assert_eq!(parse_usize("+5"), Ok(5));
    assert_eq!(parse_usize(""), Err(NumberError::Empty));
    assert_eq!(parse_usize("5 "), Err(NumberError::InvalidDigit));
    assert_eq!(parse_usize("99999999999999999999999"), Err(NumberError::TooLarge));
    assert_eq!(track_sort("rating").ok(), Some(TrackSort::UserRating));
    assert_eq!(track_sort("x").err().unwrap().message, "Unknown track sort");
}

#[test]
fn forms_are_read_like_urls() {
    let fields = form_fields(b"a=1&b=two+words&a=%C3%A9&c");
    assert_eq!(text(&fields, "a"), Some("é"));
    assert_eq!(text(&fields, "b"), Some("two words"));
    assert_eq!(text(&fields, "c"), Some(""));
    assert_eq!(fields.len(), 3);
    assert_eq!(query_text(&parameters(&[("q", "a b&c=é")])), "q=a+b%26c%3D%C3%A9");
    let odd = parameters(&[("", ""), ("x", "=&+%"), ("y", "")]);
    let again = form_fields(query_text(&odd).as_bytes());
    assert_eq!(again.len(), 3);
    assert_eq!(text(&again, "x"), Some("=&+%"));
    assert_eq!(text(&again, ""), Some(""));
    let pairs = vec![("k".to_string(), "1".to_string()), ("k".to_string(), "2".to_string())];
    assert_eq!(text(&collect_parameters(pairs), "k"), Some("2"));
    assert_eq!(body_field("csrf", "x"), FieldValue::Skip);
    assert_eq!(body_field("volume", "0.5"), FieldValue::Json);
    assert_eq!(body_field("library", ""), FieldValue::Null);
    assert_eq!(body_field("library", "x"), FieldValue::Text);
}

#[test]
fn the_queue_is_shown_around_the_current_entry() {
    assert_eq!(queue_slice(10, Some(5), Some(25), 4), QueueSlice { start: 3, end: 7, offset: 23 });
    assert_eq!(queue_slice(10, Some(9), Some(9), 4), QueueSlice { start: 6, end: 10, offset: 6 });
    assert_eq!(queue_slice(3, None, None, 5), QueueSlice { start: 0, end: 3, offset: 0 });
    assert_eq!(queue_slice(0, None, None, 5), QueueSlice { start: 0, end: 0, offset: 0 });
}

fn selection(kind: &str) -> QueueSelection {
    QueueSelection {
        kind: Some(kind.to_string()),
        uris: None,
        id: None,
        source: None,
        folder: None,
        q: None,
        sort: None,
        descending: None,
        favorites: None,
        album_artists: None,
        anchor_uri: None,
        anchor_entry: None,
    }
}

fn refusal(path: &str, mode: &str, selection: QueueSelection) -> String {
    queue_play(path, &None, mode, selection, None, None).err().unwrap().message
}

#[test]
fn one_track_of_a_page_plays_the_page() {
    let page = return_parameters("/?view=playlist&id=7&q=x&sort=album&descending=true&source=s&folder=f");
    let mut track = selection("track");
    track.uris = Some(vec!["u".to_string()]);
    track.id = Some("12".to_string());
    let plan = queue_play("/api/queue", &Some(page), "replace", track, None, None).ok().unwrap();
    assert!(matches!(plan.place, QueuePlace::Replace));
    assert!(!plan.shuffled_start);
    match plan.request {
        QueueRequest::Playlist { id, scope, filter, sort, descending, anchor_entry, anchor_uri } => {
            assert_eq!(id, "7");
            let scope = scope.unwrap();
            assert_eq!((scope.source.as_str(), scope.folder.as_str()), ("s", "f"));
            assert_eq!(filter.as_deref(), Some("x"));
            assert_eq!(sort, EntrySort::Album);
            assert!(descending);
            assert_eq!(anchor_entry.as_deref(), Some("12"));
            assert_eq!(anchor_uri.as_deref(), Some("u"));
        }
        _ => panic!("the playlist is played"),
    }
    let wrong = || Some(return_parameters("/?view=tracks&source=s&id=x"));
    let track = || {
        let mut track = selection("track");
        track.uris = Some(vec!["u".to_string()]);
        track
    };
    let refused = queue_play("/api/queue", &wrong(), "replace", track(), None, None).err().unwrap();
    assert_eq!((refused.status, refused.message.as_str()), (400, "expected value at line 1 column 1"));
    assert!(queue_play("/api/queue", &wrong(), "append", track(), None, None).is_ok());
    assert!(queue_plan("/api/queue", &wrong(), "replace", track(), None, None, None).is_ok());
    let fault = Some("fault".to_string());
    let refused = queue_plan("/api/queue", &wrong(), "replace", track(), None, None, fault);
    assert_eq!(refused.err().unwrap().message, "fault");
    let page = return_parameters("/?view=favorites&source=s");
    let mut track = selection("track");
    track.uris = Some(vec!["u".to_string()]);
    let plan = queue_play("/api/queue", &Some(page), "replace", track, None, None).ok().unwrap();
    assert!(matches!(plan.request, QueueRequest::Source { favorites: true, descending: false, .. }));
    let mut track = selection("track");
    track.uris = Some(vec!["u".to_string()]);
    let home = return_parameters("elsewhere");
    let plan = queue_play("/api/queue", &Some(home), "replace", track, None, None).ok().unwrap();
    assert!(matches!(plan.request, QueueRequest::Uris { order } if order == ["u"]));
}

#[test]
fn queue_requests_are_checked() {
    let path = "/api/queue/album";
    assert_eq!(refusal("/api/queue", "replace", selection("x")), "missing field `uris`");
    assert_eq!(refusal(path, "replace", selection("x")), "missing field `id`");
    assert_eq!(refusal("/api/queue/source", "next", selection("x")), "missing field `source`");
    assert_eq!(refusal("/api/queue/odd", "next", selection("x")), "Unknown media kind");
    assert_eq!(
        refusal(path, "odd", selection("x")),
        "Queue mode must be replace, append, next or insert"
    );
    let mut album = selection("x");
    album.folder = Some("f".to_string());
    assert_eq!(refusal(path, "odd", album), "source is required with folder");
    let mut album = selection("x");
    album.id = Some("1".to_string());
    album.sort = Some("odd".to_string());
    assert_eq!(refusal(path, "append", album), "Unknown track sort");
    let mut playlist = selection("x");
    playlist.id = Some("1".to_string());
    playlist.sort = Some("year".to_string());
    assert_eq!(refusal("/api/queue/playlist", "append", playlist), "Unknown playlist entry sort");
    let mut artist = selection("x");
    artist.id = Some("1".to_string());
    let plan = queue_play("/api/queue/artist", &None, "insert", artist, None, Some("a".to_string()));
    let plan = plan.ok().unwrap();
    assert!(plan.shuffled_start);
    assert!(matches!(plan.place, QueuePlace::Insert(QueueReorderTarget::After(id)) if id == "a"));
    assert!(matches!(
        plan.request,
        QueueRequest::Collection { kind: MediaKind::Artist, sort: TrackSort::Title, .. }
    ));
    assert!(matches!(
        queue_drop_target(Some("b".to_string()), Some("a".to_string())),
        QueueReorderTarget::Before(id) if id == "b"
    ));
    assert!(matches!(queue_drop_target(None, None), QueueReorderTarget::End));
    assert_eq!(media_kind("genre"), MediaKind::Genre);
    assert_eq!(entry_sort("position").ok(), Some(EntrySort::Position));
}

fn page(given: &[(&str, &str)]) -> Page {
    Page {
        connected: true,
        appearance: Appearance { theme: None, colors: TextMap::new() },
        csrf: String::new(),
        source: "s".to_string(),
        sources: vec![("s".to_string(), "Music".to_string())],
        folders: Vec::new(),
        parameters: parameters(given),
        current_track: None,
        current_favorite: false,
        switches: Switches {
            shuffle: true,
            muted: false,
            auto_dj: false,
            can_seek: false,
            queue_loading: false,
        },
        repeat: Some(RepeatMode::One),
        position: 61_000,
        duration: 3_600_000,
    }
}

#[test]
fn pages_show_where_they_are() {
    let mut album = page(&[("view", "album"), ("folder", "f"), ("q", "x")]);
    assert_eq!(album.parent_view(), "albums");
    assert!(album.can_play_collection());
    assert_eq!(album.sort(), "track_number");
    assert_eq!(album.title(), "Tracks");
    assert_eq!(album.source_name(), "Music");
    assert_eq!(album.query(), "x");
    assert_eq!(album.folder(), "f");
    assert_eq!(album.position_time(), "1:01");
    assert_eq!(album.duration_time(), "60:00");
    assert!(album.enabled("shuffle") && !album.enabled("muted") && !album.enabled("odd"));
    assert_eq!(album.repeat_title(), "Repeat one");
    assert_eq!(album.current_selection(), "{\"favorite\":true,\"kind\":\"track\",\"uri\":null}");
    assert_eq!(album.current_id(), "");
    album.current_favorite = true;
    album.current_track = Some(CurrentTrack {
        id: "7".to_string(),
        uri: "a\"\n\u{1}é".to_string(),
        title: String::new(),
        artist: String::new(),
        album: String::new(),
    });
    let mut expected = serde_json::Map::new();
    expected.insert("kind".to_string(), serde_json::Value::from("track"));
    expected.insert("uri".to_string(), serde_json::Value::from("a\"\n\u{1}é"));
    expected.insert("favorite".to_string(), serde_json::Value::from(false));
    assert_eq!(album.current_selection(), serde_json::Value::Object(expected).to_string());
    assert!(album.has_current());
    let target = read_back(&album.nav("home"));
    assert_eq!(target.len(), 3);
    assert_eq!(text(&target, "view"), Some("home"));
    assert_eq!(text(&target, "source"), Some("s"));
    assert_eq!(text(&target, "folder"), Some("f"));
    assert_eq!(read_back(&album.current()).len(), 3);
    assert!(!album.needs_source());
    album.source = String::new();
    assert!(album.needs_source());
    assert!(!page(&[("view", "playlists")]).needs_source());
    assert_eq!(page(&[]).view(), "home");
    assert_eq!(page(&[]).title(), "Home");
    assert_eq!(page(&[("title", "Own")]).title(), "Own");
    assert!(page(&[("descending", "true")]).descending());
}

#[test]
fn themes_and_colors_are_written() {
    let mut looks = page(&[]);
    assert_eq!(looks.theme(), "system");
    looks.appearance.theme = Some("DÄRK".to_string());
    assert_eq!(looks.theme(), "därk");
    looks.appearance.colors.insert("--b".to_string(), "red".to_string());
    looks.appearance.colors.insert("--a".to_string(), "#fff".to_string());
    assert_eq!(looks.color_style(), "--a:#fff;--b:red;");
    looks.appearance.colors.insert("color-scheme".to_string(), "Light".to_string());
    assert_eq!(looks.theme(), "light");
}

#[test]
fn pages_are_completed() {
    let facts = SourceFacts {
        selected: Some("s".to_string()),
        first: Some("t".to_string()),
        library: Some("s".to_string()),
        library_folder: Some("f".to_string()),
    };
    let mut given = parameters(&[("source", ""), ("reverse", "1"), ("descending", "true")]);
    assert_eq!(index(&mut given, true, &facts).ok().as_deref(), Some("s"));
    assert_eq!(text(&given, "descending"), Some("false"));
    assert_eq!(text(&given, "folder"), Some("f"));
    assert_eq!(text(&given, "limit"), Some("48"));
    assert!(!given.contains("reverse"));
    let mut given = parameters(&[("source", "u")]);
    assert_eq!(index(&mut given, true, &facts).ok().as_deref(), Some("u"));
    assert!(!given.contains("folder"));
    let mut given = parameters(&[("reverse", ""), ("descending", "odd")]);
    let failure = index(&mut given, true, &facts).err().unwrap();
    assert_eq!(failure.message, "odd".parse::<bool>().unwrap_err().to_string());
    let mut given = parameters(&[]);
    assert_eq!(index(&mut given, false, &facts).ok().as_deref(), Some(""));
    assert_eq!(given.len(), 0);
    let mut order = parameters(&[("descending", "false"), ("reverse", "")]);
    turn_over(&mut order).ok().unwrap();
    order.insert("reverse".to_string(), String::new());
    turn_over(&mut order).ok().unwrap();
    assert_eq!(text(&order, "descending"), Some("false"));
    assert_eq!(order.len(), 1);
}

#[test]
fn pages_have_neighbors() {
    assert_eq!(neighbors(0, 48).previous, None);
    assert_eq!(neighbors(0, 48).next, Some(48));
    assert_eq!(neighbors(40, 47).previous, Some(0));
    assert_eq!(neighbors(40, 47).next, None);
    assert_eq!(neighbors(usize::MAX, 48).next, Some(usize::MAX));
    let (previous, next) = page_links(&parameters(&[("view", "albums"), ("offset", "96")]), 96, 48);
    assert_eq!(text(&read_back(&previous.unwrap()), "offset"), Some("48"));
    let next = read_back(&next.unwrap());
    assert_eq!(text(&next, "offset"), Some("144"));
    assert_eq!(text(&next, "view"), Some("albums"));
    assert_eq!(page_links(&parameters(&[]), 0, 3), (None, None));
    assert!(login_error(&parameters(&[("login", "failed")])).is_some());
    assert!(login_error(&parameters(&[("login", "")])).is_none());
    assert_eq!(catalog_page(parameters(&[])).ok().unwrap().0, CatalogView::Home);
    assert_eq!(
        catalog_page(parameters(&[("view", "x")])).err().unwrap().message,
        "Unknown library view"
    );
    let (view, listed) = catalog_page(parameters(&[("view", "favorites")])).ok().unwrap();
    assert_eq!(view, CatalogView::List(PageKind::Tracks));
    assert_eq!(text(&listed, "favorites"), Some("true"));
    let (view, listed) = catalog_page(parameters(&[("view", "playlist")])).ok().unwrap();
    assert_eq!(view, CatalogView::List(PageKind::Entries));
    assert_eq!(text(&listed, "favorites"), None);
    assert!(!is_paused(Some("buffering")) && is_paused(Some("paused")) && is_paused(None));
    assert_eq!(clock_text(0), "0:00");
    assert_eq!(link(&parameters(&[("a", "b c")])), "/?a=b+c");
}

#[test]
fn forms_ask_for_actions() {
    let switches = page(&[]).switches;
    let run = |pairs: &[(&str, &str)]| action(&parameters(pairs), switches, Some(RepeatMode::Off));
    let refused = |pairs: &[(&str, &str)]| run(pairs).err().unwrap().message;
    assert_eq!(refused(&[]), "action is required");
    assert_eq!(refused(&[("action", "odd")]), "Unknown playback action");
    assert_eq!(refused(&[("action", "activate")]), "id is required");
    assert_eq!(refused(&[("action", "append")]), "Unknown playback action");
    assert_eq!(refused(&[("action", "replace"), ("selection", "")]), "selection is required");
    assert_eq!(refused(&[("action", "seek")]), "position_ms is required");
    assert_eq!(refused(&[("action", "seek"), ("position_ms", "x")]), "invalid digit found in string");
    assert!(matches!(run(&[("action", "next")]), Ok(FormAction::Next)));
    assert!(matches!(
        run(&[("action", "next"), ("selection", "{}")]),
        Ok(FormAction::Queue { mode: SelectionMode::Next, selection }) if selection == "{}"
    ));
    assert!(matches!(run(&[("action", "shuffle")]), Ok(FormAction::Shuffle(false))));
    assert!(matches!(run(&[("action", "mute")]), Ok(FormAction::Mute(true))));
    assert!(matches!(run(&[("action", "repeat")]), Ok(FormAction::Repeat(RepeatMode::All))));
    assert!(matches!(run(&[("action", "refresh"), ("source", "")]), Ok(FormAction::Refresh(None))));
    assert!(matches!(
        run(&[("action", "folder"), ("source", "s"), ("folder", "")]),
        Ok(FormAction::SelectFolder { source, folder: None }) if source == "s"
    ));
    assert!(matches!(
        run(&[("action", "volume"), ("volume", "0.5")]),
        Ok(FormAction::Volume(text)) if text == "0.5"
    ));
    assert!(matches!(
        run(&[("action", "seek"), ("position_ms", "5")]),
        Ok(FormAction::Seek(5))
    ));
}

fn row() -> Row {
    Row {
        id: "\"i\"".to_string(),
        uri: Some("file:///track".to_string()),
        title: None,
        name: Some("Name".to_string()),
        object_id: Some("abc".to_string()),
        favorite: false,
        duration_ms: 3_723_000,
    }
}

#[test]
fn rows_link_to_their_pages() {
    let here = parameters(&[("source", "s"), ("q", "x"), ("offset", "9"), ("sort", "title")]);
    let target = read_back(&row().href(&here, "album"));
    assert_eq!(target.len(), 4);
    assert_eq!(text(&target, "title"), Some("Name"));
    assert_eq!(text(&target, "view"), Some("album"));
    assert_eq!(text(&target, "id"), Some("i"));
    assert_eq!(row().artwork(&here, "album"), "/api/artwork?uri=file%3A%2F%2F%2Ftrack");
    assert_eq!(row().artwork(&here, "playlist"), "/api/artwork?playlist=%22i%22");
    assert_eq!(read_back(&row().artwork(&here, "smart-playlist")).len(), 5);
    assert_eq!(
        row().selection(&here, "track"),
        "{\"favorite\":true,\"id\":\"i\",\"kind\":\"track\",\"source\":\"s\",\
         \"uri\":\"file:///track\",\"uris\":[\"file:///track\"]}"
    );
    assert_eq!(row().title(), "Name");
    assert!(!row().favorite());
    assert_eq!(row().duration(), "62:03");
    assert_eq!(row().long_duration(), "1h 2m 3s");
    let seed = "abc".bytes().fold(0x811c9dc5u32, |seed, byte| seed.wrapping_mul(16777619) ^ u32::from(byte));
    assert_eq!(row().palette(), (seed ^ seed.rotate_left(13) ^ seed.rotate_right(9)) % 16);
}

#[test]
fn album_disc_headers_keep_page_counts_and_track_numbers() {
    let sections = |list: &[(usize, i64)]| {
        list.iter().map(|(start, disc)| DiscSection { start: *start, disc: *disc }).collect::<Vec<_>>()
    };
    for (offset, list, has_header) in [
        (0, sections(&[]), false),
        (0, sections(&[(0, 1), (2, 2)]), true),
        (1, sections(&[(0, 1), (2, 2)]), false),
        (2, sections(&[(0, 1), (2, 2)]), true),
    ] {
        assert_eq!(disc_heading(&list, offset, 0).is_some(), has_header);
    }
    let list = sections(&[(0, 1), (2, 0), (2, 3)]);
    assert_eq!(disc_heading(&list, 1, 1), Some(DiscHeading::Disc(3)));
    assert_eq!(disc_heading(&sections(&[(4, 0)]), 4, 0), Some(DiscHeading::Unknown));
    assert_eq!(DiscHeading::Disc(3).message(), "Disc {number}");
    assert_eq!(DiscHeading::Unknown.message(), "Unknown disc");
}

#[test]
fn only_the_files_of_the_pages_are_served() {
    assert!(script("drag.js").is_ok() && script("base.css").is_err());
    assert!(style("base.css").is_ok());
    assert_eq!(style("../x").err().unwrap().status, 404);
    assert_eq!(source_icon("subsonic").ok(), Some(("opensubsonic", false)));
    assert_eq!(source_icon("plex").ok(), Some(("plex", true)));
    assert_eq!(source_icon("x").err().unwrap().message, "Source icon not found");
    assert_eq!(icon("favicon.svg").ok(), Some(IconFile::Logo));
    assert_eq!(icon("rufin-symbolic.svg").ok(), Some(IconFile::Symbol));
    assert_eq!(icon("rufin-tracks-symbolic.svg").ok(), Some(IconFile::Action));
    assert_eq!(icon("x").err().unwrap().message, "Icon not found");
    assert!(wants_html(Some("true")) && !wants_html(Some("True")) && !wants_html(None));
    assert_eq!(library_menu_id(40, 2), "media-menu-library-42");
    assert_eq!(home_menu_id("", 3, 1), "media-menu-home-provider-3-1");
    assert_eq!(home_menu_id("genres", 3, 1), "media-menu-home-genres-1");
    assert_eq!(list_kind(false, true, true, false, false, false).unwrap().field, "entries");
    assert!(list_kind(false, false, false, false, false, false).is_none());
}

#[test]
fn catalogs_are_sorted_by_name() {
    assert_eq!(artist_sort(None).ok(), Some(ArtistSort::Title));
    assert!(artist_sort(Some("odd")).is_err());
    assert_eq!(album_sort(Some("year")).ok(), Some(AlbumSort::Year));
    assert!(album_sort(Some("odd")).is_err());
    assert_eq!(playlist_sort(Some("title")).ok(), Some(ListSort::Title));
    assert!(smart_playlist_sort(Some("odd")).is_err());
    let blocks = vec![HomeBlock::Genres, HomeBlock::Explore];
    assert_eq!(home_blocks(&blocks, None), blocks);
    assert_eq!(home_blocks(&blocks, Some(HomeBlock::Explore)), [HomeBlock::Explore]);
    let counted = vec![(HomeBlock::Genres, 2), (HomeBlock::Explore, 0)];
    let section = |title: Option<&str>, items: usize| ProviderSection {
        title: title.map(str::to_owned),
        items,
    };
    let provider = vec![section(Some("Hot"), 0), section(None, 1), section(Some("New"), 3)];
    let sections = home_sections(&counted, &provider, false);
    let titles: Vec<&str> = sections.iter().map(|section| section.title.as_str()).collect();
    assert_eq!(titles, ["Featured genres", "From your server", "New"]);
    assert_eq!(sections[2].of, SectionOf::Provider(2));
    let sections = home_sections(&counted, &provider, true);
    assert_eq!(sections.len(), 1);
    assert_eq!(sections[0].of, SectionOf::Block(HomeBlock::Genres));
}

const EVERYWHERE: Scope = Scope { source: None, folder: None };

fn found() -> Result<Scope, ApiError> {
    Ok(Scope { source: Some(4), folder: Some(9) })
}

fn lost() -> Result<Scope, ApiError> {
    Err(ApiError { status: 500, message: "lost".to_string() })
}

#[test]
fn scopes_are_looked_up() {
    let named = |pairs: &[(&str, &str)], source: Option<i64>, folder: Option<i64>| {
        scope(&parameters(pairs), Ok(source), Ok(folder))
    };
    let both: &[(&str, &str)] = &[("source", "s"), ("folder", "f")];
    assert_eq!(named(both, Some(4), Some(9)).ok(), found().ok());
    assert_eq!(named(&[("source", "s")], Some(4), Some(9)).ok().unwrap().folder, None);
    assert_eq!(named(&[], Some(4), None).err().unwrap().message, "source is required");
    assert_eq!(named(both, None, None).err().unwrap().message, "Source not found");
    assert_eq!(named(both, Some(4), None).err().unwrap().message, "Folder not found");
    let failed = scope(&parameters(both), Err("down".to_string()), Ok(None)).err().unwrap();
    assert_eq!((failed.status, failed.message.as_str()), (500, "down"));
    assert_eq!(folder_parent(false, Ok(None), found().ok().unwrap()).ok(), Some(Some(9)));
    assert_eq!(folder_parent(true, Ok(Some(2)), EVERYWHERE).ok(), Some(Some(2)));
    assert!(folder_parent(true, Ok(None), EVERYWHERE).is_err());
    let page = home(found(), Some(Ok(HomeBlock::Genres)), &vec![HomeBlock::Genres]).ok().unwrap();
    assert_eq!((page.blocks.len(), page.scope), (1, found().ok().unwrap()));
    let wrong = home(found(), Some(Err("unknown variant".to_string())), &Vec::new());
    assert_eq!(wrong.err().unwrap().message, "unknown variant");
    assert_eq!(home(lost(), None, &Vec::new()).err().unwrap().status, 500);
}

#[test]
fn pages_are_read_from_requests() {
    let page = PageKind::Tracks.read(
        &parameters(&[("source", "s"), ("q", "x"), ("favorites", "true"), ("limit", "999")]),
        lost(),
    );
    let page = page.ok().unwrap();
    assert_eq!((page.filter.as_str(), page.favorites, page.descending), ("x", true, false));
    assert_eq!((page.offset, page.limit), (0, 256));
    assert!(matches!(
        &page.list,
        Listing::Tracks { source, folder: None, sort: TrackSort::Title } if source == "s"
    ));
    let page = PageKind::AlbumTracks.read(&parameters(&[("id", "12"), ("offset", "48")]), lost());
    let page = page.ok().unwrap();
    assert!(matches!(page.list, Listing::AlbumTracks { album: 12, sort: TrackSort::TrackNumber }));
    assert_eq!((page.offset, page.limit, page.scope), (48, 100, EVERYWHERE));
    let page = PageKind::ArtistTracks.read(
        &parameters(&[("id", "-3"), ("folder", "f"), ("album_artists", "true")]),
        found(),
    );
    let page = page.ok().unwrap();
    assert!(matches!(page.list, Listing::ArtistTracks { artist: -3, album_artists: true, .. }));
    assert_eq!(page.scope, Scope { source: None, folder: Some(9) });
    let page = PageKind::SmartPlaylists.read(&parameters(&[("source", "s")]), found());
    let page = page.ok().unwrap();
    assert!(matches!(page.list, Listing::SmartPlaylists { sort: ListSort::Position }));
    assert_eq!((page.limit, page.scope), (48, found().ok().unwrap()));
    let limit = |kind: PageKind| {
        let asked = parameters(&[("id", "1"), ("limit", "1000"), ("source", "s")]);
        kind.read(&asked, found()).ok().unwrap().limit
    };
    assert_eq!(limit(PageKind::SmartPlaylists), 64);
    assert_eq!(limit(PageKind::Playlists), 128);
    assert_eq!(limit(PageKind::Entries), 256);
    assert_eq!(limit(PageKind::GenreTracks), 256);
    assert_eq!(limit(PageKind::Folders), 128);
    assert_eq!(limit(PageKind::SmartTracks), 256);
    assert_eq!(limit(PageKind::Artists), 128);
}

#[test]
fn pages_are_refused_for_what_is_wrong_first() {
    let refused = |kind: PageKind, pairs: &[(&str, &str)], scope: Result<Scope, ApiError>| {
        kind.read(&parameters(pairs), scope).err().unwrap().message
    };
    let wrong: &[(&str, &str)] = &[("offset", "x"), ("sort", "odd"), ("descending", "1")];
    assert_eq!(refused(PageKind::Albums, wrong, lost()), "invalid digit found in string");
    assert_eq!(refused(PageKind::Artists, wrong, lost()), "lost");
    assert_eq!(refused(PageKind::Artists, wrong, found()), "Unknown artist sort");
    assert_eq!(refused(PageKind::Playlists, wrong, lost()), "Unknown playlist sort");
    assert_eq!(refused(PageKind::SmartPlaylists, wrong, found()), "Unknown smart playlist sort");
    assert_eq!(refused(PageKind::Entries, wrong, found()), "id is required");
    let entries: &[(&str, &str)] = &[("id", "1"), ("sort", "year")];
    assert_eq!(refused(PageKind::Entries, entries, lost()), "Unknown playlist entry sort");
    let flag: &[(&str, &str)] = &[("descending", "1"), ("sort", "odd")];
    assert_eq!(
        refused(PageKind::Albums, flag, lost()),
        "provided string was not `true` or `false`"
    );
    assert_eq!(refused(PageKind::Albums, &[("sort", "odd")], found()), "Unknown album sort");
    assert_eq!(refused(PageKind::Tracks, &[], found()), "source is required");
    assert!(refused(PageKind::GenreTracks, &[("id", "x")], found()).contains("line 1 column 1"));
    assert_eq!(key(&parameters(&[("id", " 7 ")]), "id").ok(), Some(7));
    assert!(key(&parameters(&[("id", "7.5")]), "id").is_err());
    let given = PageKind::Entries.page(&parameters(&[]), Ok(5), lost()).ok().unwrap();
    assert!(matches!(given.list, Listing::Entries { playlist: 5, sort: EntrySort::Position }));
    assert!(PageKind::Albums.needs_scope(&parameters(&[])));
    assert!(!PageKind::Entries.needs_scope(&parameters(&[("source", "s")])));
    assert!(PageKind::Playlists.needs_scope(&parameters(&[("source", "s")])));
    assert_eq!(PageKind::SmartTracks.field(), "tracks");
    assert_eq!(PageKind::Entries.field(), "entries");
    assert!(!PageKind::GenreTracks.tells_place() && PageKind::Tracks.tells_place());
    assert_eq!(PageKind::AlbumTracks.failure_status(), 400);
    assert_eq!(PageKind::Albums.failure_status(), 500);
}

#[test]
fn selections_fill_playlists() {
    let uris = vec!["u".to_string()];
    assert!(matches!(
        selected_uris(uris.clone(), None, Some("s".to_string()), None),
        Selected::Uris(given) if given == uris
    ));
    let album = Some(MediaSelection::Album(3));
    assert!(matches!(
        selected_uris(uris.clone(), album, None, Some("f".to_string())),
        Selected::Target { target: PlaybackTarget::AlbumKey(3), scope: SelectionScope::Selected }
    ));
    assert!(matches!(
        selected_uris(uris, album, Some("s".to_string()), Some("f".to_string())),
        Selected::Target { scope: SelectionScope::Named { source, folder: Some(folder) }, .. }
            if source == "s" && folder == "f"
    ));
    let text = |text: &str| Some(text.to_string());
    assert_eq!(create(text("a"), text("b")), text("a"));
    assert_eq!(create(None, text("b")), text("b"));
}

#[test]
fn commands_need_their_values() {
    let empty = || CommandBody {
        position_ms: None,
        has_volume: false,
        persist: None,
        muted: None,
        enabled: None,
        mode: None,
    };
    assert!(!needs_body("play") && needs_body("auto-dj"));
    let refused = |name: &str| playback_command(name, &empty()).err().unwrap();
    assert_eq!(refused("seek").message, "position_ms must be a nonnegative integer");
    assert_eq!(refused("volume").message, "volume must be a number");
    assert_eq!(refused("mute").message, "muted must be true or false");
    assert_eq!(refused("shuffle").message, "enabled must be true or false");
    assert_eq!(refused("repeat").message, "Repeat mode must be off, one or all");
    assert_eq!(refused("odd").status, 404);
    assert_eq!(refused("odd").message, "Route not found");
    let mut body = empty();
    body.has_volume = true;
    body.mode = Some("all".to_string());
    body.position_ms = Some(9);
    assert!(matches!(
        playback_command("volume", &body),
        Ok(TransportCommand::Volume { persist: true })
    ));
    assert!(matches!(playback_command("seek", &body), Ok(TransportCommand::Seek(9))));
    assert!(matches!(
        playback_command("repeat", &body),
        Ok(TransportCommand::Repeat(RepeatMode::All))
    ));
    assert_eq!(repeat_name(RepeatMode::One), "one");
    assert_eq!(PlaybackState::Resolving.name(), "resolving");
    assert!(event_shows_queue(true, false, false, false));
    assert!(event_shows_queue(false, false, true, false));
    assert!(!event_shows_queue(false, false, false, false));
    assert!(event_shows_queue(false, true, true, true));
}

#[test]
fn media_requests_are_checked() {
    assert_eq!(favorite("album").ok(), Some(FavoriteKind::Album));
    assert!(favorite("odd").is_err());
    assert_eq!(radio(None).ok(), radio(Some("replace")).ok());
    assert!(radio(Some("odd")).is_err());
    assert!(random(found(), "odd", 5).is_err());
    assert_eq!(random(lost(), "odd", 5).err().unwrap().message, "lost");
    let play = random(found(), "append", 501).ok().unwrap();
    assert_eq!((play.placement, play.requested), (QueuePlacement::Last, 500));
    assert_eq!(play.scope.source, Some(4));
    let genres = random_settings(&parameters(&[("offset", "64"), ("q", "r")]), found());
    let genres = genres.ok().unwrap();
    assert_eq!((genres.offset, genres.limit, genres.filter.as_str()), (64, 64, "r"));
    assert!(random_settings(&parameters(&[("offset", "-1")]), found()).is_err());
    assert!(matches!(reorder_target(None), QueueReorderTarget::End));
    let of = |pairs: &[(&str, &str)], scope: Result<Scope, ApiError>, kind: Option<&str>| {
        artwork(&parameters(pairs), scope, kind)
    };
    let smart: &[(&str, &str)] = &[("smart_playlist", "2"), ("source", "s")];
    assert!(matches!(of(&[("playlist", "1")], lost(), None), Ok(CoverOf::Playlist(1))));
    assert!(matches!(
        of(smart, found(), None),
        Ok(CoverOf::SmartPlaylist { id: 2, source: Some(4) })
    ));
    assert_eq!(of(smart, lost(), None).err().unwrap().message, "lost");
    assert!(matches!(
        of(&[("smart_playlist", "2")], lost(), None),
        Ok(CoverOf::SmartPlaylist { id: 2, source: None })
    ));
    let uri: &[(&str, &str)] = &[("uri", "u")];
    assert!(matches!(of(uri, lost(), Some("artist")), Ok(CoverOf::Artist(uri)) if uri == "u"));
    assert!(matches!(of(uri, lost(), Some("album")), Ok(CoverOf::Album(_))));
    assert!(matches!(of(uri, lost(), None), Ok(CoverOf::Track(_))));
    assert_eq!(of(&[], found(), None).err().unwrap().message, "uri is required");
    assert!(matches!(
        cover(&parameters(&[("playlist", "x")]), Ok(6), lost(), None),
        Ok(CoverOf::Playlist(6))
    ));
    assert_eq!(playlist_cover(None, Some(vec![1])), Some(vec![1]));
    assert_eq!(playlist_cover(Some(vec![2]), Some(vec![1])), Some(vec![2]));
    assert_eq!(LyricsState::Missing.name(), "empty");
    assert_eq!(LyricsState::Document.name(), "ready");
    assert!(LyricsState::Missing.names_entry() && !LyricsState::Cleared.names_entry());
    assert_eq!(lyrics_font_size(Some(20)), 20);
    assert_eq!(lyrics_font_size(None), 19);
    assert!(shows_album_artists(0) && !shows_album_artists(2));
}

#[test]
fn pins_show_their_source() {
    let sources = vec![
        SourceEntry { id: "a".to_string(), kind: "plex".to_string(), name: "A".to_string() },
        SourceEntry { id: "b".to_string(), kind: "smb".to_string(), name: "B".to_string() },
    ];
    let pin = |kind: PinKind, found: bool, row: bool, source: Option<&str>| PinFacts {
        kind,
        source_found: found,
        row_found: row,
        row_source: source.map(str::to_owned),
    };
    let pins = vec![
        pin(PinKind::Album, true, true, Some("b")),
        pin(PinKind::Album, false, true, Some("b")),
        pin(PinKind::Album, true, false, None),
        pin(PinKind::Playlist, false, true, Some("b")),
        pin(PinKind::SmartPlaylist, false, true, None),
    ];
    let shown = list(&pins, &sources);
    let places: Vec<usize> = shown.iter().map(|item| item.pin).collect();
    assert_eq!(places, [0, 3, 4]);
    assert!(shown[0].badge.is_none());
    assert!(matches!(&shown[1].badge, Some(Badge::Source { kind, name }) if kind == "smb" && name == "B"));
    assert!(matches!(&shown[2].badge, Some(Badge::Rufin)));
    assert_eq!(PinKind::SmartPlaylist.name(), "smart-playlist");
    assert!(PinKind::Album.needs_source());
}

#[test]
fn playlist_files_have_actions() {
    assert!(matches!(file_action("save", None, None, true), Ok(FileAction::Save { force: true })));
    assert!(matches!(file_action("unlink", None, None, false), Ok(FileAction::Unlink)));
    assert!(file_action("rename", None, None, false).is_err());
    assert!(file_action("link", None, None, false).is_err());
    assert!(file_action("odd", None, None, false).is_err());
    assert!(failure_status("whatever") == 400);
    assert_eq!(selection_target(MediaSelection::Genre(4)), PlaybackTarget::Genre(4));
    assert_eq!(
        selection_target(MediaSelection::Artist { id: 3, album_artists: true }),
        PlaybackTarget::ArtistKey(3, true)
    );
}

#[test]
fn controllers_are_reached_by_their_addresses() {
    let settings = ControllerSettings::default();
    assert!(!settings.enabled);
    let status = |address: Option<Address>| ControllerStatus {
        address: address.map(|address| SocketAddress { address, port: 9 }),
        token: String::new(),
        error: None,
    };
    let network = vec![Address::V4(0x0a00_0001), Address::V6(5)];
    assert_eq!(status(None).addresses(&network).len(), 0);
    let own = status(Some(LOCAL)).addresses(&network);
    assert_eq!(own.len(), 1);
    assert_eq!(own[0].port, 9);
    assert_eq!(access_token(Some("t".to_string()), false).as_deref(), Some("t"));
    assert_eq!(access_token(Some("t".to_string()), true), None);
    assert_eq!(serve(""), Err("An API token is required"));
    assert_eq!(serve("t"), Ok(()));
}

#[test]
fn sources_are_selected_by_path() {
    assert!(matches!(
        select("/api/sources/refresh", "s".to_string()),
        Ok(SourceAction::Refresh(id)) if id == "s"
    ));
    assert!(matches!(
        select("/api/sources/select", "s".to_string()),
        Ok(SourceAction::Select(id)) if id == "s"
    ));
    assert!(select("/api/sources/select", String::new()).is_err());
    assert!(!adds_local("/api/sources/webdav"));
    assert_eq!(queue_entry(String::new()).err().unwrap().message, "id is required");
    assert_eq!(queue_entry("e".to_string()).ok().as_deref(), Some("e"));
}
