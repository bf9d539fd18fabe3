//! The log and what is kept out of it.

use rufin_core::diagnostics::{
    panic_report, profile_filter, record_glib_log, rotate_files, startup_debug_enabled,
    startup_filter, DiagnosticOutput, EventLevel, LogWrite, NativeLevel, PanicLocation,
    PrivacyVisitor, RotatingLog, StartupFilter, BUFFER_MAX_BYTES, LOG_SEGMENT_MAX_BYTES,
};
use rufin_core::redaction::{
    home_prefix, redact_embedded_secrets, redact_local_paths, replace_ranges, sanitize_field,
    sanitize_free_text, summarize_path, summarize_public_url, summarize_url,
};
use rufin_core::text::{is_whitespace, parse_number, split_words};

#[test]
fn privacy_format_keeps_track_ids_and_removes_url_secrets() {
    let text = sanitize_free_text(
        "track_id=navidrome:track:42 https://private.test/rest/stream?id=42&token=secret",
        &[],
    );

    assert!(text.contains("track_id=navidrome:track:42"));
    assert!(text.contains("https://<server>/rest/stream?keys=id,token"));
    assert!(!text.contains("private.test"));
    assert!(!text.contains("secret"));
}

#[test]
fn malformed_url_fragments_stop_at_a_redacted_value() {
    assert_eq!(
        sanitize_free_text("request failed for https://[invalid", &[]),
        "request failed for <url>"
    );
}

#[test]
fn path_fields_keep_only_the_filename() {
    assert_eq!(
        sanitize_field("source_path", "/home/example/Music/Artist/Track.flac", &[]),
        "<local>/Track.flac"
    );
    assert_eq!(
        sanitize_field("root", "/var/home/example/Music/King Crimson", &[]),
        "<local>/King Crimson"
    );
    assert_eq!(
        sanitize_field("endpoint", "/Users/abc/Views", &[]),
        "/Users/abc/Views"
    );
}

#[test]
fn embedded_paths_and_credentials_are_redacted_without_losing_media_facts() {
    let text = sanitize_free_text(
        "failed \"/var/home/screwy/Music/King Crimson/Red.flac\" token = \"private value\" \
         format=flac bitrate_kbps=320 track_id=local:track:7",
        &[],
    );

    assert!(text.contains("<local>/Red.flac"));
    assert!(text.contains("token = \"<redacted>\""));
    assert!(text.contains("format=flac bitrate_kbps=320"));
    assert!(text.contains("track_id=local:track:7"));
    assert!(!text.contains("screwy"));
    assert!(!text.contains("private"));
}

#[test]
fn diagnostic_buffer_keeps_a_bounded_tail() {
    let mut output = DiagnosticOutput::new();
    output.push_bounded("a".repeat(BUFFER_MAX_BYTES));
    output.push_bounded("tail".to_string());

    let snapshot = output.snapshot();
    assert!(snapshot.len() <= BUFFER_MAX_BYTES);
    assert!(snapshot.ends_with("tail"));
}

#[test]
fn previous_crash_is_imported_into_the_next_session_log() {
    let mut output = DiagnosticOutput::new();
    output.import_previous_panic_report("panic at /home/example/Rufin/src/main.rs:20", &[]);

    let snapshot = output.snapshot();
    assert!(snapshot.contains("Previous Rufin crash report"));
    assert!(snapshot.contains("<local>/main.rs:20"));
    assert_eq!(output.revision(), 1);
}

#[test]
fn an_overlong_entry_is_cut_at_a_character() {
    let mut output = DiagnosticOutput::new();
    let mut text = "é".repeat(BUFFER_MAX_BYTES / 2);
    text.push('x');
    output.push_bounded(text);
    let snapshot = output.snapshot();
    assert_eq!(snapshot.len(), BUFFER_MAX_BYTES - 1);
    assert!(snapshot.ends_with("éx"));
}

#[test]
fn small_entries_are_all_kept() {
    let mut output = DiagnosticOutput::new();
    output.append("one ".to_string());
    output.append("two".to_string());
    assert_eq!(output.snapshot(), "one two");
    assert_eq!(output.revision(), 2);
    output.persist(b"");
    assert_eq!(output.revision(), 2);
    output.persist(b" \xff.");
    assert_eq!(output.snapshot(), "one two \u{fffd}.");
    assert_eq!(output.revision(), 3);
}

#[test]
fn a_missing_log_file_is_noted() {
    let output = DiagnosticOutput::without_file("no access to /home/someone/logs", &[]);
    assert_eq!(
        output.snapshot(),
        "WARN rufin::diagnostics: local log file is unavailable: no access to <local>/logs\n"
    );
    assert_eq!(output.revision(), 1);
}

#[test]
fn log_segments_rotate_before_they_overflow() {
    let mut log = RotatingLog::open();
    let most = LOG_SEGMENT_MAX_BYTES as usize;
    assert_eq!(log.append(most), LogWrite { rotate: false, skip: 0 });
    assert_eq!(log.append(1), LogWrite { rotate: true, skip: 0 });
    assert_eq!(log.bytes, 1);
    assert_eq!(log.append(most + 5), LogWrite { rotate: true, skip: 5 });
    assert_eq!(log.bytes, LOG_SEGMENT_MAX_BYTES);
}

#[test]
fn rotation_drops_the_oldest_segment() {
    let steps = rotate_files("rufin.log");
    assert_eq!(steps.len(), 3);
    assert_eq!(steps[0].from, "rufin.log.2");
    assert_eq!(steps[0].to, None);
    assert_eq!(steps[1].from, "rufin.log.1");
    assert_eq!(steps[1].to.as_deref(), Some("rufin.log.2"));
    assert_eq!(steps[2].from, "rufin.log");
    assert_eq!(steps[2].to.as_deref(), Some("rufin.log.1"));
}

#[test]
fn fields_are_written_without_secrets() {
    let mut visitor = PrivacyVisitor { empty: true };
    assert_eq!(visitor.record_value("message", "source URL", &[]), "source URL");
    assert_eq!(
        visitor.record_value("url", "https://private.test/Users/abc/Views?api_key=secret", &[]),
        " url=https://<server>/Users/abc/Views?keys=api_key"
    );
    assert_eq!(
        visitor.record_value(
            "public_url",
            "https://coverartarchive.org/release/abc/front?size=250&token=secret",
            &[]
        ),
        " public_url=https://coverartarchive.org/release/abc/front?keys=size,token"
    );
    assert_eq!(visitor.record_value("Access_Token", "abc", &[]), " Access_Token=<redacted>");
}

#[test]
fn urls_are_summarized_by_their_parts() {
    assert_eq!(summarize_url("\"http://host:8080/a\""), "http://<server>/a");
    assert_eq!(summarize_url("file:///home/me/Music/a.flac"), "<local>/a.flac");
    assert_eq!(summarize_url("no url"), "<url>");
    assert_eq!(summarize_public_url("https://example.org/x?b=1"), "https://example.org/x?keys=b");
    assert_eq!(summarize_public_url("file:///tmp/x"), "<local>/x");
    assert_eq!(summarize_public_url("::"), "<url>");
    assert_eq!(summarize_public_url("\" data:x\" \""), "data://<server>x");
}

#[test]
fn paths_lose_their_folders() {
    assert_eq!(summarize_path("Some(\"/a/b\")"), "<local>/b");
    assert_eq!(summarize_path("C:\\Users\\me\\x.mp3"), "<local>/x.mp3");
    assert_eq!(summarize_path("///"), "<local>");
    assert_eq!(summarize_path("  name/  "), "<local>/name");
}

#[test]
fn secrets_are_found_by_their_names() {
    assert_eq!(redact_embedded_secrets("Password: hunter2, next"), "Password: <redacted>, next");
    assert_eq!(redact_embedded_secrets("token"), "token");
    assert_eq!(redact_embedded_secrets("api_key='a b' x"), "api_key='<redacted>' x");
    assert_eq!(redact_embedded_secrets("cookie=;secret=y"), "cookie=;secret=<redacted>");
}

#[test]
fn homes_of_the_environment_are_redacted() {
    let homes = vec!["/srv/people/ann".to_string(), "relative".to_string()];
    assert_eq!(
        redact_local_paths("open /srv/people/ann/x/y.txt and relative/z", &homes),
        "open <local>/y.txt and relative/z"
    );
    assert_eq!(redact_local_paths("C:\\Users\\ann\\y.txt!", &[]), "<local>/y.txt!");
    assert!(home_prefix("D:\\people"));
    assert!(!home_prefix("é:"));
}

#[test]
fn redacting_twice_changes_nothing() {
    for text in [
        "token=abc",
        "password = \"a b\" and secret: x, y",
        "cookie=token=\"x y\"",
        "token=cookie =abc",
        "api_key='unclosed",
        "token=\"\" secret=, cookie",
        "Authorization: Bearer abc",
    ] {
        let once = redact_embedded_secrets(text);
        assert_eq!(redact_embedded_secrets(&once), once);
    }
    // The first value reads on into the second one, once both are replaced.
    let once = redact_embedded_secrets("token=password=\",x\"");
    assert_eq!(once, "token=<redacted><redacted>\"");
    assert_eq!(redact_embedded_secrets(&once), "token=<redacted>");
    for text in ["no secrets here", "token and password", "secret=\"\" cookie:"] {
        assert_eq!(redact_embedded_secrets(text), text);
    }
}

#[test]
fn running_text_shows_no_server() {
    let logged = |host: &str, value: &str| {
        sanitize_free_text(&format!("open (https://{host}/p?k={value}), then go"), &[])
    };
    assert_eq!(logged("a.example", "1"), "open (https://<server>/p?keys=k), then go");
    assert_eq!(logged("a.example", "1"), logged("user:pw@b.example:81", "two"));
}

#[test]
fn overlapping_ranges_are_replaced_once() {
    assert_eq!(replace_ranges("abcdefgh", vec![(5, 7), (1, 3), (2, 6)], "-"), "a-de-h");
    assert_eq!(replace_ranges("abc", Vec::new(), "-"), "abc");
    assert_eq!(replace_ranges("abcdef", vec![(4, 5), (1, 3)], "X"), "aXdXf");
    assert_eq!(replace_ranges("abcdef", vec![(1, 3), (4, 5)], "X"), "aXdXf");
    assert_eq!(replace_ranges("abc", vec![(3, 3), (1, 1), (1, 2), (1, 1), (0, 0)], "-"), "-a---c-");
    assert_eq!(replace_ranges("aXXb", vec![(1, 3)], "-"), replace_ranges("aYYb", vec![(1, 3)], "-"));
}

#[test]
fn native_messages_keep_their_levels() {
    assert_eq!(record_glib_log(None, NativeLevel::Critical, "x"), ("GLib".to_string(), EventLevel::Error));
    assert_eq!(
        record_glib_log(Some("Gtk"), NativeLevel::Debug, "snapshot symbolic icon a").1,
        EventLevel::Trace
    );
    assert_eq!(record_glib_log(Some("Gdk"), NativeLevel::Debug, "x").1, EventLevel::Debug);
    assert_eq!(record_glib_log(None, NativeLevel::Message, "x").1, EventLevel::Info);
    assert_eq!(record_glib_log(None, NativeLevel::Warning, "x").1, EventLevel::Warn);
}

#[test]
fn the_environment_chooses_the_filter() {
    assert!(startup_debug_enabled(Some(" DEBUG ")));
    assert!(!startup_debug_enabled(Some("info")));
    assert!(!startup_debug_enabled(None));
    match startup_filter(Some("h2=trace"), false) {
        StartupFilter::Custom(custom) => assert_eq!(custom, "h2=trace"),
        StartupFilter::Profile(_) => panic!("a custom filter was asked for"),
    }
    match startup_filter(Some("  "), true) {
        StartupFilter::Custom(_) => panic!("a blank filter is none"),
        StartupFilter::Profile(profile) => assert_eq!(profile, profile_filter(true)),
    }
    assert!(profile_filter(false).starts_with("warn,metadata_lookup=info,"));
}

#[test]
fn panic_reports_hold_no_private_paths() {
    let location = Some(PanicLocation { file: "/home/me/src/main.rs".to_string(), line: 20, column: 5 });
    assert_eq!(
        panic_report("1.2", &None, &location, &Some("boom".to_string()), "trace", &[]),
        "Rufin 1.2\nthread: unnamed\nlocation: <local>/main.rs:20:5\nmessage: boom\n\ntrace\n"
    );
    assert_eq!(
        panic_report("1", &Some("t".to_string()), &None, &None, "", &[]),
        "Rufin 1\nthread: t\nlocation: unknown\nmessage: non-string panic payload\n\n\n"
    );
    let long = "x".repeat(BUFFER_MAX_BYTES);
    assert_eq!(panic_report("1", &None, &None, &None, &long, &[]).len(), BUFFER_MAX_BYTES);
}

#[test]
fn white_space_is_that_of_unicode() {
    for code in 0..=0x10ffffu32 {
        if let Some(c) = char::from_u32(code) {
            assert_eq!(is_whitespace(c), c.is_whitespace(), "{code:x}");
        }
    }
}

#[test]
fn words_and_numbers_are_read_like_std() {
    assert_eq!(split_words("  a\tbc \n d"), vec!["a", "bc", "d"]);
    assert!(split_words(" \n").is_empty());
    for text in ["", "0", "+7", "++7", "-1", "18446744073709551615", "18446744073709551616", "1x"] {
        assert_eq!(parse_number(text, u64::MAX), text.parse::<u64>().ok(), "{text}");
    }
}

#[test]
fn curated_debug_keeps_public_requests_private_and_suppresses_http2_frames() {
    let directives: Vec<&str> = profile_filter(true).split(',').collect();
    let level = |target: &str| {
        let named = directives.iter().filter_map(|directive| directive.split_once('='));
        named.filter(|(name, _)| target.starts_with(name)).map(|(_, level)| level).last()
    };
    let shown = |target: &str| level(target).unwrap_or(directives[0]) == "debug";
    let mut output = DiagnosticOutput::new();
    let mut debug = |target: &str, fields: &[(&str, &str)]| {
        if !shown(target) {
            return;
        }
        let mut visitor = PrivacyVisitor { empty: true };
        let mut line = format!("DEBUG {target}: ");
        for (name, value) in fields {
            line.push_str(&visitor.record_value(name, value, &[]));
        }
        line.push('\n');
        output.append(line);
    };
    debug("h2::codec", &[("message", "transport frame")]);
    debug("sources", &[("message", "source request"), ("endpoint", "/rest/getSongs")]);
    debug(
        "sources",
        &[("message", "source URL"), ("url", "https://private.test/Users/abc/Views?api_key=secret")],
    );
    debug(
        "metadata_lookup",
        &[
            ("message", "public request"),
            ("public_url", "https://coverartarchive.org/release/abc/front?size=250&token=secret"),
        ],
    );
    let snapshot = output.snapshot();
    assert!(snapshot.contains("source request"));
    assert!(snapshot.contains("url=https://<server>/Users/abc/Views?keys=api_key"));
    assert!(
        snapshot.contains("public_url=https://coverartarchive.org/release/abc/front?keys=size,token")
    );
    assert!(!snapshot.contains("transport frame"));
    assert!(!snapshot.contains("private.test"));
    assert!(!snapshot.contains("secret"));
    assert!(!snapshot.contains('\u{1b}'));
}
