use wakatime_ls::clock::Timestamp;
use wakatime_ls::config::{platform_tag, ClientInfo, Settings};
use wakatime_ls::event::{Event, RangeStart};
use wakatime_ls::debounce::CurrentFile;
use wakatime_ls::args::heartbeat_args;

const VERSION: &str = "0.1.0";
const T0: i64 = 1_717_171_717;

fn at(secs: i64) -> Timestamp {
    Timestamp::new(secs, 0)
}

fn strs(v: &[String]) -> Vec<&str> {
    v.iter().map(|s| s.as_str()).collect()
}

fn has_pair(v: &[String], flag: &str, value: &str) -> bool {
    v.windows(2).any(|w| w[0] == flag && w[1] == value)
}

fn has(v: &[String], flag: &str) -> bool {
    v.iter().any(|s| s == flag)
}

fn zed_tag() -> String {
    let client = ClientInfo { name: "Zed".to_string(), version: Some("0.150".to_string()) };
    platform_tag(Some(&client), VERSION).unwrap()
}

#[test]
fn fresh_open_dispatches_with_language_and_plugin() {
    let tag = zed_tag();
    assert_eq!(tag, "Zed/0.150 Zed-wakatime/0.1.0");
    let mut tracker = CurrentFile::new(at(T0 - 1));
    let event = Event::did_open("file:///a.rs", "rust".to_string()).unwrap();
    let args = tracker.send(event, at(T0), &Settings::empty(), &tag).unwrap();
    assert!(has_pair(&args, "--entity", "/a.rs"));
    assert!(has_pair(&args, "--write", "false"));
    assert!(has_pair(&args, "--language", "rust"));
    assert!(has_pair(&args, "--plugin", "Zed/0.150 Zed-wakatime/0.1.0"));
    assert!(!has(&args, "--guess-language"));
    assert_eq!(tracker.uri, "/a.rs");
    assert_eq!(tracker.timestamp, at(T0));
}

#[test]
fn saves_within_window_of_open_are_dropped() {
    let tag = zed_tag();
    let settings = Settings::empty();
    let mut tracker = CurrentFile::new(at(T0 - 1));
    let open = Event::did_open("file:///a.rs", "rust".to_string()).unwrap();
    assert!(tracker.send(open, at(T0), &settings, &tag).is_some());
    let first = tracker.send(Event::did_save("file:///a.rs").unwrap(), at(T0 + 10), &settings, &tag);
    let second = tracker.send(Event::did_save("file:///a.rs").unwrap(), at(T0 + 70), &settings, &tag);
    // The open at T0 already recorded a.rs, so both saves fall in its window.
    assert!(first.is_none());
    assert!(second.is_none());
    assert_eq!(tracker.timestamp, at(T0));
}

#[test]
fn first_save_after_other_document_then_debounced() {
    let settings = Settings::empty();
    let mut tracker = CurrentFile::new(at(T0 - 1));
    let open = Event::did_open("file:///b.rs", "rust".to_string()).unwrap();
    assert!(tracker.send(open, at(T0), &settings, "").is_some());
    let first = tracker.send(Event::did_save("file:///a.rs").unwrap(), at(T0 + 10), &settings, "");
    let second = tracker.send(Event::did_save("file:///a.rs").unwrap(), at(T0 + 70), &settings, "");
    assert!(first.is_some());
    assert!(second.is_none());
    assert_eq!(tracker.timestamp, at(T0 + 10));
}

#[test]
fn save_after_window_dispatches() {
    let tag = zed_tag();
    let settings = Settings::empty();
    let mut tracker = CurrentFile::new(at(T0 - 1));
    let open = Event::did_open("file:///a.rs", "rust".to_string()).unwrap();
    assert!(tracker.send(open, at(T0), &settings, &tag).is_some());
    let args = tracker
        .send(Event::did_save("file:///a.rs").unwrap(), at(T0 + 121), &settings, &tag)
        .unwrap();
    assert!(has_pair(&args, "--write", "true"));
    assert!(has(&args, "--guess-language"));
    assert!(!has(&args, "--lineno"));
    assert!(!has(&args, "--language"));
}

#[test]
fn change_with_range_sets_line_and_cursor() {
    let mut tracker = CurrentFile::new(at(T0 - 1));
    let start = RangeStart { line: 12, character: 5 };
    let event = Event::did_change("file:///b.rs", Some(start)).unwrap();
    let args = tracker.send(event, at(T0), &Settings::empty(), "").unwrap();
    assert!(has_pair(&args, "--lineno", "12"));
    assert!(has_pair(&args, "--cursorpos", "5"));
    assert!(has_pair(&args, "--write", "false"));
    assert!(has(&args, "--guess-language"));
    assert!(has_pair(&args, "--entity", "/b.rs"));
}

#[test]
fn change_without_range_has_no_position() {
    let event = Event::did_change("file:///b.rs", None).unwrap();
    assert_eq!(event.lineno, None);
    assert_eq!(event.cursor_pos, None);
    assert!(!event.is_write);
    assert_eq!(event.language, None);
}

#[test]
fn cross_file_saves_both_dispatch() {
    let settings = Settings::empty();
    let mut tracker = CurrentFile::new(at(T0 - 1));
    let a = tracker.send(Event::did_save("file:///a.rs").unwrap(), at(T0), &settings, "");
    let b = tracker.send(Event::did_save("file:///b.rs").unwrap(), at(T0 + 1), &settings, "");
    assert!(a.is_some());
    assert!(b.is_some());
    assert_eq!(tracker.uri, "/b.rs");
}

#[test]
fn config_push_adds_key_and_url() {
    let settings = Settings {
        api_key: Some("K".to_string()),
        api_url: Some("https://api.example".to_string()),
    };
    let mut tracker = CurrentFile::new(at(T0 - 1));
    let args = tracker
        .send(Event::did_save("file:///a.rs").unwrap(), at(T0), &settings, "")
        .unwrap();
    assert!(has_pair(&args, "--key", "K"));
    assert!(has_pair(&args, "--api-url", "https://api.example"));
}

#[test]
fn full_argument_vector_in_order() {
    let settings = Settings {
        api_key: Some("K".to_string()),
        api_url: Some("https://api.example".to_string()),
    };
    let event = Event::changed("/b.rs".to_string(), Some(RangeStart { line: 12, character: 5 }));
    let args = heartbeat_args(&event, &at(T0), &settings, "Zed Zed-wakatime/0.1.0");
    assert_eq!(
        strs(&args),
        vec![
            "--time", "1717171717", "--write", "false", "--entity", "/b.rs", "--plugin",
            "Zed Zed-wakatime/0.1.0", "--key", "K", "--api-url", "https://api.example",
            "--guess-language", "--lineno", "12", "--cursorpos", "5",
        ]
    );
}

#[test]
fn negative_time_renders_sign() {
    let event = Event::saved("x".to_string());
    let args = heartbeat_args(&event, &at(-42), &Settings::empty(), "");
    assert_eq!(
        strs(&args),
        vec!["--time", "-42", "--write", "true", "--entity", "x", "--guess-language"]
    );
}

#[test]
fn same_inputs_give_identical_arguments() {
    let event = Event::opened("/a.rs".to_string(), "rust".to_string());
    let settings = Settings { api_key: Some("K".to_string()), api_url: None };
    let one = heartbeat_args(&event, &at(T0), &settings, "tag");
    let two = heartbeat_args(&event, &at(T0), &settings, "tag");
    assert_eq!(one, two);
}

#[test]
fn initialize_then_shutdown_sends_nothing() {
    let tracker = CurrentFile::new(at(T0));
    let _tag = zed_tag();
    assert_eq!(tracker.uri, "");
    assert_eq!(tracker.timestamp, at(T0));
}

#[test]
fn identical_saves_within_a_second_send_once() {
    let settings = Settings::empty();
    let mut tracker = CurrentFile::new(at(T0 - 1));
    let a = tracker.send(Event::did_save("file:///a.rs").unwrap(), at(T0), &settings, "");
    let b = tracker.send(
        Event::did_save("file:///a.rs").unwrap(),
        Timestamp::new(T0, 900_000_000),
        &settings,
        "",
    );
    assert!(a.is_some());
    assert!(b.is_none());
}

#[test]
fn save_exactly_at_window_end_dispatches() {
    let settings = Settings::empty();
    let mut tracker = CurrentFile::new(at(T0 - 1));
    assert!(tracker.send(Event::did_save("file:///a.rs").unwrap(), at(T0), &settings, "").is_some());
    let just_before = Timestamp::new(T0 + 119, 999_999_999);
    assert!(tracker
        .send(Event::did_save("file:///a.rs").unwrap(), just_before, &settings, "")
        .is_none());
    assert!(tracker
        .send(Event::did_save("file:///a.rs").unwrap(), at(T0 + 120), &settings, "")
        .is_some());
}

#[test]
fn non_saves_always_dispatch() {
    let settings = Settings::empty();
    let mut tracker = CurrentFile::new(at(T0 - 1));
    for i in 0..5 {
        let ev = Event::did_change("file:///a.rs", None).unwrap();
        assert!(tracker.send(ev, at(T0 + i), &settings, "").is_some());
        assert_eq!(tracker.timestamp, at(T0 + i));
    }
}

#[test]
fn empty_tag_gives_no_plugin_flag() {
    let event = Event::opened("/a.rs".to_string(), "rust".to_string());
    let args = heartbeat_args(&event, &at(T0), &Settings::empty(), "");
    assert!(!has(&args, "--plugin"));
    assert!(has_pair(&args, "--language", "rust"));
}

#[test]
fn no_client_info_gives_no_tag() {
    assert_eq!(platform_tag(None, VERSION), None);
    let client = ClientInfo { name: "Vim".to_string(), version: None };
    assert_eq!(platform_tag(Some(&client), "2.0").unwrap(), "Vim Vim-wakatime/2.0");
}

#[test]
fn first_event_of_session_dispatches_on_fresh_state() {
    let mut tracker = CurrentFile::started_now();
    let ev = Event::did_save("file:///a.rs").unwrap();
    assert!(tracker.send_now(ev, &Settings::empty(), "").is_some());
    let again = Event::did_save("file:///a.rs").unwrap();
    assert!(tracker.send_now(again, &Settings::empty(), "").is_none());
    let change = Event::did_change("file:///a.rs", None).unwrap();
    assert!(tracker.send_now(change, &Settings::empty(), "").is_some());
}

#[test]
fn uri_normalization_drops_scheme_keeps_userinfo_and_host() {
    let ev = Event::did_save("https://user:pw@example.com/x?y").unwrap();
    assert_eq!(ev.uri, "user:pw@example.com/x?y");
    let ev = Event::did_save("file:///home/u/a.rs").unwrap();
    assert_eq!(ev.uri, "/home/u/a.rs");
    let ev = Event::did_save("mailto:x@y.z").unwrap();
    assert_eq!(ev.uri, "x@y.z");
    assert!(Event::did_save("not a url").is_none());
    assert!(Event::did_open("", "rust".to_string()).is_none());
}

#[test]
fn save_burst_in_one_window_sends_once_then_again_after_it() {
    let settings = Settings::empty();
    let mut tracker = CurrentFile::new(at(T0 - 1000));
    let mut sent = 0;
    for i in 0..12 {
        let ev = Event::did_save("file:///a.rs").unwrap();
        if tracker.send(ev, at(T0 + 10 * i), &settings, "").is_some() {
            sent += 1;
        }
    }
    assert_eq!(sent, 1);
    let ev = Event::did_save("file:///a.rs").unwrap();
    assert!(tracker.send(ev, at(T0 + 120), &settings, "").is_some());
}
