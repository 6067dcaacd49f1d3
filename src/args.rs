//! The tracker's argument vector for one heartbeat.
use vstd::prelude::*;
use vstd::string::*;
use crate::clock::Timestamp;
use crate::config::{Settings, SettingsView};
use crate::event::{Event, EventView};
use crate::text::{bool_string, bool_text, decimal, i64_text, signed_decimal, u64_text};

verus! {

/// The texts of an argument vector.
pub open spec fn argv_text(v: Seq<String>) -> Seq<Seq<char>> {
    v.map_values(|s: String| s@)
}

/// `flag value` where the value is present, nothing otherwise.
pub open spec fn optional_flag(flag: Seq<char>, value: Option<Seq<char>>) -> Seq<Seq<char>> {
    match value {
        Some(v) => seq![flag, v],
        None => Seq::empty(),
    }
}

/// The decimal text of an optional number.
pub open spec fn opt_decimal(n: Option<u64>) -> Option<Seq<char>> {
    match n {
        Some(x) => Some(decimal(x as nat)),
        None => None,
    }
}

/// The arguments of a heartbeat for event `e` at `now_secs` seconds since the
/// epoch, under `settings`, with `plugin` as the editor identification.
pub open spec fn heartbeat_argv(
    e: EventView,
    now_secs: int,
    settings: SettingsView,
    plugin: Seq<char>,
) -> Seq<Seq<char>> {
    seq!["--time"@, signed_decimal(now_secs), "--write"@, bool_text(e.is_write), "--entity"@, e.uri]
        + (if plugin.len() == 0 { Seq::empty() } else { seq!["--plugin"@, plugin] })
        + optional_flag("--key"@, settings.api_key)
        + optional_flag("--api-url"@, settings.api_url)
        + match e.language {
            Some(l) => seq!["--language"@, l],
            None => seq!["--guess-language"@],
        }
        + optional_flag("--lineno"@, opt_decimal(e.lineno))
        + optional_flag("--cursorpos"@, opt_decimal(e.cursor_pos))
}

fn push_arg(args: &mut Vec<String>, a: String)
    ensures
        argv_text(final(args)@) == argv_text(old(args)@).push(a@),
{
    args.push(a);
    proof {
        assert(argv_text(args@) =~= argv_text(old(args)@).push(a@));
    }
}

fn push_flag(args: &mut Vec<String>, flag: &str, value: String)
    ensures
        argv_text(final(args)@) == argv_text(old(args)@) + seq![flag@, value@],
{
    push_arg(args, String::from_str(flag));
    push_arg(args, value);
    proof {
        assert(argv_text(args@) =~= argv_text(old(args)@) + seq![flag@, value@]);
    }
}

fn push_optional(args: &mut Vec<String>, flag: &str, value: &Option<String>)
    ensures
        argv_text(final(args)@) == argv_text(old(args)@) + optional_flag(
            flag@,
            crate::event::opt_text(*value),
        ),
{
    match value {
        Some(v) => push_flag(args, flag, v.clone()),
        None => {
            assert(argv_text(args@) =~= argv_text(args@) + Seq::<Seq<char>>::empty());
        },
    }
}

fn push_number(args: &mut Vec<String>, flag: &str, value: Option<u64>)
    ensures
        argv_text(final(args)@) == argv_text(old(args)@) + optional_flag(flag@, opt_decimal(value)),
{
    match value {
        Some(n) => push_flag(args, flag, u64_text(n)),
        None => {
            assert(argv_text(args@) =~= argv_text(args@) + Seq::<Seq<char>>::empty());
        },
    }
}

/// Builds the tracker's arguments for `event` at `now`; the result depends on
/// the arguments alone.
pub fn heartbeat_args(event: &Event, now: &Timestamp, settings: &Settings, plugin: &str) -> (r: Vec<
    String,
>)
    ensures
        argv_text(r@) == heartbeat_argv(event@, now.secs as int, settings@, plugin@),
{
    let mut args: Vec<String> = Vec::new();
    push_flag(&mut args, "--time", i64_text(now.secs));
    push_flag(&mut args, "--write", bool_string(event.is_write));
    push_flag(&mut args, "--entity", event.uri.clone());
    let ghost head = argv_text(args@);
    if !plugin.is_empty() {
        push_flag(&mut args, "--plugin", String::from_str(plugin));
    }
    let ghost with_plugin = argv_text(args@);
    push_optional(&mut args, "--key", &settings.api_key);
    let ghost with_key = argv_text(args@);
    push_optional(&mut args, "--api-url", &settings.api_url);
    let ghost with_url = argv_text(args@);
    match &event.language {
        Some(l) => push_flag(&mut args, "--language", l.clone()),
        None => push_arg(&mut args, String::from_str("--guess-language")),
    }
    let ghost with_language = argv_text(args@);
    push_number(&mut args, "--lineno", event.lineno);
    let ghost with_line = argv_text(args@);
    push_number(&mut args, "--cursorpos", event.cursor_pos);
    proof {
        let e = event@;
        assert(head =~= seq![
            "--time"@,
            signed_decimal(now.secs as int),
            "--write"@,
            bool_text(e.is_write),
            "--entity"@,
            e.uri,
        ]);
        assert(plugin@.len() == 0 ==> with_plugin =~= head + Seq::<Seq<char>>::empty());
        assert(e.language is None ==> with_language =~= with_url + seq!["--guess-language"@]);
        assert(argv_text(args@) =~= heartbeat_argv(e, now.secs as int, settings@, plugin@));
    }
    args
}

} // verus!
