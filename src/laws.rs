//! What holds of the debouncer and of the tracker's arguments over runs of events.
use vstd::prelude::*;
use crate::args::{heartbeat_argv, opt_decimal, optional_flag};
use crate::clock::Timestamp;
use crate::config::SettingsView;
use crate::event::EventView;
use crate::debounce::{next_state, suppressed, FileState, WINDOW_NANOS};
use crate::text::{bool_text, decimal, lemma_decimal_digits, signed_decimal};

verus! {

/// Number of heartbeats that a run of events, each with the time it arrives,
/// sends from debouncer state `c`.
pub open spec fn dispatch_count(c: FileState, run: Seq<(EventView, Timestamp)>) -> nat
    decreases run.len(),
{
    if run.len() == 0 {
        0
    } else {
        let (e, t) = run[0];
        (if suppressed(c, e, t) {
            0nat
        } else {
            1nat
        }) + dispatch_count(next_state(c, e, t), run.drop_first())
    }
}

/// Every event of the run is a save of `uri`.
pub open spec fn saves_of(run: Seq<(EventView, Timestamp)>, uri: Seq<char>) -> bool {
    forall|i: int| 0 <= i < run.len() ==> (#[trigger] run[i]).0.uri == uri && run[i].0.is_write
}

/// Every event of the run arrives at or after `start` and less than two
/// minutes after it.
pub open spec fn within_window(run: Seq<(EventView, Timestamp)>, start: int) -> bool {
    forall|i: int|
        0 <= i < run.len() ==> start <= (#[trigger] run[i]).1.total_nanos() < start + WINDOW_NANOS
}

/// Saves of the last heartbeat's document that arrive less than two minutes
/// after that heartbeat send nothing and leave the debouncer as it was.
pub proof fn lemma_saves_in_anchored_window_send_nothing(
    c: FileState,
    run: Seq<(EventView, Timestamp)>,
)
    requires
        saves_of(run, c.uri),
        forall|i: int|
            0 <= i < run.len() ==> (#[trigger] run[i]).1.total_nanos() < c.at.total_nanos()
                + WINDOW_NANOS,
    ensures
        dispatch_count(c, run) == 0,
    decreases run.len(),
{
    if run.len() > 0 {
        let (e, t) = run[0];
        assert(suppressed(c, e, t));
        let rest = run.drop_first();
        assert forall|i: int| 0 <= i < rest.len() implies (#[trigger] rest[i]).1.total_nanos()
            < c.at.total_nanos() + WINDOW_NANOS by {
            assert(rest[i] == run[i + 1]);
        }
        assert forall|i: int| 0 <= i < rest.len() implies (#[trigger] rest[i]).0.uri == c.uri
            && rest[i].0.is_write by {
            assert(rest[i] == run[i + 1]);
        }
        lemma_saves_in_anchored_window_send_nothing(c, rest);
    }
}

/// Saves of one document that all arrive within one two-minute window send at
/// most one heartbeat, whatever the debouncer held before.
pub proof fn lemma_save_burst_sends_at_most_once(
    c: FileState,
    uri: Seq<char>,
    run: Seq<(EventView, Timestamp)>,
    start: int,
)
    requires
        saves_of(run, uri),
        within_window(run, start),
    ensures
        dispatch_count(c, run) <= 1,
    decreases run.len(),
{
    if run.len() > 0 {
        let (e, t) = run[0];
        let rest = run.drop_first();
        assert forall|i: int| 0 <= i < rest.len() implies (#[trigger] rest[i]).0.uri == uri
            && rest[i].0.is_write by {
            assert(rest[i] == run[i + 1]);
        }
        assert forall|i: int| 0 <= i < rest.len() implies start <= (
        #[trigger] rest[i]).1.total_nanos() < start + WINDOW_NANOS by {
            assert(rest[i] == run[i + 1]);
        }
        if suppressed(c, e, t) {
            lemma_save_burst_sends_at_most_once(c, uri, rest, start);
        } else {
            let n = next_state(c, e, t);
            assert(start <= t.total_nanos());
            assert forall|i: int| 0 <= i < rest.len() implies (#[trigger] rest[i]).1.total_nanos()
                < n.at.total_nanos() + WINDOW_NANOS by {
                assert(rest[i] == run[i + 1]);
            }
            lemma_saves_in_anchored_window_send_nothing(n, rest);
        }
    }
}

/// An event that is not a save always is let through, and the debouncer then
/// holds its document and time.
pub proof fn lemma_non_saves_always_pass(c: FileState, e: EventView, now: Timestamp)
    requires
        !e.is_write,
    ensures
        !suppressed(c, e, now),
        next_state(c, e, now) == (FileState { uri: e.uri, at: now }),
{
}

/// After an event is let through, the debouncer holds that event's document and
/// the time of the decision.
pub proof fn lemma_pass_records_event(c: FileState, e: EventView, now: Timestamp)
    requires
        !suppressed(c, e, now),
    ensures
        next_state(c, e, now).uri == e.uri,
        next_state(c, e, now).at == now,
{
}

/// A save arriving exactly two minutes after the last heartbeat of its
/// document is let through.
pub proof fn lemma_window_end_passes(c: FileState, e: EventView, now: Timestamp)
    requires
        now.total_nanos() - c.at.total_nanos() == WINDOW_NANOS,
    ensures
        !suppressed(c, e, now),
{
}

/// Two identical saves, the second at most one second after the first, send
/// exactly one heartbeat where the first one is let through.
pub proof fn lemma_repeated_save_sends_once(c: FileState, e: EventView, t1: Timestamp, t2: Timestamp)
    requires
        e.is_write,
        !suppressed(c, e, t1),
        t1.total_nanos() <= t2.total_nanos() <= t1.total_nanos() + 1_000_000_000,
    ensures
        dispatch_count(c, seq![(e, t1), (e, t2)]) == 1,
{
    let run = seq![(e, t1), (e, t2)];
    let n = next_state(c, e, t1);
    assert(suppressed(n, e, t2));
    assert(run.drop_first() =~= seq![(e, t2)]);
    assert(run.drop_first().drop_first() =~= Seq::<(EventView, Timestamp)>::empty());
    assert(dispatch_count(next_state(n, e, t2), run.drop_first().drop_first()) == 0);
    assert(dispatch_count(n, run.drop_first()) == 0);
    assert(run[0] == (e, t1));
}

/// The tracker's arguments are one determined vector for each event, time,
/// settings and identification.
pub proof fn lemma_argv_determined(
    e1: EventView,
    e2: EventView,
    secs: int,
    s1: SettingsView,
    s2: SettingsView,
    plugin: Seq<char>,
)
    requires
        e1 == e2,
        s1 == s2,
    ensures
        heartbeat_argv(e1, secs, s1, plugin) == heartbeat_argv(e2, secs, s2, plugin),
{
}

/// A decimal rendering never reads `--plugin`.
proof fn lemma_decimal_is_no_plugin_flag(n: nat)
    ensures
        decimal(n) != "--plugin"@,
        seq!['-'] + decimal(n) != "--plugin"@,
{
    reveal_strlit("--plugin");
    lemma_decimal_digits(n);
    assert(decimal(n).len() >= 1);
    assert((seq!['-'] + decimal(n))[1] == decimal(n)[0]);
}

/// An optional number's flag pair never holds `--plugin`.
proof fn lemma_number_flag_is_no_plugin(flag: Seq<char>, n: Option<u64>)
    requires
        flag != "--plugin"@,
    ensures
        !optional_flag(flag, opt_decimal(n)).contains("--plugin"@),
{
    if let Some(x) = n {
        lemma_decimal_is_no_plugin_flag(x as nat);
        assert(optional_flag(flag, opt_decimal(n))[1] == decimal(x as nat));
    }
}

/// Without an editor identification the arguments hold no `--plugin`, where
/// no value passed in reads `--plugin` itself.
pub proof fn lemma_no_plugin_flag_without_tag(e: EventView, secs: int, s: SettingsView)
    requires
        e.uri != "--plugin"@,
        e.language != Some("--plugin"@),
        s.api_key != Some("--plugin"@),
        s.api_url != Some("--plugin"@),
    ensures
        !heartbeat_argv(e, secs, s, Seq::empty()).contains("--plugin"@),
{
    broadcast use vstd::seq_lib::lemma_seq_concat_contains_all_elements;

    reveal_strlit("--plugin");
    reveal_strlit("--time");
    reveal_strlit("--write");
    reveal_strlit("--entity");
    reveal_strlit("--key");
    reveal_strlit("--api-url");
    reveal_strlit("--language");
    reveal_strlit("--guess-language");
    reveal_strlit("--lineno");
    reveal_strlit("--cursorpos");
    reveal_strlit("true");
    reveal_strlit("false");
    let p = "--plugin"@;
    assert(p[2] == 'p');
    assert("--entity"@[2] == 'e');
    assert("--lineno"@[2] == 'l');
    assert("--time"@ != p);
    assert("--write"@ != p);
    assert("--entity"@ != p);
    assert("--key"@ != p);
    assert("--api-url"@ != p);
    assert("--language"@ != p);
    assert("--guess-language"@ != p);
    assert("--lineno"@ != p);
    assert("--cursorpos"@ != p);
    assert(bool_text(e.is_write) != p);
    if secs < 0 {
        lemma_decimal_is_no_plugin_flag((-secs) as nat);
    } else {
        lemma_decimal_is_no_plugin_flag(secs as nat);
    }
    assert(signed_decimal(secs) != p);
    let head = seq!["--time"@, signed_decimal(secs), "--write"@, bool_text(e.is_write), "--entity"@, e.uri];
    assert(!head.contains(p)) by {
        if head.contains(p) {
            let i = choose|i: int| 0 <= i < head.len() && head[i] == p;
            assert(0 <= i < 6);
        }
    }
    assert(!optional_flag("--key"@, s.api_key).contains(p));
    assert(!optional_flag("--api-url"@, s.api_url).contains(p));
    let lang = match e.language {
        Some(l) => seq!["--language"@, l],
        None => seq!["--guess-language"@],
    };
    assert(!lang.contains(p));
    lemma_number_flag_is_no_plugin("--lineno"@, e.lineno);
    lemma_number_flag_is_no_plugin("--cursorpos"@, e.cursor_pos);
    assert(!Seq::<Seq<char>>::empty().contains(p));
}

} // verus!
