//! The heartbeat debouncer: the last dispatched document and when it was sent, and
//! the rule that drops repeated saves of that document.
use vstd::prelude::*;
use vstd::string::*;
use crate::args::{argv_text, heartbeat_args, heartbeat_argv};
use crate::clock::{wall_clock_now, Timestamp};
use crate::config::Settings;
use crate::event::{Event, EventView};

verus! {

/// Two minutes, in nanoseconds: saves of the last document within this span
/// of its last heartbeat are dropped.
pub const WINDOW_NANOS: i128 = 120_000_000_000;

/// The last heartbeat: the document it was for and when it was sent.
pub struct CurrentFile {
    pub uri: String,
    pub timestamp: Timestamp,
}

/// The last heartbeat as plain values.
pub struct FileState {
    pub uri: Seq<char>,
    pub at: Timestamp,
}

impl View for CurrentFile {
    type V = FileState;

    open spec fn view(&self) -> FileState {
        FileState { uri: self.uri@, at: self.timestamp }
    }
}

/// The event is a save of the last document less than two minutes after its
/// last heartbeat, and is dropped.
pub open spec fn suppressed(c: FileState, e: EventView, now: Timestamp) -> bool {
    &&& e.uri == c.uri
    &&& now.total_nanos() - c.at.total_nanos() < WINDOW_NANOS
    &&& e.is_write
}

/// The debouncer's state once the event at `now` has been decided.
pub open spec fn next_state(c: FileState, e: EventView, now: Timestamp) -> FileState {
    if suppressed(c, e, now) {
        c
    } else {
        FileState { uri: e.uri, at: now }
    }
}

impl CurrentFile {
    /// No document yet; `started` stands in as the time of the last heartbeat.
    pub fn new(started: Timestamp) -> (r: CurrentFile)
        ensures
            r@.uri.len() == 0,
            r@.at == started,
    {
        CurrentFile { uri: String::new(), timestamp: started }
    }

    /// No document yet, started at the current wall-clock time.
    pub fn started_now() -> (r: CurrentFile)
        ensures
            r@.uri.len() == 0,
    {
        CurrentFile::new(wall_clock_now())
    }

    /// Whether the event at `now` is let through.
    pub fn should_dispatch(&self, event: &Event, now: &Timestamp) -> (r: bool)
        ensures
            r == !suppressed(self@, event@, *now),
    {
        !(event.uri == self.uri && now.nanos_since(&self.timestamp) < WINDOW_NANOS
            && event.is_write)
    }

    /// Decides the event at `now`. When it passes, records it as the last
    /// heartbeat and returns the tracker's arguments for it; else leaves the
    /// state as it was and returns `None`.
    pub fn send(&mut self, event: Event, now: Timestamp, settings: &Settings, plugin: &str) -> (r:
        Option<Vec<String>>)
        ensures
            final(self)@ == next_state(old(self)@, event@, now),
            match r {
                Some(args) => !suppressed(old(self)@, event@, now) && argv_text(args@)
                    == heartbeat_argv(event@, now.secs as int, settings@, plugin@),
                None => suppressed(old(self)@, event@, now),
            },
    {
        if !self.should_dispatch(&event, &now) {
            return None;
        }
        let args = heartbeat_args(&event, &now, settings, plugin);
        self.uri = event.uri;
        self.timestamp = now;
        Some(args)
    }

    /// `send` at the current wall-clock time. Events that are not saves always
    /// pass; a dropped event is a save of the last document and changes nothing.
    pub fn send_now(&mut self, event: Event, settings: &Settings, plugin: &str) -> (r: Option<
        Vec<String>,
    >)
        ensures
            match r {
                Some(args) => final(self)@.uri == event@.uri && argv_text(args@) == heartbeat_argv(
                    event@,
                    final(self)@.at.secs as int,
                    settings@,
                    plugin@,
                ),
                None => final(self)@ == old(self)@ && event@.is_write && event@.uri == old(
                    self,
                )@.uri,
            },
            !event@.is_write ==> r is Some,
    {
        let now = wall_clock_now();
        self.send(event, now, settings, plugin)
    }
}

} // verus!
