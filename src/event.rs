//! Document events built from editor notifications.
use vstd::prelude::*;
use vstd::string::*;

verus! {

/// What a document notification tells about the user's activity.
pub struct Event {
    /// The document, with the URI's `scheme:` / `scheme://` prefix removed.
    pub uri: String,
    /// True only for saves.
    pub is_write: bool,
    /// The editor's language identifier, known on open.
    pub language: Option<String>,
    /// Line of the first changed range.
    pub lineno: Option<u64>,
    /// Character offset of the first changed range's start.
    pub cursor_pos: Option<u64>,
}

/// An event as plain values.
pub struct EventView {
    pub uri: Seq<char>,
    pub is_write: bool,
    pub language: Option<Seq<char>>,
    pub lineno: Option<u64>,
    pub cursor_pos: Option<u64>,
}

/// The view of an optional string.
pub open spec fn opt_text(o: Option<String>) -> Option<Seq<char>> {
    match o {
        Some(s) => Some(s@),
        None => None,
    }
}

impl View for Event {
    type V = EventView;

    open spec fn view(&self) -> EventView {
        EventView {
            uri: self.uri@,
            is_write: self.is_write,
            language: opt_text(self.language),
            lineno: self.lineno,
            cursor_pos: self.cursor_pos,
        }
    }
}

/// The start of a changed range, as the editor reports it.
#[derive(Clone, Copy, Debug, PartialEq, Eq, Structural)]
pub struct RangeStart {
    pub line: u32,
    pub character: u32,
}

/// The entity that the URL parser makes of a URI text: `None` where the text is
/// no URL, else the serialization from the position before the user name on.
pub uninterp spec fn url_entity(uri: Seq<char>) -> Option<Seq<char>>;

/// Relies on `url::Url::parse` and on indexing a `Url` from
/// `url::Position::BeforeUsername`: the serialized URL without its scheme and
/// the `:` or `://` after it.
#[verifier::external_body]
fn entity_of(uri: &str) -> (r: Option<String>)
    ensures
        opt_text(r) == url_entity(uri@),
{
    url::Url::parse(uri).ok().map(|u| u[url::Position::BeforeUsername..].to_string())
}

/// The event for an opened document.
pub open spec fn open_event(entity: Seq<char>, language: Seq<char>) -> EventView {
    EventView {
        uri: entity,
        is_write: false,
        language: Some(language),
        lineno: None,
        cursor_pos: None,
    }
}

/// The event for an edit; only the first changed range counts.
pub open spec fn change_event(entity: Seq<char>, first_range: Option<RangeStart>) -> EventView {
    EventView {
        uri: entity,
        is_write: false,
        language: None,
        lineno: match first_range {
            Some(p) => Some(p.line as u64),
            None => None,
        },
        cursor_pos: match first_range {
            Some(p) => Some(p.character as u64),
            None => None,
        },
    }
}

/// The event for a saved document.
pub open spec fn save_event(entity: Seq<char>) -> EventView {
    EventView { uri: entity, is_write: true, language: None, lineno: None, cursor_pos: None }
}


impl Event {
    /// Event for an opened document whose entity is already normalized.
    pub fn opened(entity: String, language: String) -> (r: Event)
        ensures
            r@ == open_event(entity@, language@),
    {
        Event { uri: entity, is_write: false, language: Some(language), lineno: None, cursor_pos: None }
    }

    /// Event for an edit of a document whose entity is already normalized;
    /// `first_range` is the start of the first change's range, if it has one.
    pub fn changed(entity: String, first_range: Option<RangeStart>) -> (r: Event)
        ensures
            r@ == change_event(entity@, first_range),
    {
        let (lineno, cursor_pos) = match first_range {
            Some(p) => (Some(p.line as u64), Some(p.character as u64)),
            None => (None, None),
        };
        Event { uri: entity, is_write: false, language: None, lineno, cursor_pos }
    }

    /// Event for a saved document whose entity is already normalized.
    pub fn saved(entity: String) -> (r: Event)
        ensures
            r@ == save_event(entity@),
    {
        Event { uri: entity, is_write: true, language: None, lineno: None, cursor_pos: None }
    }

    /// `didOpen`: `None` only where `uri` is no URL.
    pub fn did_open(uri: &str, language: String) -> (r: Option<Event>)
        ensures
            match r {
                Some(e) => url_entity(uri@) == Some(e@.uri) && e@ == open_event(e@.uri, language@),
                None => url_entity(uri@) is None,
            },
    {
        match entity_of(uri) {
            Some(entity) => Some(Event::opened(entity, language)),
            None => None,
        }
    }

    /// `didChange`: `first_range` is the range start of the first content
    /// change, if that change has a range. `None` only where `uri` is no URL.
    pub fn did_change(uri: &str, first_range: Option<RangeStart>) -> (r: Option<Event>)
        ensures
            match r {
                Some(e) => url_entity(uri@) == Some(e@.uri) && e@ == change_event(e@.uri, first_range),
                None => url_entity(uri@) is None,
            },
    {
        match entity_of(uri) {
            Some(entity) => Some(Event::changed(entity, first_range)),
            None => None,
        }
    }

    /// `didSave`: `None` only where `uri` is no URL.
    pub fn did_save(uri: &str) -> (r: Option<Event>)
        ensures
            match r {
                Some(e) => url_entity(uri@) == Some(e@.uri) && e@ == save_event(e@.uri),
                None => url_entity(uri@) is None,
            },
    {
        match entity_of(uri) {
            Some(entity) => Some(Event::saved(entity)),
            None => None,
        }
    }
}

} // verus!
