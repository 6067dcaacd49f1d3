//! Session configuration: tracker credentials and the editor identification.
use vstd::prelude::*;
use vstd::string::*;
use crate::event::opt_text;

verus! {

/// Credentials pushed by the editor; each replaces the tracker's own default.
pub struct Settings {
    pub api_key: Option<String>,
    pub api_url: Option<String>,
}

/// Settings as plain values.
pub struct SettingsView {
    pub api_key: Option<Seq<char>>,
    pub api_url: Option<Seq<char>>,
}

impl View for Settings {
    type V = SettingsView;

    open spec fn view(&self) -> SettingsView {
        SettingsView { api_key: opt_text(self.api_key), api_url: opt_text(self.api_url) }
    }
}

impl Settings {
    /// No key and no URL.
    pub fn empty() -> (r: Settings)
        ensures
            r@.api_key is None,
            r@.api_url is None,
    {
        Settings { api_key: None, api_url: None }
    }
}

/// What the editor says of itself during the handshake.
pub struct ClientInfo {
    pub name: String,
    pub version: Option<String>,
}

/// `<name>[/<version>] <name>-wakatime/<server version>`.
pub open spec fn platform_text(
    name: Seq<char>,
    version: Option<Seq<char>>,
    server_version: Seq<char>,
) -> Seq<char> {
    name + match version {
        Some(v) => "/"@ + v,
        None => Seq::<char>::empty(),
    } + " "@ + name + "-wakatime/"@ + server_version
}

/// The identification string sent with every heartbeat, made from the client's
/// self-description. Without one there is none (`None`).
pub fn platform_tag(client: Option<&ClientInfo>, server_version: &str) -> (r: Option<String>)
    ensures
        match client {
            Some(c) => r matches Some(t) && t@ == platform_text(
                c.name@,
                opt_text(c.version),
                server_version@,
            ),
            None => r is None,
        },
{
    match client {
        None => None,
        Some(c) => {
            let mut tag = c.name.clone();
            match &c.version {
                Some(v) => {
                    tag.append("/");
                    tag.append(v.as_str());
                },
                None => {},
            }
            tag.append(" ");
            tag.append(c.name.as_str());
            tag.append("-wakatime/");
            tag.append(server_version);
            proof {
                assert(tag@ =~= platform_text(c.name@, opt_text(c.version), server_version@));
            }
            Some(tag)
        },
    }
}

} // verus!
