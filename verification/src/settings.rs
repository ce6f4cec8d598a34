//! What the process is configured with. The values are read once, when the
//! process starts, and handed to whoever needs them.

use crate::identity::text_view;
use crate::identity::UnkeyApiId;
use vstd::prelude::*;

verus! {

/// The port to listen on where none is configured.
pub const DEFAULT_PORT: &'static str = "3000";

/// The address to listen on, up to the port: every interface.
pub const LISTEN_ON: &'static str = "0.0.0.0:";

/// The configuration of the process.
#[derive(Clone, Debug)]
pub struct Settings {
    /// The credential with which this service itself calls the
    /// verification service.
    pub root_key: String,
    /// The namespace to verify credentials against.
    pub api_id: UnkeyApiId,
    /// The port to listen on.
    pub port: String,
}

/// The mathematical value of [`Settings`].
pub struct SettingsView {
    pub root_key: Seq<char>,
    pub api_id: Seq<char>,
    pub port: Seq<char>,
}

impl View for Settings {
    type V = SettingsView;

    open spec fn view(&self) -> SettingsView {
        SettingsView { root_key: self.root_key@, api_id: self.api_id@, port: self.port@ }
    }
}

/// A configured text, or `fallback` where it is not configured.
pub open spec fn configured(value: Option<Seq<char>>, fallback: Seq<char>) -> Seq<char> {
    match value {
        Some(text) => text,
        None => fallback,
    }
}

/// The settings that the configured values give.
pub open spec fn settings_of(
    root_key: Option<Seq<char>>,
    api_id: Option<Seq<char>>,
    port: Option<Seq<char>>,
) -> SettingsView {
    SettingsView {
        root_key: configured(root_key, Seq::<char>::empty()),
        api_id: configured(api_id, Seq::<char>::empty()),
        port: configured(port, DEFAULT_PORT@),
    }
}

impl Settings {
    /// Builds the settings from what the environment holds. Nothing is
    /// required: a root key or a namespace that is not configured is empty,
    /// and the port is then `3000`. A process so configured starts, and has
    /// every credential turned down by the verification service.
    pub fn from_values(root_key: Option<String>, api_id: Option<String>, port: Option<String>) -> (settings: Settings)
        ensures
            settings@ == settings_of(text_view(root_key), text_view(api_id), text_view(port)),
    {
        let root_key = match root_key {
            Some(text) => text,
            None => String::new(),
        };
        let api_id = match api_id {
            Some(text) => text,
            None => String::new(),
        };
        let port = match port {
            Some(text) => text,
            None => String::from_str(DEFAULT_PORT),
        };
        Settings { root_key, api_id: UnkeyApiId(api_id), port }
    }

    /// The address to bind the listener to.
    pub fn listen_address(&self) -> (address: String)
        ensures
            address@ == LISTEN_ON@ + self@.port,
    {
        let mut address = String::from_str(LISTEN_ON);
        address.append(self.port.as_str());
        address
    }
}

} // verus!
