//! The configuration values that the launched process is given, and the
//! environment variables that carry them.

use crate::env_file::Entry;
use crate::json::{member_text, text_member, text_members};
use vstd::prelude::*;

verus! {

/// The settings key of the management token.
pub const TOKEN_KEY: &'static str = "management_token";

/// The settings key of the space identifier.
pub const SPACE_KEY: &'static str = "space_id";

/// The environment variable that carries the management token.
pub const TOKEN_VARIABLE: &'static str = "STORYBLOK_MANAGEMENT_TOKEN";

/// The environment variable that carries the space identifier.
pub const SPACE_VARIABLE: &'static str = "STORYBLOK_SPACE_ID";

/// The configuration values of one context server. A value that was not
/// given is absent; nothing stands in for it.
#[derive(Clone, Debug, PartialEq, Eq)]
pub struct ServerSettings {
    pub management_token: Option<String>,
    pub space_id: Option<String>,
}

/// `ServerSettings` as mathematical values.
pub ghost struct SettingsView {
    pub management_token: Option<Seq<char>>,
    pub space_id: Option<Seq<char>>,
}

impl View for ServerSettings {
    type V = SettingsView;

    open spec fn view(&self) -> SettingsView {
        SettingsView {
            management_token: self.management_token.deep_view(),
            space_id: self.space_id.deep_view(),
        }
    }
}

/// The entry for `variable`, when `value` is present.
pub open spec fn variable_entry(variable: Seq<char>, value: Option<Seq<char>>) -> Seq<Entry> {
    match value {
        Some(text) => seq![(variable, text)],
        None => Seq::empty(),
    }
}

impl SettingsView {
    /// The settings found among the text members of a settings object.
    pub open spec fn of_members(members: Map<Seq<char>, Seq<char>>) -> SettingsView {
        SettingsView {
            management_token: member_text(members, TOKEN_KEY@),
            space_id: member_text(members, SPACE_KEY@),
        }
    }

    /// No settings at all.
    pub open spec fn none() -> SettingsView {
        SettingsView { management_token: None, space_id: None }
    }

    /// The environment entries for these settings: the token first, then
    /// the space identifier, each only when present.
    pub open spec fn environment(self) -> Seq<Entry> {
        variable_entry(TOKEN_VARIABLE@, self.management_token) + variable_entry(
            SPACE_VARIABLE@,
            self.space_id,
        )
    }
}

impl ServerSettings {
    /// Settings with the given values.
    pub fn new(management_token: Option<String>, space_id: Option<String>) -> (settings: Self)
        ensures
            settings@.management_token == management_token.deep_view(),
            settings@.space_id == space_id.deep_view(),
    {
        ServerSettings { management_token, space_id }
    }

    /// Reads the settings from the settings object of a context server, if
    /// there is one. Only members that are JSON strings count.
    pub fn from_json(settings: Option<&serde_json::Value>) -> (found: Self)
        ensures
            found@ == match settings {
                Some(value) => SettingsView::of_members(text_members(*value)),
                None => SettingsView::none(),
            },
    {
        match settings {
            Some(value) => ServerSettings {
                management_token: text_member(value, TOKEN_KEY),
                space_id: text_member(value, SPACE_KEY),
            },
            None => ServerSettings { management_token: None, space_id: None },
        }
    }

    /// The environment variables for these settings.
    pub fn environment(&self) -> (entries: Vec<(String, String)>)
        ensures
            entries.deep_view() == self@.environment(),
    {
        let mut entries: Vec<(String, String)> = Vec::new();
        assert(entries.deep_view() =~= Seq::<Entry>::empty());
        match &self.management_token {
            Some(token) => {
                entries.push((TOKEN_VARIABLE.to_owned(), token.clone()));
            },
            None => {},
        }
        assert(entries.deep_view() =~= variable_entry(TOKEN_VARIABLE@, self@.management_token));
        let ghost first = entries.deep_view();
        match &self.space_id {
            Some(space) => {
                entries.push((SPACE_VARIABLE.to_owned(), space.clone()));
            },
            None => {},
        }
        assert(entries.deep_view() =~= first + variable_entry(SPACE_VARIABLE@, self@.space_id));
        entries
    }
}

} // verus!
