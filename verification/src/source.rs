//! Where the configuration values come from. A deployment reads them from
//! one of two places, never from both: the settings of the context server,
//! or a flat environment file in the working directory.

use crate::env_file::{env_entries, parse_env_file, Entry};
use crate::settings::{ServerSettings, SettingsView};
use vstd::prelude::*;

verus! {

/// The name of the environment file, relative to the working directory.
pub const ENV_FILE_NAME: &'static str = ".env";

/// The two places that configuration values are read from.
#[derive(Clone, Copy, Debug, PartialEq, Eq, Structural)]
pub enum ConfigKind {
    /// The settings that the host keeps for the context server.
    Settings,
    /// The environment file in the working directory.
    EnvFile,
}

/// What was read from the place that a deployment uses.
#[derive(Clone, Debug, PartialEq, Eq)]
pub enum ConfigSource {
    /// The settings of the context server.
    Settings(ServerSettings),
    /// The content of the environment file, or `None` when the file is
    /// missing or could not be read.
    EnvFile(Option<String>),
}

/// `ConfigSource` as mathematical values.
pub ghost enum SourceView {
    Settings(SettingsView),
    EnvFile(Option<Seq<char>>),
}

impl SourceView {
    /// The place that these values were read from.
    pub open spec fn kind(self) -> ConfigKind {
        match self {
            SourceView::Settings(_) => ConfigKind::Settings,
            SourceView::EnvFile(_) => ConfigKind::EnvFile,
        }
    }

    /// The environment entries that these values amount to. A missing
    /// environment file amounts to none.
    pub open spec fn environment(self) -> Seq<Entry> {
        match self {
            SourceView::Settings(settings) => settings.environment(),
            SourceView::EnvFile(Some(content)) => env_entries(content),
            SourceView::EnvFile(None) => Seq::empty(),
        }
    }
}

impl View for ConfigSource {
    type V = SourceView;

    open spec fn view(&self) -> SourceView {
        match self {
            ConfigSource::Settings(settings) => SourceView::Settings(settings@),
            ConfigSource::EnvFile(content) => SourceView::EnvFile(content.deep_view()),
        }
    }
}

impl ConfigSource {
    /// The place that these values were read from.
    pub fn kind(&self) -> (kind: ConfigKind)
        ensures
            kind == self@.kind(),
    {
        match self {
            ConfigSource::Settings(_) => ConfigKind::Settings,
            ConfigSource::EnvFile(_) => ConfigKind::EnvFile,
        }
    }

    /// The environment variables for the launched process: only what was
    /// found, in the order in which it was found.
    pub fn environment(&self) -> (entries: Vec<(String, String)>)
        ensures
            entries.deep_view() == self@.environment(),
    {
        match self {
            ConfigSource::Settings(settings) => settings.environment(),
            ConfigSource::EnvFile(Some(content)) => parse_env_file(content.as_str()),
            ConfigSource::EnvFile(None) => {
                let entries: Vec<(String, String)> = Vec::new();
                assert(entries.deep_view() =~= Seq::<Entry>::empty());
                entries
            },
        }
    }
}

/// A missing environment file yields no entries, and so does an empty one.
pub proof fn lemma_no_file_no_entries()
    ensures
        SourceView::EnvFile(None).environment() == Seq::<Entry>::empty(),
        SourceView::EnvFile(Some(Seq::empty())).environment() == Seq::<Entry>::empty(),
{
}

} // verus!
