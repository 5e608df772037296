//! The steps of a launch. The launcher decides; the host does the work.
//!
//! A launch begins with a first request to the host. Each reply of the
//! host is handed to `Launcher::step`, which answers with the next request,
//! until the request is `Launch`, with the command to run, or `Fail`, with
//! the reason. The order is fixed: the installed version of the helper
//! package is looked up, the pinned version is installed if another one or
//! none was found, the working directory is resolved, then the runtime, and
//! last the configuration values are read.

use crate::command::{assemble, launch_command, CommandDescriptor, CommandView};
use crate::env_file::Entry;
use crate::package::{
    entry_script_in, entry_script_path, install_due, needs_install, PACKAGE_NAME, PACKAGE_VERSION,
};
use crate::source::{ConfigKind, ConfigSource, SourceView, ENV_FILE_NAME};
use vstd::prelude::*;

verus! {

/// What the message of `LaunchError::UnexpectedReply` says.
pub const UNEXPECTED_REPLY: &'static str = "the reply does not answer the pending request";

/// Why a launch failed. Each variant but the last carries the message of
/// the host, unchanged.
#[derive(Clone, Debug, PartialEq, Eq)]
pub enum LaunchError {
    /// The installed version of the helper package could not be looked up.
    PackageLookup(String),
    /// The helper package could not be installed.
    DependencyInstall(String),
    /// The working directory could not be resolved.
    WorkingDirectory(String),
    /// The host has no runtime to run the entry script with.
    RuntimeNotFound(String),
    /// The settings of the context server could not be looked up.
    SettingsLookup(String),
    /// The host replied to something that was not asked.
    UnexpectedReply,
}

/// `LaunchError` as mathematical values.
pub ghost enum ErrorView {
    PackageLookup(Seq<char>),
    DependencyInstall(Seq<char>),
    WorkingDirectory(Seq<char>),
    RuntimeNotFound(Seq<char>),
    SettingsLookup(Seq<char>),
    UnexpectedReply,
}

impl ErrorView {
    /// The message to show for this error.
    pub open spec fn message(self) -> Seq<char> {
        match self {
            ErrorView::PackageLookup(message) => message,
            ErrorView::DependencyInstall(message) => message,
            ErrorView::WorkingDirectory(message) => message,
            ErrorView::RuntimeNotFound(message) => message,
            ErrorView::SettingsLookup(message) => message,
            ErrorView::UnexpectedReply => UNEXPECTED_REPLY@,
        }
    }
}

impl View for LaunchError {
    type V = ErrorView;

    open spec fn view(&self) -> ErrorView {
        match self {
            LaunchError::PackageLookup(message) => ErrorView::PackageLookup(message@),
            LaunchError::DependencyInstall(message) => ErrorView::DependencyInstall(message@),
            LaunchError::WorkingDirectory(message) => ErrorView::WorkingDirectory(message@),
            LaunchError::RuntimeNotFound(message) => ErrorView::RuntimeNotFound(message@),
            LaunchError::SettingsLookup(message) => ErrorView::SettingsLookup(message@),
            LaunchError::UnexpectedReply => ErrorView::UnexpectedReply,
        }
    }
}

impl LaunchError {
    /// The message to show for this error: that of the host, where the
    /// host gave one.
    pub fn message(&self) -> (message: String)
        ensures
            message@ == self@.message(),
    {
        match self {
            LaunchError::PackageLookup(message) => message.clone(),
            LaunchError::DependencyInstall(message) => message.clone(),
            LaunchError::WorkingDirectory(message) => message.clone(),
            LaunchError::RuntimeNotFound(message) => message.clone(),
            LaunchError::SettingsLookup(message) => message.clone(),
            LaunchError::UnexpectedReply => UNEXPECTED_REPLY.to_owned(),
        }
    }
}

/// What the launcher asks of the host.
#[derive(Clone, Debug, PartialEq, Eq)]
pub enum HostRequest {
    /// Look up which version of `package` is installed, if any.
    QueryInstalledVersion { package: String },
    /// Install `package` at exactly `version`.
    InstallPackage { package: String, version: String },
    /// Resolve the working directory.
    ResolveWorkingDirectory,
    /// Resolve the path of the runtime that runs the entry script.
    ResolveRuntime,
    /// Read the settings of the context server.
    ReadSettings,
    /// Read the file `name` in the working directory.
    ReadEnvFile { name: String },
    /// Run this command: the launch is complete.
    Launch(CommandDescriptor),
    /// Report this error: the launch has failed.
    Fail(LaunchError),
}

/// `HostRequest` as mathematical values.
pub ghost enum RequestView {
    QueryInstalledVersion { package: Seq<char> },
    InstallPackage { package: Seq<char>, version: Seq<char> },
    ResolveWorkingDirectory,
    ResolveRuntime,
    ReadSettings,
    ReadEnvFile { name: Seq<char> },
    Launch(CommandView),
    Fail(ErrorView),
}

impl View for HostRequest {
    type V = RequestView;

    open spec fn view(&self) -> RequestView {
        match self {
            HostRequest::QueryInstalledVersion { package } => RequestView::QueryInstalledVersion {
                package: package@,
            },
            HostRequest::InstallPackage { package, version } => RequestView::InstallPackage {
                package: package@,
                version: version@,
            },
            HostRequest::ResolveWorkingDirectory => RequestView::ResolveWorkingDirectory,
            HostRequest::ResolveRuntime => RequestView::ResolveRuntime,
            HostRequest::ReadSettings => RequestView::ReadSettings,
            HostRequest::ReadEnvFile { name } => RequestView::ReadEnvFile { name: name@ },
            HostRequest::Launch(command) => RequestView::Launch(command@),
            HostRequest::Fail(error) => RequestView::Fail(error@),
        }
    }
}

/// What the host replies.
#[derive(Clone, Debug, PartialEq, Eq)]
pub enum HostReply {
    /// The version of the helper package that is installed, if any.
    InstalledVersion(Option<String>),
    /// The helper package has been installed.
    Installed,
    /// The working directory.
    WorkingDirectory(String),
    /// The path of the runtime.
    Runtime(String),
    /// The configuration values that were read.
    Configuration(ConfigSource),
    /// The request could not be served; the message says why.
    Failed(String),
}

/// `HostReply` as mathematical values.
pub ghost enum ReplyView {
    InstalledVersion(Option<Seq<char>>),
    Installed,
    WorkingDirectory(Seq<char>),
    Runtime(Seq<char>),
    Configuration(SourceView),
    Failed(Seq<char>),
}

impl View for HostReply {
    type V = ReplyView;

    open spec fn view(&self) -> ReplyView {
        match self {
            HostReply::InstalledVersion(version) => ReplyView::InstalledVersion(
                version.deep_view(),
            ),
            HostReply::Installed => ReplyView::Installed,
            HostReply::WorkingDirectory(directory) => ReplyView::WorkingDirectory(directory@),
            HostReply::Runtime(runtime) => ReplyView::Runtime(runtime@),
            HostReply::Configuration(source) => ReplyView::Configuration(source@),
            HostReply::Failed(message) => ReplyView::Failed(message@),
        }
    }
}

/// How far a launch has come: which reply is awaited, and what is known.
#[derive(Clone, Debug, PartialEq, Eq)]
pub enum LaunchState {
    AwaitingVersion,
    AwaitingInstall,
    AwaitingDirectory,
    AwaitingRuntime { entry_script: String },
    AwaitingConfiguration { entry_script: String, runtime: String },
    Finished,
}

/// `LaunchState` as mathematical values.
pub ghost enum StateView {
    AwaitingVersion,
    AwaitingInstall,
    AwaitingDirectory,
    AwaitingRuntime { entry_script: Seq<char> },
    AwaitingConfiguration { entry_script: Seq<char>, runtime: Seq<char> },
    Finished,
}

impl View for LaunchState {
    type V = StateView;

    open spec fn view(&self) -> StateView {
        match self {
            LaunchState::AwaitingVersion => StateView::AwaitingVersion,
            LaunchState::AwaitingInstall => StateView::AwaitingInstall,
            LaunchState::AwaitingDirectory => StateView::AwaitingDirectory,
            LaunchState::AwaitingRuntime { entry_script } => StateView::AwaitingRuntime {
                entry_script: entry_script@,
            },
            LaunchState::AwaitingConfiguration { entry_script, runtime } => {
                StateView::AwaitingConfiguration { entry_script: entry_script@, runtime: runtime@ }
            },
            LaunchState::Finished => StateView::Finished,
        }
    }
}

/// The request that opens every launch.
pub open spec fn first_request() -> RequestView {
    RequestView::QueryInstalledVersion { package: PACKAGE_NAME@ }
}

/// The request for the pinned version of the helper package.
pub open spec fn install_request() -> RequestView {
    RequestView::InstallPackage { package: PACKAGE_NAME@, version: PACKAGE_VERSION@ }
}

/// The request that reads the configuration values of a deployment.
pub open spec fn configuration_request(kind: ConfigKind) -> RequestView {
    match kind {
        ConfigKind::Settings => RequestView::ReadSettings,
        ConfigKind::EnvFile => RequestView::ReadEnvFile { name: ENV_FILE_NAME@ },
    }
}

/// The end of a launch that failed.
pub open spec fn failure(error: ErrorView) -> (StateView, RequestView) {
    (StateView::Finished, RequestView::Fail(error))
}

/// The end of a launch that succeeded.
pub open spec fn success(
    runtime: Seq<char>,
    entry_script: Seq<char>,
    environment: Seq<Entry>,
) -> (StateView, RequestView) {
    (StateView::Finished, RequestView::Launch(launch_command(runtime, entry_script, environment)))
}

/// The state after `reply` has come in `state`, and the request that
/// follows. A failure of the host ends the launch with the error of the
/// step that failed, but for one case: an environment file that cannot be
/// read counts as a file without values. A reply that does not answer the
/// pending request ends the launch too.
pub open spec fn transition(kind: ConfigKind, state: StateView, reply: ReplyView) -> (
    StateView,
    RequestView,
) {
    match (state, reply) {
        (StateView::AwaitingVersion, ReplyView::InstalledVersion(installed)) => {
            if install_due(installed) {
                (StateView::AwaitingInstall, install_request())
            } else {
                (StateView::AwaitingDirectory, RequestView::ResolveWorkingDirectory)
            }
        },
        (StateView::AwaitingVersion, ReplyView::Failed(message)) => failure(
            ErrorView::PackageLookup(message),
        ),
        (StateView::AwaitingInstall, ReplyView::Installed) => (
            StateView::AwaitingDirectory,
            RequestView::ResolveWorkingDirectory,
        ),
        (StateView::AwaitingInstall, ReplyView::Failed(message)) => failure(
            ErrorView::DependencyInstall(message),
        ),
        (StateView::AwaitingDirectory, ReplyView::WorkingDirectory(directory)) => (
            StateView::AwaitingRuntime { entry_script: entry_script_in(directory) },
            RequestView::ResolveRuntime,
        ),
        (StateView::AwaitingDirectory, ReplyView::Failed(message)) => failure(
            ErrorView::WorkingDirectory(message),
        ),
        (StateView::AwaitingRuntime { entry_script }, ReplyView::Runtime(runtime)) => (
            StateView::AwaitingConfiguration { entry_script, runtime },
            configuration_request(kind),
        ),
        (StateView::AwaitingRuntime { .. }, ReplyView::Failed(message)) => failure(
            ErrorView::RuntimeNotFound(message),
        ),
        (
            StateView::AwaitingConfiguration { entry_script, runtime },
            ReplyView::Configuration(source),
        ) => {
            if source.kind() == kind {
                success(runtime, entry_script, source.environment())
            } else {
                failure(ErrorView::UnexpectedReply)
            }
        },
        (StateView::AwaitingConfiguration { entry_script, runtime }, ReplyView::Failed(message)) => {
            match kind {
                ConfigKind::Settings => failure(ErrorView::SettingsLookup(message)),
                ConfigKind::EnvFile => success(runtime, entry_script, Seq::empty()),
            }
        },
        _ => failure(ErrorView::UnexpectedReply),
    }
}

/// A launch in progress.
#[derive(Clone, Debug, PartialEq, Eq)]
pub struct Launcher {
    /// Where this deployment reads its configuration values from.
    pub kind: ConfigKind,
    /// How far the launch has come.
    pub state: LaunchState,
}

/// `Launcher` as mathematical values.
pub ghost struct LauncherView {
    pub kind: ConfigKind,
    pub state: StateView,
}

impl View for Launcher {
    type V = LauncherView;

    open spec fn view(&self) -> LauncherView {
        LauncherView { kind: self.kind, state: self.state@ }
    }
}

fn fail(kind: ConfigKind, error: LaunchError) -> (end: (Launcher, HostRequest))
    ensures
        end.0@.kind == kind,
        (end.0@.state, end.1@) == failure(error@),
{
    (Launcher { kind, state: LaunchState::Finished }, HostRequest::Fail(error))
}

fn succeed(
    kind: ConfigKind,
    runtime: String,
    entry_script: String,
    environment: Vec<(String, String)>,
) -> (end: (Launcher, HostRequest))
    ensures
        end.0@.kind == kind,
        (end.0@.state, end.1@) == success(runtime@, entry_script@, environment.deep_view()),
{
    let command = assemble(runtime, entry_script, environment);
    (Launcher { kind, state: LaunchState::Finished }, HostRequest::Launch(command))
}

impl Launcher {
    /// Begins a launch for a deployment that reads its configuration
    /// values from `kind`: the launcher, and the first request to the host.
    pub fn start(kind: ConfigKind) -> (begin: (Launcher, HostRequest))
        ensures
            begin.0@ == (LauncherView { kind, state: StateView::AwaitingVersion }),
            begin.1@ == first_request(),
    {
        (
            Launcher { kind, state: LaunchState::AwaitingVersion },
            HostRequest::QueryInstalledVersion { package: PACKAGE_NAME.to_owned() },
        )
    }

    /// Whether the launch has ended: the last request was `Launch` or
    /// `Fail`, and no further reply is awaited.
    pub fn is_finished(&self) -> (finished: bool)
        ensures
            finished == (self@.state is Finished),
    {
        match &self.state {
            LaunchState::Finished => true,
            _ => false,
        }
    }

    /// Takes the reply of the host to the pending request, and answers with
    /// the launcher for the rest of the launch and the next request.
    pub fn step(self, reply: HostReply) -> (next: (Launcher, HostRequest))
        ensures
            next.0@.kind == self@.kind,
            (next.0@.state, next.1@) == transition(self@.kind, self@.state, reply@),
    {
        let kind = self.kind;
        match (self.state, reply) {
            (LaunchState::AwaitingVersion, HostReply::InstalledVersion(installed)) => {
                let due = match &installed {
                    Some(version) => needs_install(Some(version.as_str())),
                    None => needs_install(None),
                };
                if due {
                    (
                        Launcher { kind, state: LaunchState::AwaitingInstall },
                        HostRequest::InstallPackage {
                            package: PACKAGE_NAME.to_owned(),
                            version: PACKAGE_VERSION.to_owned(),
                        },
                    )
                } else {
                    (
                        Launcher { kind, state: LaunchState::AwaitingDirectory },
                        HostRequest::ResolveWorkingDirectory,
                    )
                }
            },
            (LaunchState::AwaitingVersion, HostReply::Failed(message)) => fail(
                kind,
                LaunchError::PackageLookup(message),
            ),
            (LaunchState::AwaitingInstall, HostReply::Installed) => (
                Launcher { kind, state: LaunchState::AwaitingDirectory },
                HostRequest::ResolveWorkingDirectory,
            ),
            (LaunchState::AwaitingInstall, HostReply::Failed(message)) => fail(
                kind,
                LaunchError::DependencyInstall(message),
            ),
            (LaunchState::AwaitingDirectory, HostReply::WorkingDirectory(directory)) => {
                let entry_script = entry_script_path(directory.as_str());
                (
                    Launcher { kind, state: LaunchState::AwaitingRuntime { entry_script } },
                    HostRequest::ResolveRuntime,
                )
            },
            (LaunchState::AwaitingDirectory, HostReply::Failed(message)) => fail(
                kind,
                LaunchError::WorkingDirectory(message),
            ),
            (LaunchState::AwaitingRuntime { entry_script }, HostReply::Runtime(runtime)) => {
                let request = match kind {
                    ConfigKind::Settings => HostRequest::ReadSettings,
                    ConfigKind::EnvFile => HostRequest::ReadEnvFile {
                        name: ENV_FILE_NAME.to_owned(),
                    },
                };
                (
                    Launcher {
                        kind,
                        state: LaunchState::AwaitingConfiguration { entry_script, runtime },
                    },
                    request,
                )
            },
            (LaunchState::AwaitingRuntime { .. }, HostReply::Failed(message)) => fail(
                kind,
                LaunchError::RuntimeNotFound(message),
            ),
            (
                LaunchState::AwaitingConfiguration { entry_script, runtime },
                HostReply::Configuration(source),
            ) => {
                if source.kind() == kind {
                    succeed(kind, runtime, entry_script, source.environment())
                } else {
                    fail(kind, LaunchError::UnexpectedReply)
                }
            },
            (
                LaunchState::AwaitingConfiguration { entry_script, runtime },
                HostReply::Failed(message),
            ) => {
                match kind {
                    ConfigKind::Settings => fail(kind, LaunchError::SettingsLookup(message)),
                    ConfigKind::EnvFile => {
                        let environment: Vec<(String, String)> = Vec::new();
                        assert(environment.deep_view() =~= Seq::<Entry>::empty());
                        succeed(kind, runtime, entry_script, environment)
                    },
                }
            },
            _ => fail(kind, LaunchError::UnexpectedReply),
        }
    }
}

} // verus!
