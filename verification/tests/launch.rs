use storyblok_mcp::command::{assemble, CommandDescriptor, TARGET_URL};
use storyblok_mcp::launch::{
    HostReply, HostRequest, LaunchError, LaunchState, Launcher, UNEXPECTED_REPLY,
};
use storyblok_mcp::settings::ServerSettings;
use storyblok_mcp::source::{ConfigKind, ConfigSource};

const SCRIPT: &str = "/work/node_modules/mcp-remote/dist/proxy.js";

fn owned(text: &str) -> String {
    text.to_string()
}

fn env(name: &str, value: &str) -> (String, String) {
    (name.to_string(), value.to_string())
}

fn query() -> HostRequest {
    HostRequest::QueryInstalledVersion { package: owned("mcp-remote") }
}

fn install() -> HostRequest {
    HostRequest::InstallPackage { package: owned("mcp-remote"), version: owned("0.1.37") }
}

fn token_settings() -> ConfigSource {
    ConfigSource::Settings(ServerSettings::new(Some(owned("abc")), None))
}

fn drive(kind: ConfigKind, replies: Vec<HostReply>) -> (Launcher, Vec<HostRequest>) {
    let (mut launcher, first) = Launcher::start(kind);
    let mut requests = vec![first];
    for reply in replies {
        let (next, request) = launcher.step(reply);
        launcher = next;
        requests.push(request);
    }
    (launcher, requests)
}

fn at(kind: ConfigKind, state: LaunchState) -> Launcher {
    Launcher { kind, state }
}

fn failed(error: LaunchError) -> (LaunchState, HostRequest) {
    (LaunchState::Finished, HostRequest::Fail(error))
}

fn outcome(launcher: Launcher, reply: HostReply) -> (LaunchState, HostRequest) {
    let kind = launcher.kind;
    let (next, request) = launcher.step(reply);
    assert_eq!(next.kind, kind);
    (next.state, request)
}

#[test]
fn target_url() {
    assert_eq!(TARGET_URL, "http://localhost:3016/mcp");
}

#[test]
fn assembled_command() {
    let command = assemble(owned("/bin/node"), owned(SCRIPT), vec![env("A", "1"), env("A", "2")]);
    assert_eq!(
        command,
        CommandDescriptor {
            executable: owned("/bin/node"),
            arguments: vec![owned(SCRIPT), owned("http://localhost:3016/mcp")],
            environment: vec![env("A", "1"), env("A", "2")],
        }
    );
}

#[test]
fn assembled_command_has_two_arguments() {
    for script in ["", "proxy.js", SCRIPT] {
        let command = assemble(owned("node"), owned(script), Vec::new());
        assert_eq!(command.arguments.len(), 2);
        assert_eq!(command.arguments[0], script);
        assert_eq!(command.arguments[1], "http://localhost:3016/mcp");
        assert!(command.environment.is_empty());
    }
}

#[test]
fn launch_begins_with_the_version_query() {
    for kind in [ConfigKind::Settings, ConfigKind::EnvFile] {
        let (launcher, request) = Launcher::start(kind);
        assert_eq!(launcher, Launcher { kind, state: LaunchState::AwaitingVersion });
        assert_eq!(request, query());
        assert!(!launcher.is_finished());
    }
}

#[test]
fn launch_with_install() {
    let (launcher, requests) = drive(
        ConfigKind::Settings,
        vec![
            HostReply::InstalledVersion(None),
            HostReply::Installed,
            HostReply::WorkingDirectory(owned("/work")),
            HostReply::Runtime(owned("/bin/node")),
            HostReply::Configuration(token_settings()),
        ],
    );
    assert!(launcher.is_finished());
    assert_eq!(
        requests,
        vec![
            query(),
            install(),
            HostRequest::ResolveWorkingDirectory,
            HostRequest::ResolveRuntime,
            HostRequest::ReadSettings,
            HostRequest::Launch(CommandDescriptor {
                executable: owned("/bin/node"),
                arguments: vec![owned(SCRIPT), owned("http://localhost:3016/mcp")],
                environment: vec![env("STORYBLOK_MANAGEMENT_TOKEN", "abc")],
            }),
        ]
    );
}

#[test]
fn launch_without_install() {
    let (launcher, requests) = drive(
        ConfigKind::EnvFile,
        vec![
            HostReply::InstalledVersion(Some(owned("0.1.37"))),
            HostReply::WorkingDirectory(owned("/work/")),
            HostReply::Runtime(owned("node")),
            HostReply::Configuration(ConfigSource::EnvFile(Some(owned(
                "# comment\nSTORYBLOK_MANAGEMENT_TOKEN=\"abc123\"\nSTORYBLOK_SPACE_ID=42\n",
            )))),
        ],
    );
    assert!(launcher.is_finished());
    assert_eq!(
        requests,
        vec![
            query(),
            HostRequest::ResolveWorkingDirectory,
            HostRequest::ResolveRuntime,
            HostRequest::ReadEnvFile { name: owned(".env") },
            HostRequest::Launch(CommandDescriptor {
                executable: owned("node"),
                arguments: vec![owned(SCRIPT), owned("http://localhost:3016/mcp")],
                environment: vec![
                    env("STORYBLOK_MANAGEMENT_TOKEN", "abc123"),
                    env("STORYBLOK_SPACE_ID", "42"),
                ],
            }),
        ]
    );
}

#[test]
fn install_is_asked_once_and_before_the_directory() {
    for installed in [None, Some("0.1.36"), Some("0.1.38"), Some(""), Some("latest")] {
        let installed = installed.map(owned);
        let (_, requests) = drive(
            ConfigKind::Settings,
            vec![
                HostReply::InstalledVersion(installed),
                HostReply::Installed,
                HostReply::WorkingDirectory(owned("/work")),
                HostReply::Runtime(owned("node")),
                HostReply::Configuration(token_settings()),
            ],
        );
        let installs: Vec<usize> =
            (0..requests.len()).filter(|&i| requests[i] == install()).collect();
        assert_eq!(installs, vec![1]);
        let any_install = requests
            .iter()
            .filter(|request| matches!(request, HostRequest::InstallPackage { .. }))
            .count();
        assert_eq!(any_install, 1);
        let directory: Vec<usize> = (0..requests.len())
            .filter(|&i| requests[i] == HostRequest::ResolveWorkingDirectory)
            .collect();
        assert_eq!(directory, vec![2]);
    }
}

#[test]
fn pinned_version_is_not_installed_again() {
    let (_, requests) = drive(
        ConfigKind::Settings,
        vec![
            HostReply::InstalledVersion(Some(owned("0.1.37"))),
            HostReply::WorkingDirectory(owned("/work")),
            HostReply::Runtime(owned("node")),
            HostReply::Configuration(token_settings()),
        ],
    );
    assert!(requests.iter().all(|request| !matches!(request, HostRequest::InstallPackage { .. })));
    assert_eq!(requests[1], HostRequest::ResolveWorkingDirectory);
    assert!(matches!(requests[4], HostRequest::Launch(_)));
}

#[test]
fn directory_waits_for_the_install() {
    let (launcher, request) = Launcher::start(ConfigKind::Settings);
    assert_eq!(request, query());
    let (launcher, request) = launcher.step(HostReply::InstalledVersion(Some(owned("0.1.0"))));
    assert_eq!(request, install());
    assert_eq!(launcher.state, LaunchState::AwaitingInstall);
    let (launcher, request) = launcher.step(HostReply::WorkingDirectory(owned("/work")));
    assert_eq!(request, HostRequest::Fail(LaunchError::UnexpectedReply));
    assert!(launcher.is_finished());
}

#[test]
fn failed_lookup() {
    assert_eq!(
        outcome(at(ConfigKind::Settings, LaunchState::AwaitingVersion), HostReply::Failed(owned("npm is gone"))),
        failed(LaunchError::PackageLookup(owned("npm is gone")))
    );
}

#[test]
fn failed_install() {
    let (launcher, requests) = drive(
        ConfigKind::Settings,
        vec![HostReply::InstalledVersion(None), HostReply::Failed(owned("no network"))],
    );
    assert!(launcher.is_finished());
    assert_eq!(requests.len(), 3);
    assert_eq!(requests[2], HostRequest::Fail(LaunchError::DependencyInstall(owned("no network"))));
}

#[test]
fn failed_directory() {
    assert_eq!(
        outcome(at(ConfigKind::Settings, LaunchState::AwaitingDirectory), HostReply::Failed(owned("gone"))),
        failed(LaunchError::WorkingDirectory(owned("gone")))
    );
}

#[test]
fn failed_runtime() {
    let state = LaunchState::AwaitingRuntime { entry_script: owned(SCRIPT) };
    assert_eq!(
        outcome(at(ConfigKind::EnvFile, state), HostReply::Failed(owned("no node"))),
        failed(LaunchError::RuntimeNotFound(owned("no node")))
    );
}

#[test]
fn failed_settings() {
    let state =
        LaunchState::AwaitingConfiguration { entry_script: owned(SCRIPT), runtime: owned("node") };
    assert_eq!(
        outcome(at(ConfigKind::Settings, state), HostReply::Failed(owned("bad settings"))),
        failed(LaunchError::SettingsLookup(owned("bad settings")))
    );
}

#[test]
fn unreadable_env_file_is_no_error() {
    let state =
        LaunchState::AwaitingConfiguration { entry_script: owned(SCRIPT), runtime: owned("node") };
    let expected = CommandDescriptor {
        executable: owned("node"),
        arguments: vec![owned(SCRIPT), owned("http://localhost:3016/mcp")],
        environment: Vec::new(),
    };
    assert_eq!(
        outcome(at(ConfigKind::EnvFile, state.clone()), HostReply::Failed(owned("denied"))),
        (LaunchState::Finished, HostRequest::Launch(expected.clone()))
    );
    assert_eq!(
        outcome(at(ConfigKind::EnvFile, state), HostReply::Configuration(ConfigSource::EnvFile(None))),
        (LaunchState::Finished, HostRequest::Launch(expected))
    );
}

#[test]
fn absent_settings_are_no_error() {
    let state =
        LaunchState::AwaitingConfiguration { entry_script: owned(SCRIPT), runtime: owned("node") };
    let reply = HostReply::Configuration(ConfigSource::Settings(ServerSettings::from_json(None)));
    assert_eq!(
        outcome(at(ConfigKind::Settings, state), reply),
        (
            LaunchState::Finished,
            HostRequest::Launch(CommandDescriptor {
                executable: owned("node"),
                arguments: vec![owned(SCRIPT), owned("http://localhost:3016/mcp")],
                environment: Vec::new(),
            })
        )
    );
}

#[test]
fn configuration_of_the_other_kind_is_refused() {
    let state =
        LaunchState::AwaitingConfiguration { entry_script: owned(SCRIPT), runtime: owned("node") };
    assert_eq!(
        outcome(at(ConfigKind::EnvFile, state.clone()), HostReply::Configuration(token_settings())),
        failed(LaunchError::UnexpectedReply)
    );
    assert_eq!(
        outcome(at(ConfigKind::Settings, state), HostReply::Configuration(ConfigSource::EnvFile(None))),
        failed(LaunchError::UnexpectedReply)
    );
}

#[test]
fn replies_out_of_turn_are_refused() {
    let states = [
        LaunchState::AwaitingVersion,
        LaunchState::AwaitingInstall,
        LaunchState::AwaitingDirectory,
        LaunchState::AwaitingRuntime { entry_script: owned(SCRIPT) },
        LaunchState::AwaitingConfiguration { entry_script: owned(SCRIPT), runtime: owned("node") },
        LaunchState::Finished,
    ];
    let replies = [
        HostReply::InstalledVersion(None),
        HostReply::Installed,
        HostReply::WorkingDirectory(owned("/work")),
        HostReply::Runtime(owned("node")),
        HostReply::Configuration(token_settings()),
    ];
    for (i, state) in states.iter().enumerate() {
        for (j, reply) in replies.iter().enumerate() {
            if i != j {
                assert_eq!(
                    outcome(at(ConfigKind::Settings, state.clone()), reply.clone()),
                    failed(LaunchError::UnexpectedReply),
                    "state {i}, reply {j}"
                );
            }
        }
    }
    assert_eq!(
        outcome(at(ConfigKind::Settings, LaunchState::Finished), HostReply::Failed(owned("late"))),
        failed(LaunchError::UnexpectedReply)
    );
}

#[test]
fn messages() {
    assert_eq!(LaunchError::PackageLookup(owned("a")).message(), "a");
    assert_eq!(LaunchError::DependencyInstall(owned("b")).message(), "b");
    assert_eq!(LaunchError::WorkingDirectory(owned("c")).message(), "c");
    assert_eq!(LaunchError::RuntimeNotFound(owned("d")).message(), "d");
    assert_eq!(LaunchError::SettingsLookup(owned("e")).message(), "e");
    assert_eq!(LaunchError::UnexpectedReply.message(), UNEXPECTED_REPLY);
    assert_eq!(UNEXPECTED_REPLY, "the reply does not answer the pending request");
}

#[test]
fn each_step_alone() {
    assert_eq!(
        outcome(at(ConfigKind::Settings, LaunchState::AwaitingVersion), HostReply::InstalledVersion(None)),
        (LaunchState::AwaitingInstall, install())
    );
    assert_eq!(
        outcome(
            at(ConfigKind::Settings, LaunchState::AwaitingVersion),
            HostReply::InstalledVersion(Some(owned("0.1.37")))
        ),
        (LaunchState::AwaitingDirectory, HostRequest::ResolveWorkingDirectory)
    );
    assert_eq!(
        outcome(at(ConfigKind::Settings, LaunchState::AwaitingInstall), HostReply::Installed),
        (LaunchState::AwaitingDirectory, HostRequest::ResolveWorkingDirectory)
    );
    assert_eq!(
        outcome(
            at(ConfigKind::Settings, LaunchState::AwaitingDirectory),
            HostReply::WorkingDirectory(owned("/work"))
        ),
        (LaunchState::AwaitingRuntime { entry_script: owned(SCRIPT) }, HostRequest::ResolveRuntime)
    );
    assert_eq!(
        outcome(
            at(ConfigKind::Settings, LaunchState::AwaitingRuntime { entry_script: owned(SCRIPT) }),
            HostReply::Runtime(owned("node"))
        ),
        (
            LaunchState::AwaitingConfiguration { entry_script: owned(SCRIPT), runtime: owned("node") },
            HostRequest::ReadSettings
        )
    );
    assert_eq!(
        outcome(
            at(ConfigKind::EnvFile, LaunchState::AwaitingRuntime { entry_script: owned(SCRIPT) }),
            HostReply::Runtime(owned("node"))
        ),
        (
            LaunchState::AwaitingConfiguration { entry_script: owned(SCRIPT), runtime: owned("node") },
            HostRequest::ReadEnvFile { name: owned(".env") }
        )
    );
}
