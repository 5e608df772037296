//! The command that the host runs to start the bridge.

use crate::env_file::Entry;
use vstd::prelude::*;

verus! {

/// The endpoint that the bridge connects to. It cannot be configured.
pub const TARGET_URL: &'static str = "http://localhost:3016/mcp";

/// A command for the host to run: the executable, its arguments in order,
/// and the environment variables for the new process, in order.
#[derive(Clone, Debug, PartialEq, Eq)]
pub struct CommandDescriptor {
    pub executable: String,
    pub arguments: Vec<String>,
    pub environment: Vec<(String, String)>,
}

/// `CommandDescriptor` as mathematical values.
pub ghost struct CommandView {
    pub executable: Seq<char>,
    pub arguments: Seq<Seq<char>>,
    pub environment: Seq<Entry>,
}

impl CommandView {
    /// Whether this is a command that starts the bridge: its arguments are
    /// two, and the second one is the target endpoint.
    pub open spec fn well_formed(self) -> bool {
        self.arguments.len() == 2 && self.arguments[1] == TARGET_URL@
    }
}

impl View for CommandDescriptor {
    type V = CommandView;

    open spec fn view(&self) -> CommandView {
        CommandView {
            executable: self.executable@,
            arguments: self.arguments.deep_view(),
            environment: self.environment.deep_view(),
        }
    }
}

/// The command that starts the bridge: the runtime runs the entry script,
/// which is told the target endpoint; the environment is passed on as it is.
pub open spec fn launch_command(
    runtime: Seq<char>,
    entry_script: Seq<char>,
    environment: Seq<Entry>,
) -> CommandView {
    CommandView {
        executable: runtime,
        arguments: seq![entry_script, TARGET_URL@],
        environment,
    }
}

/// Assembles the command that starts the bridge.
pub fn assemble(runtime: String, entry_script: String, environment: Vec<(String, String)>) -> (command:
    CommandDescriptor)
    ensures
        command@ == launch_command(runtime@, entry_script@, environment.deep_view()),
        command@.well_formed(),
{
    let mut arguments: Vec<String> = Vec::new();
    arguments.push(entry_script);
    arguments.push(TARGET_URL.to_owned());
    assert(arguments.deep_view() =~= seq![entry_script@, TARGET_URL@]);
    CommandDescriptor { executable: runtime, arguments, environment }
}

/// The arguments of the launch command are always two: the entry script,
/// then the target endpoint.
pub proof fn lemma_launch_arguments(
    runtime: Seq<char>,
    entry_script: Seq<char>,
    environment: Seq<Entry>,
)
    ensures
        launch_command(runtime, entry_script, environment).well_formed(),
        launch_command(runtime, entry_script, environment).arguments.len() == 2,
        launch_command(runtime, entry_script, environment).arguments[0] == entry_script,
        launch_command(runtime, entry_script, environment).arguments[1] == TARGET_URL@,
{
}

} // verus!
