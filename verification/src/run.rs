//! Whole launches: what the launcher asks when the host gives its replies
//! one after another, and what holds of every such run.

use crate::command::{launch_command, TARGET_URL};
use crate::env_file::Entry;
use crate::launch::{
    configuration_request, first_request, install_request, transition, ErrorView, ReplyView,
    RequestView, StateView,
};
use crate::package::{entry_script_in, install_due};
use crate::source::{ConfigKind, SourceView};
use vstd::prelude::*;

verus! {

/// The state reached, and the requests made so far (the first one
/// included), once the host has given `replies` in turn.
pub open spec fn run(kind: ConfigKind, replies: Seq<ReplyView>) -> (StateView, Seq<RequestView>)
    decreases replies.len(),
{
    if replies.len() == 0 {
        (StateView::AwaitingVersion, seq![first_request()])
    } else {
        let (state, requests) = run(kind, replies.drop_last());
        let (next, request) = transition(kind, state, replies.last());
        (next, requests.push(request))
    }
}

/// The requests of a run.
pub open spec fn requests_of(kind: ConfigKind, replies: Seq<ReplyView>) -> Seq<RequestView> {
    run(kind, replies).1
}

/// Whether `replies` begin with the version that is installed and, where
/// an installation is due, go on with its completion: `count` replies in all.
pub open spec fn package_settled(replies: Seq<ReplyView>, count: int) -> bool {
    &&& count <= replies.len()
    &&& replies[0] matches ReplyView::InstalledVersion(installed)
    &&& if install_due(installed) {
        count == 2 && replies[1] is Installed
    } else {
        count == 1
    }
}

/// The environment that the last reply of a launch amounts to.
pub open spec fn configured_environment(reply: ReplyView) -> Seq<Entry> {
    match reply {
        ReplyView::Configuration(source) => source.environment(),
        _ => Seq::empty(),
    }
}

/// Whether `reply` gives the configuration values of a deployment of
/// `kind`, or says that its environment file could not be read.
pub open spec fn configuration_given(kind: ConfigKind, reply: ReplyView) -> bool {
    match reply {
        ReplyView::Configuration(source) => source.kind() == kind,
        ReplyView::Failed(_) => kind == ConfigKind::EnvFile,
        _ => false,
    }
}

/// Whether the replies before request `at` are those of a launch that went
/// through every step: the package settled, then the working directory,
/// the runtime, and the configuration values.
pub open spec fn all_steps_done(kind: ConfigKind, replies: Seq<ReplyView>, at: int) -> bool {
    &&& 4 <= at <= replies.len()
    &&& package_settled(replies, at - 3)
    &&& replies[at - 3] is WorkingDirectory
    &&& replies[at - 2] is Runtime
    &&& configuration_given(kind, replies[at - 1])
}

/// What holds of the state that a run has reached.
spec fn state_fits(replies: Seq<ReplyView>, state: StateView) -> bool {
    let n = replies.len() as int;
    match state {
        StateView::AwaitingVersion => n == 0,
        StateView::AwaitingInstall => {
            &&& n == 1
            &&& replies[0] matches ReplyView::InstalledVersion(installed)
            &&& install_due(installed)
        },
        StateView::AwaitingDirectory => package_settled(replies, n),
        StateView::AwaitingRuntime { entry_script } => {
            &&& n >= 2
            &&& package_settled(replies, n - 1)
            &&& replies[n - 1] matches ReplyView::WorkingDirectory(directory)
            &&& entry_script == entry_script_in(directory)
        },
        StateView::AwaitingConfiguration { entry_script, runtime } => {
            &&& n >= 3
            &&& package_settled(replies, n - 2)
            &&& replies[n - 2] matches ReplyView::WorkingDirectory(directory)
            &&& entry_script == entry_script_in(directory)
            &&& replies[n - 1] == ReplyView::Runtime(runtime)
        },
        StateView::Finished => n >= 1,
    }
}

/// Whether `request`, made as request number `at`, comes in its turn: the
/// replies before it are those of the steps that go before it, in order.
pub open spec fn in_turn(
    kind: ConfigKind,
    replies: Seq<ReplyView>,
    at: int,
    request: RequestView,
) -> bool {
    match request {
        RequestView::QueryInstalledVersion { .. } => at == 0 && request == first_request(),
        RequestView::InstallPackage { .. } => {
            &&& at == 1
            &&& request == install_request()
            &&& replies[0] matches ReplyView::InstalledVersion(installed)
            &&& install_due(installed)
        },
        RequestView::ResolveWorkingDirectory => package_settled(replies, at),
        RequestView::ResolveRuntime => {
            &&& at >= 2
            &&& package_settled(replies, at - 1)
            &&& replies[at - 1] is WorkingDirectory
        },
        RequestView::ReadSettings | RequestView::ReadEnvFile { .. } => {
            &&& at >= 3
            &&& request == configuration_request(kind)
            &&& package_settled(replies, at - 2)
            &&& replies[at - 2] is WorkingDirectory
            &&& replies[at - 1] is Runtime
        },
        RequestView::Launch(command) => {
            &&& all_steps_done(kind, replies, at)
            &&& command == launch_command(
                replies[at - 2]->Runtime_0,
                entry_script_in(replies[at - 3]->WorkingDirectory_0),
                configured_environment(replies[at - 1]),
            )
        },
        RequestView::Fail(_) => at >= 1,
    }
}

/// Every run is made of requests that come in their turn, and ends in a
/// state that fits the replies.
proof fn lemma_run_fits(kind: ConfigKind, replies: Seq<ReplyView>)
    ensures
        requests_of(kind, replies).len() == replies.len() + 1,
        state_fits(replies, run(kind, replies).0),
        forall|at: int|
            0 <= at <= replies.len() ==> in_turn(
                kind,
                replies,
                at,
                #[trigger] requests_of(kind, replies)[at],
            ),
    decreases replies.len(),
{
    if replies.len() > 0 {
        let n = replies.len() as int;
        let earlier = replies.drop_last();
        lemma_run_fits(kind, earlier);
        let (state, requests) = run(kind, earlier);
        let (next, request) = transition(kind, state, replies.last());
        assert(requests_of(kind, replies) == requests.push(request));
        assert forall|k: int| 0 <= k < n - 1 implies earlier[k] == replies[k] by {}
        assert(state_fits(replies, next));
        assert(in_turn(kind, replies, n, request));
        assert forall|at: int| 0 <= at <= replies.len() implies in_turn(
            kind,
            replies,
            at,
            #[trigger] requests_of(kind, replies)[at],
        ) by {
            if at < n {
                assert(requests_of(kind, replies)[at] == requests[at]);
                assert(in_turn(kind, earlier, at, requests[at]));
            }
        }
    }
}

/// Every request of a run comes in its turn.
pub proof fn lemma_requests_in_turn(kind: ConfigKind, replies: Seq<ReplyView>, at: int)
    requires
        0 <= at <= replies.len(),
    ensures
        requests_of(kind, replies).len() == replies.len() + 1,
        in_turn(kind, replies, at, requests_of(kind, replies)[at]),
{
    lemma_run_fits(kind, replies);
}

/// A run goes on from where a shorter run has stopped: the requests made
/// on the first `count` replies are the first `count + 1` requests of the
/// whole run.
pub proof fn lemma_run_prefix(kind: ConfigKind, replies: Seq<ReplyView>, count: int)
    requires
        0 <= count <= replies.len(),
    ensures
        requests_of(kind, replies).len() == replies.len() + 1,
        requests_of(kind, replies.take(count)) == requests_of(kind, replies).take(count + 1),
    decreases replies.len(),
{
    lemma_run_fits(kind, replies);
    if count == replies.len() {
        assert(replies.take(count) =~= replies);
        assert(requests_of(kind, replies).take(count + 1) =~= requests_of(kind, replies));
    } else {
        let earlier = replies.drop_last();
        lemma_run_prefix(kind, earlier, count);
        assert(earlier.take(count) =~= replies.take(count));
        assert(requests_of(kind, earlier).take(count + 1) =~= requests_of(kind, replies).take(
            count + 1,
        ));
    }
}

/// Where another version than the pinned one is installed, or none, the
/// pinned version is installed exactly once: the second request asks for
/// it, no other request does, and the working directory is resolved only
/// after the host has confirmed the installation.
pub proof fn lemma_install_exactly_once(
    kind: ConfigKind,
    installed: Option<Seq<char>>,
    later: Seq<ReplyView>,
)
    requires
        install_due(installed),
    ensures
        ({
            let replies = seq![ReplyView::InstalledVersion(installed)] + later;
            let requests = requests_of(kind, replies);
            &&& requests.len() == replies.len() + 1
            &&& requests[1] == install_request()
            &&& forall|at: int|
                0 <= at < requests.len() && at != 1 ==> !(#[trigger] requests[at] is InstallPackage)
            &&& forall|at: int|
                0 <= at < requests.len() && #[trigger] requests[at] is ResolveWorkingDirectory
                    ==> at == 2 && later[0] is Installed
        }),
{
    let replies = seq![ReplyView::InstalledVersion(installed)] + later;
    let requests = requests_of(kind, replies);
    lemma_run_fits(kind, replies);
    assert(replies[0] == ReplyView::InstalledVersion(installed));
    lemma_run_prefix(kind, replies, 1);
    let opening = replies.take(1);
    assert(opening.drop_last() =~= Seq::<ReplyView>::empty());
    assert(run(kind, opening.drop_last()).0 == StateView::AwaitingVersion);
    assert(opening.last() == replies[0]);
    assert(requests_of(kind, opening)[1] == install_request());
    assert(requests.take(2)[1] == requests[1]);
    assert forall|at: int| 0 <= at < requests.len() && at != 1 implies !(
    #[trigger] requests[at] is InstallPackage) by {
        assert(in_turn(kind, replies, at, requests[at]));
    }
    assert forall|at: int|
        0 <= at < requests.len() && #[trigger] requests[at] is ResolveWorkingDirectory implies at
        == 2 && later[0] is Installed by {
        assert(in_turn(kind, replies, at, requests[at]));
        assert(replies[1] == later[0]);
    }
}

/// Where the pinned version is installed already, nothing is installed:
/// the second request resolves the working directory, and no request of
/// the run asks for an installation.
pub proof fn lemma_no_install_when_pinned(
    kind: ConfigKind,
    installed: Option<Seq<char>>,
    later: Seq<ReplyView>,
)
    requires
        !install_due(installed),
    ensures
        ({
            let replies = seq![ReplyView::InstalledVersion(installed)] + later;
            let requests = requests_of(kind, replies);
            &&& requests.len() == replies.len() + 1
            &&& requests[1] == RequestView::ResolveWorkingDirectory
            &&& forall|at: int|
                0 <= at < requests.len() ==> !(#[trigger] requests[at] is InstallPackage)
        }),
{
    let replies = seq![ReplyView::InstalledVersion(installed)] + later;
    let requests = requests_of(kind, replies);
    lemma_run_fits(kind, replies);
    assert(replies[0] == ReplyView::InstalledVersion(installed));
    lemma_run_prefix(kind, replies, 1);
    let opening = replies.take(1);
    assert(opening.drop_last() =~= Seq::<ReplyView>::empty());
    assert(run(kind, opening.drop_last()).0 == StateView::AwaitingVersion);
    assert(opening.last() == replies[0]);
    assert(requests_of(kind, opening)[1] == RequestView::ResolveWorkingDirectory);
    assert(requests.take(2)[1] == requests[1]);
    assert forall|at: int| 0 <= at < requests.len() implies !(
    #[trigger] requests[at] is InstallPackage) by {
        assert(in_turn(kind, replies, at, requests[at]));
    }
}

/// A launch has ended exactly when its last request hands over the command
/// or reports an error; until then its last request is one for the host to
/// serve.
pub proof fn lemma_run_ends(kind: ConfigKind, replies: Seq<ReplyView>)
    ensures
        ({
            let (state, requests) = run(kind, replies);
            state is Finished <==> requests.last() is Launch || requests.last() is Fail
        }),
{
    lemma_run_fits(kind, replies);
    if replies.len() > 0 {
        let (state, requests) = run(kind, replies.drop_last());
        let (next, request) = transition(kind, state, replies.last());
        assert(run(kind, replies).1.last() == request);
    }
}

/// Once a launch has ended, whatever the host says next is refused.
pub proof fn lemma_nothing_after_the_end(
    kind: ConfigKind,
    replies: Seq<ReplyView>,
    reply: ReplyView,
)
    requires
        run(kind, replies).0 is Finished,
    ensures
        run(kind, replies.push(reply)) == (
            StateView::Finished,
            requests_of(kind, replies).push(RequestView::Fail(ErrorView::UnexpectedReply)),
        ),
{
    lemma_run_step(kind, replies, reply);
}

/// One more reply takes a run one transition further.
pub proof fn lemma_run_step(kind: ConfigKind, replies: Seq<ReplyView>, reply: ReplyView)
    ensures
        run(kind, replies.push(reply)) == ({
            let (state, requests) = run(kind, replies);
            let (next, request) = transition(kind, state, reply);
            (next, requests.push(request))
        }),
{
    assert(replies.push(reply).drop_last() =~= replies);
}

/// The replies of a host that serves every request: the installed version,
/// the completion of the installation where one is due, the working
/// directory, the runtime and the configuration values.
pub open spec fn served(
    installed: Option<Seq<char>>,
    directory: Seq<char>,
    runtime: Seq<char>,
    source: SourceView,
) -> Seq<ReplyView> {
    let settled = if install_due(installed) {
        seq![ReplyView::InstalledVersion(installed), ReplyView::Installed]
    } else {
        seq![ReplyView::InstalledVersion(installed)]
    };
    settled.push(ReplyView::WorkingDirectory(directory)).push(ReplyView::Runtime(runtime)).push(
        ReplyView::Configuration(source),
    )
}

/// The requests of a launch in which the host serves every request.
pub open spec fn asked(
    kind: ConfigKind,
    installed: Option<Seq<char>>,
    directory: Seq<char>,
    runtime: Seq<char>,
    source: SourceView,
) -> Seq<RequestView> {
    let settling = if install_due(installed) {
        seq![first_request(), install_request()]
    } else {
        seq![first_request()]
    };
    settling.push(RequestView::ResolveWorkingDirectory).push(RequestView::ResolveRuntime).push(
        configuration_request(kind),
    ).push(
        RequestView::Launch(
            launch_command(runtime, entry_script_in(directory), source.environment()),
        ),
    )
}

/// Where the host serves every request, the launch ends with the command
/// for what the host replied, after these requests and no others.
pub proof fn lemma_served_launch(
    kind: ConfigKind,
    installed: Option<Seq<char>>,
    directory: Seq<char>,
    runtime: Seq<char>,
    source: SourceView,
)
    requires
        source.kind() == kind,
    ensures
        run(kind, served(installed, directory, runtime, source)) == (
            StateView::Finished,
            asked(kind, installed, directory, runtime, source),
        ),
{
    let version = ReplyView::InstalledVersion(installed);
    let none = Seq::<ReplyView>::empty();
    lemma_run_step(kind, none, version);
    assert(none.push(version) =~= seq![version]);
    let settled = if install_due(installed) {
        lemma_run_step(kind, seq![version], ReplyView::Installed);
        assert(seq![version].push(ReplyView::Installed) =~= seq![version, ReplyView::Installed]);
        seq![version, ReplyView::Installed]
    } else {
        seq![version]
    };
    let settling = if install_due(installed) {
        seq![first_request(), install_request()]
    } else {
        seq![first_request()]
    };
    assert(run(kind, settled).1 =~= settling.push(RequestView::ResolveWorkingDirectory));
    let located = settled.push(ReplyView::WorkingDirectory(directory));
    lemma_run_step(kind, settled, ReplyView::WorkingDirectory(directory));
    let equipped = located.push(ReplyView::Runtime(runtime));
    lemma_run_step(kind, located, ReplyView::Runtime(runtime));
    lemma_run_step(kind, equipped, ReplyView::Configuration(source));
}

/// Whenever a run asks the host to launch, every step has been gone
/// through, and the command is the one for what the host replied: the
/// runtime as the executable, exactly two arguments, which are the entry
/// script under the working directory and then the target endpoint, and
/// the environment that the configuration values amount to.
pub proof fn lemma_launch_request(kind: ConfigKind, replies: Seq<ReplyView>, at: int)
    requires
        0 <= at <= replies.len(),
        requests_of(kind, replies)[at] is Launch,
    ensures
        all_steps_done(kind, replies, at),
        ({
            let command = requests_of(kind, replies)[at]->Launch_0;
            &&& command.well_formed()
            &&& command.executable == replies[at - 2]->Runtime_0
            &&& command.arguments.len() == 2
            &&& command.arguments[0] == entry_script_in(replies[at - 3]->WorkingDirectory_0)
            &&& command.arguments[1] == TARGET_URL@
            &&& command.environment == configured_environment(replies[at - 1])
        }),
{
    lemma_run_fits(kind, replies);
    assert(in_turn(kind, replies, at, requests_of(kind, replies)[at]));
}

} // verus!
