//! What a command has done once it has ended: the commands that ran, what else was changed or shown,
//! and the replies that came back.

use vstd::prelude::*;

use crate::cli::{Cli, Commands};
use crate::configure;
use crate::dispatch;
use crate::logging::{FieldValueView, FieldView, Level, LogEventView};
use crate::monitor;
use crate::paths::AppPathsView;
use crate::process;
use crate::process::CommandSpecView;
use crate::progress;
use crate::replay;
use crate::repository;
use crate::restart;
use crate::restart::{RestartPhase, RestartReport, RestartTarget};
use crate::service;
use crate::service::ServiceStateView;
use crate::session::{End, InspectedView, ReplyView, RequestView, Transcript};
use crate::status;
use crate::text;
use crate::update_full;
use crate::update_full::{RestartProgressView, UpdatePlan};

verus! {

/// A request that runs a command, changes something, or shows something, and the reply to it.
#[verifier::ext_equal]
pub struct Deed {
    pub request: RequestView,
    pub reply: Option<ReplyView>,
}

/// Whether a request is a deed. Commands whose output is captured only look things up, and count if
/// `looks` says so.
pub open spec fn acts(request: RequestView, looks: bool) -> bool {
    ||| looks && request is Capture
    ||| request is Streaming
    ||| request is Interactive
    ||| request is Replace
    ||| request is RemoveTree
    ||| request is AwaitRunning
    ||| request is Watch
    ||| request is ShowStatus
}

/// The deeds of a transcript, in order.
pub open spec fn deeds(t: Transcript, looks: bool) -> Seq<Deed>
    decreases t.asked.len(),
{
    if t.asked.len() == 0 {
        Seq::empty()
    } else {
        let before = Transcript { asked: t.asked.drop_last(), ..t };
        if acts(t.asked.last(), looks) {
            deeds(before, looks).push(Deed { request: t.asked.last(), reply: before.reply() })
        } else {
            deeds(before, looks)
        }
    }
}

/// One more request.
broadcast proof fn lemma_deeds_ask(t: Transcript, request: RequestView, looks: bool)
    ensures
        #[trigger] deeds(t.ask(request), looks) == if acts(request, looks) {
            deeds(t, looks).push(Deed { request, reply: t.reply() })
        } else {
            deeds(t, looks)
        },
{
    let after = t.ask(request);
    assert(Transcript { asked: after.asked.drop_last(), ..after } == t);
}

/// Whether a deed ran a command that succeeded.
pub open spec fn succeeded(deed: Deed) -> bool {
    deed.reply matches Some(ReplyView::Outcome(outcome)) && outcome.success
}

/// Whether a deed was done.
pub open spec fn completed(deed: Deed) -> bool {
    deed.reply matches Some(ReplyView::Done)
}

/// A command without variables or a directory of its own.
pub open spec fn plain(program: Seq<char>, args: Seq<Seq<char>>) -> CommandSpecView {
    CommandSpecView { program, args, env: Seq::empty(), cwd: None }
}

/// A command in a directory, without variables of its own.
pub open spec fn placed(
    program: Seq<char>,
    args: Seq<Seq<char>>,
    directory: Seq<char>,
) -> CommandSpecView {
    CommandSpecView { program, args, env: Seq::empty(), cwd: Some(directory) }
}

/// Whether a deed looked at a unit with systemctl and found it in a state.
pub open spec fn saw(deed: Deed, unit: Seq<char>, state: ServiceStateView) -> bool {
    &&& deed.request == RequestView::Capture(
        plain(
            "systemctl"@,
            seq!["show"@, "--property=LoadState"@, "--property=ActiveState"@, "--"@, unit],
        ),
    )
    &&& deed.reply matches Some(ReplyView::Outcome(outcome)) && outcome.success
        && service::described_state(outcome.stdout) == Some(state)
}

/// Whether a deed had systemctl act on a unit, by itself for root and through sudo for others, and
/// systemctl succeeded.
pub open spec fn acted(deed: Deed, unit: Seq<char>, root: bool, action: Seq<char>) -> bool {
    &&& deed.request == RequestView::Interactive(
        if root {
            plain("systemctl"@, seq![action, "--"@, unit])
        } else {
            plain("sudo"@, seq!["--"@, "systemctl"@, action, "--"@, unit])
        },
    )
    &&& succeeded(deed)
}

/// Whether deeds stopped a unit: it was found inactive, or it was found in another state, had
/// systemctl stop it, and was then found inactive.
pub open spec fn stops(done: Seq<Deed>, unit: Seq<char>, root: bool) -> bool {
    ||| done.len() == 1 && saw(done[0], unit, ServiceStateView::Inactive)
    ||| {
        &&& done.len() == 3
        &&& exists|state: ServiceStateView|
            #[trigger] saw(done[0], unit, state) && !(state is Inactive) && !(state is Missing)
        &&& acted(done[1], unit, root, "stop"@)
        &&& saw(done[2], unit, ServiceStateView::Inactive)
    }
}

/// Whether deeds started a unit: it was found active, or it was found in another state, had
/// systemctl start it, and was then found active.
pub open spec fn starts(done: Seq<Deed>, unit: Seq<char>, root: bool) -> bool {
    ||| done.len() == 1 && saw(done[0], unit, ServiceStateView::Active)
    ||| {
        &&& done.len() == 3
        &&& exists|state: ServiceStateView|
            #[trigger] saw(done[0], unit, state) && !(state is Active) && !(state is Missing)
        &&& acted(done[1], unit, root, "start"@)
        &&& saw(done[2], unit, ServiceStateView::Active)
    }
}

/// What was done between two transcripts.
pub open spec fn done_since(earlier: Transcript, later: Transcript, looks: bool) -> Seq<Deed> {
    deeds(later, looks).skip(deeds(earlier, looks).len() as int)
}

/// The deeds before a run stay the first ones.
pub open spec fn goes_on(earlier: Transcript, later: Transcript, looks: bool) -> bool {
    deeds(earlier, looks).is_prefix_of(deeds(later, looks))
}

/// What a stop has done.
#[verifier::rlimit(40)]
proof fn lemma_stop_deeds(t: Transcript, unit: Seq<char>, root: bool)
    ensures
        ({
            let run = service::stop_run(t, unit, root);
            &&& goes_on(t, run.after, true)
            &&& run.done() ==> stops(done_since(t, run.after, true), unit, root)
            &&& forall|i: int|
                0 <= i < done_since(t, run.after, true).len() ==> (#[trigger] done_since(
                    t,
                    run.after,
                    true,
                )[i]).request is Capture || done_since(t, run.after, true)[i].request
                    == RequestView::Interactive(service::action_command(unit, root, "stop"@))
        }),
{
    broadcast use lemma_deeds_ask;

    let run = service::stop_run(t, unit, root);
    let first = service::state_run(t, unit);
    let since = done_since(t, run.after, true);
    if first.done() {
        assert(saw(since[0], unit, first.value()));
    }
}

/// What a start has done.
#[verifier::rlimit(40)]
proof fn lemma_start_deeds(t: Transcript, unit: Seq<char>, root: bool)
    ensures
        ({
            let run = service::start_run(t, unit, root);
            &&& goes_on(t, run.after, true)
            &&& run.done() ==> starts(done_since(t, run.after, true), unit, root)
            &&& forall|i: int|
                0 <= i < done_since(t, run.after, true).len() ==> (#[trigger] done_since(
                    t,
                    run.after,
                    true,
                )[i]).request is Capture || done_since(t, run.after, true)[i].request
                    == RequestView::Interactive(service::action_command(unit, root, "start"@))
        }),
{
    broadcast use lemma_deeds_ask;

    let run = service::start_run(t, unit, root);
    let first = service::state_run(t, unit);
    let since = done_since(t, run.after, true);
    if first.done() {
        assert(saw(since[0], unit, first.value()));
    }
}

/// A stop command that completes has seen the unit inactive last, and had systemctl stop it unless it
/// was inactive already. Whatever happens, a stop command runs nothing on the terminal but
/// `systemctl stop`; in particular it starts nothing.
pub proof fn law_stop_leaves_the_unit_inactive(
    t: Transcript,
    cli: Cli,
    paths: AppPathsView,
    root: bool,
)
    requires
        cli.command is StopFiredancer,
    ensures
        ({
            let run = dispatch::dispatch_run(t, cli, paths, root);
            let since = done_since(t, run.after, true);
            let unit = cli.service@;
            &&& goes_on(t, run.after, true)
            &&& run.done() ==> stops(since, unit, root)
            &&& run.done() ==> saw(since.last(), unit, ServiceStateView::Inactive)
            &&& forall|i: int|
                0 <= i < since.len() ==> (#[trigger] since[i]).request is Capture
                    || since[i].request == RequestView::Interactive(
                    if root {
                        plain("systemctl"@, seq!["stop"@, "--"@, unit])
                    } else {
                        plain("sudo"@, seq!["--"@, "systemctl"@, "stop"@, "--"@, unit])
                    },
                )
        }),
{
    reveal(dispatch::dispatch_run);
    lemma_stop_deeds(t, cli.service@, root);
    let unit = cli.service@;
    assert(service::action_command(unit, root, "stop"@) == if root {
        plain("systemctl"@, seq!["stop"@, "--"@, unit])
    } else {
        plain("sudo"@, seq!["--"@, "systemctl"@, "stop"@, "--"@, unit])
    });
}

/// A start command that completes has seen the unit active last, and had systemctl start it unless it
/// was active already. Whatever happens, a start command runs nothing on the terminal but
/// `systemctl start`; in particular it stops nothing.
pub proof fn law_start_leaves_the_unit_active(
    t: Transcript,
    cli: Cli,
    paths: AppPathsView,
    root: bool,
)
    requires
        cli.command is StartFiredancer,
    ensures
        ({
            let run = dispatch::dispatch_run(t, cli, paths, root);
            let since = done_since(t, run.after, true);
            let unit = cli.service@;
            &&& goes_on(t, run.after, true)
            &&& run.done() ==> starts(since, unit, root)
            &&& run.done() ==> saw(since.last(), unit, ServiceStateView::Active)
            &&& forall|i: int|
                0 <= i < since.len() ==> (#[trigger] since[i]).request is Capture
                    || since[i].request == RequestView::Interactive(
                    if root {
                        plain("systemctl"@, seq!["start"@, "--"@, unit])
                    } else {
                        plain("sudo"@, seq!["--"@, "systemctl"@, "start"@, "--"@, unit])
                    },
                )
        }),
{
    reveal(dispatch::dispatch_run);
    lemma_start_deeds(t, cli.service@, root);
    let unit = cli.service@;
    assert(service::action_command(unit, root, "start"@) == if root {
        plain("systemctl"@, seq!["start"@, "--"@, unit])
    } else {
        plain("sudo"@, seq!["--"@, "systemctl"@, "start"@, "--"@, unit])
    });
}

/// A unit that is found in another state than the wanted one is acted on: the third request asks for
/// the action, once the second has logged it. A unit that does not exist is an error, and nothing is
/// asked for after the look.
#[verifier::rlimit(40)]
pub proof fn law_actions_are_asked_for(
    t: Transcript,
    cli: Cli,
    paths: AppPathsView,
    root: bool,
    outcome: process::CommandOutcomeView,
    state: ServiceStateView,
)
    requires
        cli.command is StartFiredancer || cli.command is StopFiredancer,
        t.asked.len() + 1 < t.replies.len(),
        t.replies[t.asked.len() as int] == ReplyView::Outcome(outcome),
        outcome.success,
        service::described_state(outcome.stdout) == Some(state),
    ensures
        ({
            let run = dispatch::dispatch_run(t, cli, paths, root);
            let place = t.asked.len() as int;
            let unit = cli.service@;
            let action = if cli.command is StopFiredancer {
                "stop"@
            } else {
                "start"@
            };
            let there = if cli.command is StopFiredancer {
                state is Inactive
            } else {
                state is Active
            };
            &&& run.after.asked[place] == RequestView::Capture(
                plain(
                    "systemctl"@,
                    seq!["show"@, "--property=LoadState"@, "--property=ActiveState"@, "--"@, unit],
                ),
            )
            &&& there ==> run.done() && run.after.asked.len() == place + 2
            &&& state is Missing ==> run.end is Failed && run.after.asked.len() == place + 1
            &&& !there && !(state is Missing) ==> {
                &&& run.after.asked.len() > place + 2
                &&& run.after.asked[place + 1] is Log
                &&& run.after.asked[place + 2] == RequestView::Interactive(
                    if root {
                        plain("systemctl"@, seq![action, "--"@, unit])
                    } else {
                        plain("sudo"@, seq!["--"@, "systemctl"@, action, "--"@, unit])
                    },
                )
            }
        }),
{
    reveal(dispatch::dispatch_run);
    let unit = cli.service@;
    assert(service::show_state_command(unit) == plain(
        "systemctl"@,
        seq!["show"@, "--property=LoadState"@, "--property=ActiveState"@, "--"@, unit],
    ));
    assert(service::action_command(unit, root, "stop"@) == if root {
        plain("systemctl"@, seq!["stop"@, "--"@, unit])
    } else {
        plain("sudo"@, seq!["--"@, "systemctl"@, "stop"@, "--"@, unit])
    });
    assert(service::action_command(unit, root, "start"@) == if root {
        plain("systemctl"@, seq!["start"@, "--"@, unit])
    } else {
        plain("sudo"@, seq!["--"@, "systemctl"@, "start"@, "--"@, unit])
    });
}

/// Whether a deed had the built `fdctl` initialize the host's configuration.
pub open spec fn configured(deed: Deed, paths: AppPathsView) -> bool {
    deed.request == RequestView::Interactive(
        placed(
            "sudo"@,
            seq![
                "--"@,
                process::path_in(paths.repository, "build/native/gcc/bin/fdctl"@),
                "configure"@,
                "init"@,
                "all"@,
                "--config"@,
                paths.config,
            ],
            paths.repository,
        ),
    )
}

/// What a configure pass has done.
proof fn lemma_configure_deeds(t: Transcript, paths: AppPathsView, looks: bool)
    ensures
        ({
            let run = configure::configure_run(t, paths.repository, paths.config);
            let since = done_since(t, run.after, looks);
            &&& goes_on(t, run.after, looks)
            &&& since.len() <= 1
            &&& since.len() == 1 ==> configured(since[0], paths)
            &&& run.done() ==> since.len() == 1 && succeeded(since[0])
        }),
{
    broadcast use lemma_deeds_ask;

    let checked = configure::prerequisites_run(t, paths.repository, paths.config);
    assert(deeds(checked.after, looks) == deeds(t, looks));
    let run = configure::configure_run(t, paths.repository, paths.config);
    let since = done_since(t, run.after, looks);
    if since.len() == 1 {
        assert(configured(since[0], paths));
    }
}

/// A configure command runs `fdctl configure init all` of the checkout with the active configuration,
/// through sudo and at most once, and completes only if that succeeded.
pub proof fn law_configure_runs_fdctl(t: Transcript, cli: Cli, paths: AppPathsView, root: bool)
    requires
        cli.command is ConfigureFiredancer,
    ensures
        ({
            let run = dispatch::dispatch_run(t, cli, paths, root);
            let since = done_since(t, run.after, true);
            &&& goes_on(t, run.after, true)
            &&& since.len() <= 1
            &&& since.len() == 1 ==> configured(since[0], paths)
            &&& run.done() ==> since.len() == 1 && succeeded(since[0])
        }),
{
    reveal(dispatch::dispatch_run);
    lemma_configure_deeds(t, paths, true);
}

/// The checkout is configured only if its `fdctl` can be run and the configuration is a file: these
/// two paths are looked at first, and what is missing is named in the error.
pub proof fn law_prerequisites_are_looked_at(
    t: Transcript,
    paths: AppPathsView,
    looked: InspectedView,
    found: InspectedView,
)
    requires
        t.asked.len() + 1 < t.replies.len(),
        t.inspect(process::path_in(paths.repository, "build/native/gcc/bin/fdctl"@)).end
            == End::Done(looked),
        t.ask(
            RequestView::Inspect(
                process::path_in(paths.repository, "build/native/gcc/bin/fdctl"@),
            ),
        ).inspect(paths.config).end == End::Done(found),
    ensures
        ({
            let run = configure::prerequisites_run(t, paths.repository, paths.config);
            let fdctl = process::path_in(paths.repository, "build/native/gcc/bin/fdctl"@);
            let runnable = looked matches InspectedView::Present(facts) && facts.runnable();
            let file = found matches InspectedView::Present(facts) && facts.is_file;
            &&& run.done() <==> runnable && file
            &&& !run.done() ==> run.end is Failed
            &&& !runnable ==> run.after.asked == t.asked.push(RequestView::Inspect(fdctl))
            &&& runnable ==> run.after.asked == t.asked.push(RequestView::Inspect(fdctl)).push(
                RequestView::Inspect(paths.config),
            )
            &&& looked is Present && !runnable ==> run.end == End::<()>::Failed(
                "fdctl is not executable: "@ + fdctl,
            )
            &&& looked matches InspectedView::Absent(reason) ==> run.end == End::<()>::Failed(
                "fdctl binary not found: "@ + fdctl + ": "@ + reason,
            )
            &&& runnable && found is Present && !file ==> run.end == End::<()>::Failed(
                "Firedancer config is not a file: "@ + paths.config,
            )
            &&& runnable ==> (found matches InspectedView::Absent(reason) ==> run.end == End::<
                (),
            >::Failed("Firedancer config not found: "@ + paths.config + ": "@ + reason))
        }),
{
}

/// Whether a deed asked git whether a directory is a working tree, and git said so.
pub open spec fn recognized(deed: Deed, repository: Seq<char>) -> bool {
    &&& deed.request == RequestView::Capture(
        placed("git"@, seq!["rev-parse"@, "--is-inside-work-tree"@], repository),
    )
    &&& deed.reply matches Some(ReplyView::Outcome(outcome)) && outcome.success && (text::trimmed(
        outcome.stdout,
    ) == "true"@ || text::trimmed(outcome.stdout) == repository)
}

/// Whether deeds removed the build directory of a checkout and then built it.
pub open spec fn builds(done: Seq<Deed>, repository: Seq<char>) -> bool {
    &&& done.len() == 2
    &&& done[0].request == RequestView::RemoveTree(process::path_in(repository, "build"@))
    &&& completed(done[0])
    &&& done[1].request == RequestView::Streaming(
        placed("make"@, seq!["-j"@, "fdctl"@, "solana"@], repository),
    )
    &&& succeeded(done[1])
}

/// What a build has done.
#[verifier::rlimit(40)]
proof fn lemma_make_deeds(t: Transcript, repository: Seq<char>)
    ensures
        ({
            let run = repository::make_run(t, repository);
            let since = done_since(t, run.after, true);
            &&& goes_on(t, run.after, true)
            &&& goes_on(t, run.after, false)
            &&& run.done() ==> since.len() == 3 && recognized(since[0], repository)
                && builds(since.skip(1), repository)
            &&& run.done() ==> builds(done_since(t, run.after, false), repository)
        }),
{
    broadcast use lemma_deeds_ask;

    let checked = repository::repository_run(t, repository);
    let run = repository::make_run(t, repository);
    if checked.done() {
        assert(deeds(checked.after, false) == deeds(t, false));
        assert(deeds(checked.after, true).len() == deeds(t, true).len() + 1);
        assert(recognized(deeds(checked.after, true).last(), repository));
    }
}

/// A build command that completes has been told by git that the path is a working tree, has removed
/// the build directory, and has then run make with success, and nothing else.
pub proof fn law_make_builds_afresh(t: Transcript, cli: Cli, paths: AppPathsView, root: bool)
    requires
        cli.command is MakeFiredancer,
    ensures
        ({
            let run = dispatch::dispatch_run(t, cli, paths, root);
            let since = done_since(t, run.after, true);
            run.done() ==> {
                &&& goes_on(t, run.after, true)
                &&& since.len() == 3
                &&& recognized(since[0], paths.repository)
                &&& builds(since.skip(1), paths.repository)
            }
        }),
{
    reveal(dispatch::dispatch_run);
    lemma_make_deeds(t, paths.repository);
}

/// A watch command looks at nothing but the configuration, and only if no URL is given. It watches
/// the given URL or the configured one, dumps everything if it was asked to, and completes only once
/// the watch has.
#[verifier::rlimit(40)]
pub proof fn law_monitor_watches(
    t: Transcript,
    cli: Cli,
    paths: AppPathsView,
    root: bool,
    all: bool,
    url: Option<String>,
)
    requires
        cli.command == (Commands::Monitor { all, url }),
    ensures
        ({
            let run = dispatch::dispatch_run(t, cli, paths, root);
            let since = done_since(t, run.after, true);
            let watched = match url {
                Some(given) => given@,
                None => monitor::url_run(t, paths.config).value(),
            };
            &&& goes_on(t, run.after, true)
            &&& since.len() <= 1
            &&& since.len() == 1 ==> since[0].request == RequestView::Watch(watched, all)
            &&& run.done() ==> since.len() == 1 && completed(since[0])
        }),
{
    broadcast use lemma_deeds_ask;

    reveal(dispatch::dispatch_run);
}

/// A status command changes nothing: of all deeds it only shows the report, once and last, in the form
/// that was asked for, and completes only if that was done. The report names the state of the unit, the
/// version that it runs, and the version that was built, each as it was found.
pub proof fn law_status_only_shows(
    t: Transcript,
    cli: Cli,
    paths: AppPathsView,
    root: bool,
    json: bool,
)
    requires
        cli.command == (Commands::Status { json }),
    ensures
        ({
            let run = dispatch::dispatch_run(t, cli, paths, root);
            let since = done_since(t, run.after, false);
            &&& goes_on(t, run.after, false)
            &&& since.len() <= 1
            &&& since.len() == 1 ==> (since[0].request matches RequestView::ShowStatus(_, as_json)
                && as_json == json)
            &&& run.done() ==> {
                &&& since.len() == 1
                &&& completed(since[0])
                &&& run.after.asked.last() == since[0].request
                &&& since[0].request->ShowStatus_0.config_path == paths.config
                &&& shows_what_was_found(
                    since[0].request->ShowStatus_0,
                    t,
                    paths,
                    cli.service@,
                    root,
                )
            }
        }),
{
    assert(dispatch::dispatch_run(t, cli, paths, root) == dispatch::status_run(
        t,
        paths,
        cli.service@,
        root,
        json,
    )) by {
        reveal(dispatch::dispatch_run);
    }
    lemma_status_deeds(t, paths, cli.service@, root, json);
}

/// Whether a report names the state, the running version, and the built version that were found, in
/// this order.
pub open spec fn shows_what_was_found(
    report: status::StatusReportView,
    t: Transcript,
    paths: AppPathsView,
    unit: Seq<char>,
    root: bool,
) -> bool {
    let state = service::state_run(t, unit);
    let running = service::running_version_run(state.after, unit, root);
    let built = repository::built_version_run(running.after, paths.repository);
    &&& state.done() && report.service == state.value().name()
    &&& running.done() && report.running_fdctl_version == running.value()
    &&& built.done() && report.built_fdctl_version == built.value()
}

/// What a status command has done.
#[verifier::rlimit(40)]
proof fn lemma_status_deeds(
    t: Transcript,
    paths: AppPathsView,
    unit: Seq<char>,
    root: bool,
    json: bool,
)
    ensures
        ({
            let run = dispatch::status_run(t, paths, unit, root, json);
            let since = done_since(t, run.after, false);
            &&& goes_on(t, run.after, false)
            &&& since.len() <= 1
            &&& since.len() == 1 ==> (since[0].request matches RequestView::ShowStatus(_, as_json)
                && as_json == json)
            &&& run.done() ==> {
                &&& since.len() == 1
                &&& completed(since[0])
                &&& run.after.asked.last() == since[0].request
                &&& since[0].request->ShowStatus_0.config_path == paths.config
                &&& shows_what_was_found(since[0].request->ShowStatus_0, t, paths, unit, root)
            }
        }),
{
    let state = service::state_run(t, unit);
    lemma_state_deeds(t, unit);
    let running = service::running_version_run(state.after, unit, root);
    lemma_running_deeds(state.after, unit, root);
    let built = repository::built_version_run(running.after, paths.repository);
    lemma_built_deeds(running.after, paths.repository);
    let facts = status::ServiceFacts {
        state: state.value(),
        running: running.value(),
        built: built.value(),
    };
    let report = status::collect_run(built.after, paths, facts);
    lemma_collect_deeds(built.after, paths, facts);
    lemma_deeds_ask(report.after, RequestView::ShowStatus(report.value(), json), false);
}

/// Reading a unit's state only looks.
proof fn lemma_state_deeds(t: Transcript, unit: Seq<char>)
    ensures
        deeds(service::state_run(t, unit).after, false) == deeds(t, false),
{
    broadcast use lemma_deeds_ask;

}

/// Reading the running version only looks.
proof fn lemma_running_deeds(t: Transcript, unit: Seq<char>, root: bool)
    ensures
        deeds(service::running_version_run(t, unit, root).after, false) == deeds(t, false),
{
    broadcast use lemma_deeds_ask;

}

/// Reading the built version only looks.
proof fn lemma_built_deeds(t: Transcript, repository: Seq<char>)
    ensures
        deeds(repository::built_version_run(t, repository).after, false) == deeds(t, false),
{
    broadcast use lemma_deeds_ask;

}

/// Collecting a report does nothing, and keeps what was known.
#[verifier::rlimit(40)]
proof fn lemma_collect_deeds(t: Transcript, paths: AppPathsView, facts: status::ServiceFacts)
    ensures
        ({
            let run = status::collect_run(t, paths, facts);
            &&& deeds(run.after, false) == deeds(t, false)
            &&& run.done() ==> {
                &&& run.value().config_path == paths.config
                &&& run.value().service == facts.state.name()
                &&& run.value().running_fdctl_version == facts.running
                &&& run.value().built_fdctl_version == facts.built
            }
        }),
{
    broadcast use lemma_deeds_ask;

    let loaded = status::load_run(t, paths, facts);
    lemma_load_deeds(t, paths, facts);
    let report = status::collect_run(t, paths, facts);
    assert(deeds(report.after, false) == deeds(loaded.after, false));
}

/// Loading a report does nothing.
#[verifier::rlimit(40)]
proof fn lemma_load_deeds(t: Transcript, paths: AppPathsView, facts: status::ServiceFacts)
    ensures
        deeds(status::load_run(t, paths, facts).after, false) == deeds(t, false),
{
    broadcast use lemma_deeds_ask;

    let read = t.text(RequestView::ReadText(paths.config)).attempting(
        "could not read active Firedancer config "@ + paths.config,
    );
    let parsed = read.after.config(read.value()).attempting(
        "could not parse active Firedancer config "@ + paths.config,
    );
    let identity = status::identity_path(parsed.value(), paths.username);
    let checked = status::permissions_run(parsed.after, identity);
    assert(deeds(parsed.after, false) == deeds(t, false));
    assert(deeds(checked.after, false) == deeds(t, false));
}

/// Resolving a ref does nothing, and the answer to its last question is the commit.
proof fn lemma_resolve_deeds(
    t: Transcript,
    repository: Seq<char>,
    git_ref: Seq<char>,
    revisions: Seq<Seq<char>>,
)
    ensures
        ({
            let run = repository::resolve_run(t, repository, git_ref, revisions);
            &&& deeds(run.after, false) == deeds(t, false)
            &&& run.after.replies == t.replies
            &&& run.after.asked.len() >= t.asked.len()
            &&& run.done() ==> {
                let last = run.after.asked.len() - 1;
                &&& t.asked.len() <= last < t.replies.len()
                &&& exists|i: int|
                    0 <= i < revisions.len() && run.after.asked[last] == RequestView::Capture(
                        repository::resolve_command(#[trigger] revisions[i], repository),
                    )
                &&& t.replies[last] matches ReplyView::Outcome(outcome) && outcome.success
                    && text::trimmed(outcome.stdout) == run.value()
                &&& repository::is_commit_id(run.value())
            }
        }),
    decreases revisions.len(),
{
    broadcast use lemma_deeds_ask;

    if revisions.len() > 0 {
        let request = RequestView::Capture(repository::resolve_command(revisions[0], repository));
        let found = t.outcome(request);
        let rest = revisions.drop_first();
        lemma_resolve_deeds(found.after, repository, git_ref, rest);
        let run = repository::resolve_run(t, repository, git_ref, revisions);
        if run.done() && !found.value().success {
            let last = run.after.asked.len() - 1;
            let i = choose|i: int|
                0 <= i < rest.len() && run.after.asked[last] == RequestView::Capture(
                    repository::resolve_command(#[trigger] rest[i], repository),
                );
            assert(rest[i] == revisions[i + 1]);
        }
    }
}

/// Stages that complete have all run, in order, and have all succeeded.
proof fn lemma_stages_deeds(t: Transcript, stages: Seq<repository::StageView>)
    ensures
        ({
            let run = repository::stages_run(t, stages);
            let since = done_since(t, run.after, false);
            &&& goes_on(t, run.after, false)
            &&& run.done() ==> {
                &&& since.len() == stages.len()
                &&& forall|i: int|
                    0 <= i < stages.len() ==> (#[trigger] since[i]).request
                        == RequestView::Streaming(stages[i].command) && succeeded(since[i])
            }
        }),
    decreases stages.len(),
{
    broadcast use lemma_deeds_ask;

    if stages.len() > 0 {
        let first = t.required(
            RequestView::Streaming(stages[0].command),
            stages[0].description,
        );
        let rest = stages.drop_first();
        lemma_stages_deeds(first.after, rest);
        let run = repository::stages_run(t, stages);
        if run.done() {
            let since = done_since(t, run.after, false);
            let later = done_since(first.after, run.after, false);
            assert(since[0] == deeds(first.after, false).last());
            assert forall|i: int| 0 <= i < stages.len() implies (#[trigger] since[i]).request
                == RequestView::Streaming(stages[i].command) && succeeded(since[i]) by {
                if i > 0 {
                    assert(since[i] == later[i - 1]);
                    assert(rest[i - 1] == stages[i]);
                }
            }
        }
    }
}

/// Whether a deed ran git in a directory.
pub open spec fn ran_git(deed: Deed, args: Seq<Seq<char>>, repository: Seq<char>) -> bool {
    deed.request == RequestView::Streaming(placed("git"@, args, repository))
}

/// Whether deeds threw the changes of a checkout away: those of the superproject with success, and
/// those of the submodules in any case.
pub open spec fn discards(done: Seq<Deed>, repository: Seq<char>) -> bool {
    &&& done.len() == 4
    &&& ran_git(done[0], seq!["reset"@, "--hard"@, "HEAD"@], repository) && succeeded(done[0])
    &&& ran_git(done[1], seq!["clean"@, "-ffd"@], repository) && succeeded(done[1])
    &&& ran_git(
        done[2],
        seq!["submodule"@, "foreach"@, "--recursive"@, "git"@, "reset"@, "--hard"@],
        repository,
    )
    &&& ran_git(
        done[3],
        seq!["submodule"@, "foreach"@, "--recursive"@, "git"@, "clean"@, "-ffd"@],
        repository,
    )
}

/// Whether deeds checked a commit out with its submodules and installed its dependencies without a
/// prompt.
pub open spec fn checks_out(done: Seq<Deed>, repository: Seq<char>, commit: Seq<char>) -> bool {
    &&& done.len() == 4
    &&& ran_git(done[0], seq!["checkout"@, "--force"@, "--detach"@, commit], repository)
    &&& ran_git(done[1], seq!["submodule"@, "sync"@, "--recursive"@], repository)
    &&& ran_git(
        done[2],
        seq![
            "submodule"@,
            "update"@,
            "--init"@,
            "--recursive"@,
            "--force"@,
            "--checkout"@,
        ],
        repository,
    )
    &&& done[3].request == RequestView::Streaming(
        CommandSpecView {
            program: process::path_in(repository, "deps.sh"@),
            args: seq!["fetch"@, "check"@, "install"@],
            env: seq![("FD_AUTO_INSTALL_PACKAGES"@, "1"@)],
            cwd: Some(repository),
        },
    )
    &&& succeeded(done[0]) && succeeded(done[1]) && succeeded(done[2]) && succeeded(done[3])
}

/// Whether deeds updated a checkout to a commit: the origin was fetched, leftover changes may have
/// been thrown away, and the commit was checked out.
pub open spec fn updates(done: Seq<Deed>, repository: Seq<char>, commit: Seq<char>) -> bool {
    &&& done.len() == 5 || done.len() == 9
    &&& ran_git(done[0], seq!["fetch"@, "--tags"@, "origin"@], repository) && succeeded(done[0])
    &&& done.len() == 9 ==> discards(done.subrange(1, 5), repository)
    &&& checks_out(done.skip(done.len() - 4), repository, commit)
}

/// What discarding leftover changes has done.
#[verifier::rlimit(40)]
proof fn lemma_reset_deeds(t: Transcript, repository: Seq<char>)
    ensures
        ({
            let run = repository::reset_run(t, repository);
            let since = done_since(t, run.after, false);
            &&& goes_on(t, run.after, false)
            &&& run.done() ==> since.len() == 0 || discards(since, repository)
        }),
{
    broadcast use lemma_deeds_ask;

    let run = repository::reset_run(t, repository);
    let status = repository::worktree_status_run(t, repository);
    let warned = status.after.note(repository::leftovers_event(status.value()));
    assert(deeds(warned.after, false) == deeds(t, false));
    let stages = repository::discard_stages(repository);
    let discarded = repository::stages_run(warned.after, stages);
    lemma_stages_deeds(warned.after, stages);
    let first = done_since(warned.after, discarded.after, false);
    let reset = repository::tolerated_run(
        discarded.after,
        repository::submodule_reset_stage(repository),
    );
    let since = done_since(t, run.after, false);
    if run.done() && since.len() != 0 {
        assert(since.len() == 4);
        assert(since[0] == first[0]);
        assert(since[1] == first[1]);
        assert(first[0].request == RequestView::Streaming(stages[0].command));
        assert(first[1].request == RequestView::Streaming(stages[1].command));
    }
}

/// What moving to a commit has done.
#[verifier::rlimit(40)]
proof fn lemma_move_deeds(t: Transcript, repository: Seq<char>, commit: Seq<char>)
    ensures
        ({
            let run = repository::move_run(t, repository, commit);
            let since = done_since(t, run.after, false);
            &&& goes_on(t, run.after, false)
            &&& run.done() ==> {
                &&& since.len() == 4 || since.len() == 8
                &&& since.len() == 8 ==> discards(since.take(4), repository)
                &&& checks_out(since.skip(since.len() - 4), repository, commit)
            }
        }),
{
    broadcast use lemma_deeds_ask;

    let run = repository::move_run(t, repository, commit);
    let head = t.outcome(RequestView::Capture(repository::head_command(repository)));
    let noted = if head.value().success && text::trimmed(head.value().stdout) == commit {
        head.after.note(repository::current_event(commit))
    } else {
        head.with(())
    };
    assert(deeds(noted.after, false) == deeds(t, false));
    let reset = repository::reset_run(noted.after, repository);
    lemma_reset_deeds(noted.after, repository);
    let stages = repository::checkout_stages(repository, commit);
    let moved = repository::stages_run(reset.after, stages);
    lemma_stages_deeds(reset.after, stages);
    let installed = repository::deps_run(moved.after, repository);
    if run.done() {
        let since = done_since(t, run.after, false);
        let first = done_since(noted.after, reset.after, false);
        let second = done_since(reset.after, moved.after, false);
        assert(deeds(installed.after, false).len() == deeds(moved.after, false).len() + 1);
        assert(since == first + second.push(deeds(installed.after, false).last()));
        let last = since.skip(since.len() - 4);
        assert(last[0] == second[0]);
        assert(last[1] == second[1]);
        assert(last[2] == second[2]);
        assert(last[3] == deeds(installed.after, false).last());
        assert(second[0].request == RequestView::Streaming(stages[0].command));
        assert(second[1].request == RequestView::Streaming(stages[1].command));
        assert(second[2].request == RequestView::Streaming(stages[2].command));
        if since.len() == 8 {
            assert(since.take(4) == first);
        }
    }
}

/// What an update has done.
#[verifier::rlimit(40)]
proof fn lemma_update_deeds(t: Transcript, repository: Seq<char>, git_ref: Seq<char>)
    ensures
        ({
            let run = repository::update_run(t, repository, git_ref);
            let located = repository::locate_run(t, repository, git_ref);
            let since = done_since(t, run.after, false);
            let last = located.after.asked.len() - 1;
            &&& goes_on(t, run.after, false)
            &&& run.done() ==> {
                &&& located.done()
                &&& updates(since, repository, located.value())
                &&& repository::is_commit_id(located.value())
                &&& t.asked.len() <= last < t.replies.len()
                &&& exists|i: int|
                    0 <= i < repository::candidates(git_ref).len() && located.after.asked[last]
                        == RequestView::Capture(
                        repository::resolve_command(
                            #[trigger] repository::candidates(git_ref)[i],
                            repository,
                        ),
                    )
                &&& t.replies[last] matches ReplyView::Outcome(outcome) && outcome.success
                    && text::trimmed(outcome.stdout) == located.value()
            }
        }),
{
    broadcast use lemma_deeds_ask;

    let run = repository::update_run(t, repository, git_ref);
    let located = repository::locate_run(t, repository, git_ref);
    let checked = repository::repository_run(t, repository);
    assert(deeds(checked.after, false) == deeds(t, false));
    assert(checked.after.replies == t.replies);
    let begun = checked.after.note(repository::fetch_event(repository, git_ref));
    let fetched = begun.after.required(
        RequestView::Streaming(repository::fetch_command(repository)),
        "git fetch"@,
    );
    lemma_resolve_deeds(
        fetched.after,
        repository,
        git_ref,
        repository::candidates(git_ref),
    );
    let moved = repository::move_run(located.after, repository, located.value());
    lemma_move_deeds(located.after, repository, located.value());
    if run.done() {
        let since = done_since(t, run.after, false);
        let later = done_since(located.after, moved.after, false);
        assert(deeds(located.after, false) == deeds(t, false).push(
            deeds(fetched.after, false).last(),
        ));
        assert(since == seq![deeds(fetched.after, false).last()] + later);
        assert(since.skip(since.len() - 4) == later.skip(later.len() - 4));
        if since.len() == 9 {
            assert(since.subrange(1, 5) == later.take(4));
        }
    }
}

/// An update command that completes has fetched the origin, has thrown leftover changes away if there
/// were any, and has then checked out, with its submodules and dependencies, the commit that git gave
/// for the last revision that it was asked for. Every step but those on the submodules' leftovers has
/// succeeded. That revision is the ref itself, its tag, or its branch of the origin.
pub proof fn law_update_moves_to_the_commit(
    t: Transcript,
    cli: Cli,
    paths: AppPathsView,
    root: bool,
    git_ref: String,
)
    requires
        cli.command == (Commands::UpdateFiredancer { git_ref }),
    ensures
        ({
            let run = dispatch::dispatch_run(t, cli, paths, root);
            &&& goes_on(t, run.after, false)
            &&& run.done() ==> exists|commit: Seq<char>, last: int, revision: Seq<char>|
                {
                    &&& revision == git_ref@ || revision == "refs/tags/"@ + git_ref@ || revision
                        == "refs/remotes/origin/"@ + git_ref@
                    &&& #[trigger] went_to(
                        t,
                        run.after,
                        paths.repository,
                        commit,
                        last,
                        #[trigger] repository::asks_for(revision, paths.repository),
                    )
                }
        }),
{
    lemma_update_dispatched(t, cli, paths, root, git_ref);
    lemma_update_came_from(t, paths.repository, git_ref@);
}

/// An update command updates the checkout.
proof fn lemma_update_dispatched(
    t: Transcript,
    cli: Cli,
    paths: AppPathsView,
    root: bool,
    git_ref: String,
)
    requires
        cli.command == (Commands::UpdateFiredancer { git_ref }),
    ensures
        dispatch::dispatch_run(t, cli, paths, root) == repository::update_run(
            t,
            paths.repository,
            git_ref@,
        ),
{
    reveal(dispatch::dispatch_run);
}

/// Whether an update went to a commit that the reply to one of its requests gave.
pub open spec fn went_to(
    earlier: Transcript,
    later: Transcript,
    repository: Seq<char>,
    commit: Seq<char>,
    last: int,
    request: RequestView,
) -> bool {
    &&& updates(done_since(earlier, later, false), repository, commit)
    &&& gave(earlier, last, commit)
    &&& earlier.asked.len() <= last < later.asked.len()
    &&& later.asked[last] == request
}

/// An update went to the commit that git gave for the last revision that it was asked for.
#[verifier::rlimit(40)]
proof fn lemma_update_came_from(t: Transcript, repository: Seq<char>, git_ref: Seq<char>)
    ensures
        ({
            let run = repository::update_run(t, repository, git_ref);
            &&& goes_on(t, run.after, false)
            &&& run.done() ==> exists|commit: Seq<char>, last: int, revision: Seq<char>|
                {
                    &&& revision == git_ref || revision == "refs/tags/"@ + git_ref || revision
                        == "refs/remotes/origin/"@ + git_ref
                    &&& #[trigger] went_to(
                        t,
                        run.after,
                        repository,
                        commit,
                        last,
                        #[trigger] repository::asks_for(revision, repository),
                    )
                }
        }),
{
    lemma_update_deeds(t, repository, git_ref);
    let run = repository::update_run(t, repository, git_ref);
    if run.done() {
        let located = repository::locate_run(t, repository, git_ref);
        let last = located.after.asked.len() - 1;
        let commit = located.value();
        let all = repository::candidates(git_ref);
        let i = choose|i: int|
            0 <= i < all.len() && located.after.asked[last] == RequestView::Capture(
                repository::resolve_command(#[trigger] all[i], repository),
            );
        repository::law_refs_are_looked_for_as_given(git_ref);
        repository::lemma_asks_for(all[i], repository);
        lemma_located_stays(t, repository, git_ref);
        assert(gave(t, last, commit));
        assert(all[i] == git_ref || all[i] == "refs/tags/"@ + git_ref || all[i]
            == "refs/remotes/origin/"@ + git_ref);
        assert(went_to(
            t,
            run.after,
            repository,
            commit,
            last,
            repository::asks_for(all[i], repository),
        ));
    }
}

/// What locating a ref has asked for stays asked for.
proof fn lemma_located_stays(t: Transcript, repository: Seq<char>, git_ref: Seq<char>)
    ensures
        repository::update_run(t, repository, git_ref).done() ==> repository::locate_run(
            t,
            repository,
            git_ref,
        ).after.asked.is_prefix_of(repository::update_run(t, repository, git_ref).after.asked),
{
    let located = repository::locate_run(t, repository, git_ref);
    replay::lemma_move_starts(located.after, repository, located.value());
    reveal(Transcript::continues);
}

/// Whether a reply is the successful outcome of a command that printed a commit ID.
pub open spec fn gave(t: Transcript, at: int, commit: Seq<char>) -> bool {
    &&& 0 <= at < t.replies.len()
    &&& repository::is_commit_id(commit)
    &&& t.replies[at] matches ReplyView::Outcome(outcome) && outcome.success && text::trimmed(
        outcome.stdout,
    ) == commit
}

/// The deeds of a restart, segment by segment.
pub open spec fn in_segments(
    stop: Seq<Deed>,
    first: Seq<Deed>,
    second: Deed,
    start: Seq<Deed>,
) -> Seq<Deed> {
    stop + first + seq![second] + start
}

/// Whether deeds configured the host once, or were none.
pub open spec fn may_configure(done: Seq<Deed>, paths: AppPathsView) -> bool {
    done.len() == 0 || (done.len() == 1 && configured(done[0], paths))
}

/// Whether deeds restarted a unit: it was stopped and seen inactive, the host was configured, perhaps
/// in vain, and then configured with success, and the unit was started and seen active.
pub open spec fn restarts(
    done: Seq<Deed>,
    paths: AppPathsView,
    unit: Seq<char>,
    root: bool,
) -> bool {
    exists|stop: Seq<Deed>, first: Seq<Deed>, second: Deed, start: Seq<Deed>|
        {
            &&& done == #[trigger] in_segments(stop, first, second, start)
            &&& stops(stop, unit, root)
            &&& may_configure(first, paths)
            &&& configured(second, paths) && succeeded(second)
            &&& starts(start, unit, root)
        }
}

/// Whether deeds had systemctl act once, with success, or were none.
pub open spec fn may_act(done: Seq<Deed>, unit: Seq<char>, root: bool, action: Seq<char>) -> bool {
    done.len() == 0 || (done.len() == 1 && acted(done[0], unit, root, action))
}

/// Whether deeds are those of a restart, without the looks at the unit.
pub open spec fn restarts_unseen(
    done: Seq<Deed>,
    paths: AppPathsView,
    unit: Seq<char>,
    root: bool,
) -> bool {
    exists|stop: Seq<Deed>, first: Seq<Deed>, second: Deed, start: Seq<Deed>|
        {
            &&& done == #[trigger] in_segments(stop, first, second, start)
            &&& may_act(stop, unit, root, "stop"@)
            &&& may_configure(first, paths)
            &&& configured(second, paths) && succeeded(second)
            &&& may_act(start, unit, root, "start"@)
        }
}

/// What a stop has done apart from looking.
proof fn lemma_stop_acts(t: Transcript, unit: Seq<char>, root: bool)
    ensures
        ({
            let run = service::stop_run(t, unit, root);
            &&& goes_on(t, run.after, false)
            &&& run.done() ==> may_act(done_since(t, run.after, false), unit, root, "stop"@)
        }),
{
    broadcast use lemma_deeds_ask;

}

/// What a start has done apart from looking.
proof fn lemma_start_acts(t: Transcript, unit: Seq<char>, root: bool)
    ensures
        ({
            let run = service::start_run(t, unit, root);
            &&& goes_on(t, run.after, false)
            &&& run.done() ==> may_act(done_since(t, run.after, false), unit, root, "start"@)
        }),
{
    broadcast use lemma_deeds_ask;

}

/// Logging does nothing.
proof fn lemma_note_deeds(t: Transcript, event: LogEventView, looks: bool)
    ensures
        deeds(t.note(event).after, looks) == deeds(t, looks),
{
    broadcast use lemma_deeds_ask;

}

/// Looking at the prerequisites does nothing.
proof fn lemma_prerequisites_deeds(t: Transcript, paths: AppPathsView, looks: bool)
    ensures
        deeds(
            configure::prerequisites_run(t, paths.repository, paths.config).after,
            looks,
        ) == deeds(t, looks),
{
    broadcast use lemma_deeds_ask;

}

/// Whether deeds started a unit, with or without the looks at it.
spec fn started(done: Seq<Deed>, unit: Seq<char>, root: bool, looks: bool) -> bool {
    if looks {
        starts(done, unit, root)
    } else {
        may_act(done, unit, root, "start"@)
    }
}

/// Whether deeds stopped a unit, with or without the looks at it.
spec fn stopped(done: Seq<Deed>, unit: Seq<char>, root: bool, looks: bool) -> bool {
    if looks {
        stops(done, unit, root)
    } else {
        may_act(done, unit, root, "stop"@)
    }
}

/// What the last segment of a restart has done.
#[verifier::rlimit(40)]
proof fn lemma_start_segment_deeds(
    t: Transcript,
    target: RestartTarget,
    earlier: Seq<RestartReport>,
    looks: bool,
) -> (start: Seq<Deed>)
    ensures
        ({
            let run = restart::start_segment(t, target, earlier).run;
            run.done() ==> deeds(run.after, looks) == deeds(t, looks) + start && started(
                start,
                target.unit,
                target.as_root,
                looks,
            )
        }),
{
    let event = restart::restart_event(Level::Info, "starting restart segment: "@ + "start"@);
    lemma_note_deeds(t, event, looks);
    let entered = restart::announced(t, "start"@);
    lemma_start_deeds(entered.after, target.unit, target.as_root);
    lemma_start_acts(entered.after, target.unit, target.as_root);
    let ran = service::start_run(entered.after, target.unit, target.as_root);
    lemma_note_deeds(
        ran.after,
        restart::restart_event(Level::Info, "Firedancer restart completed"@),
        looks,
    );
    let start = done_since(entered.after, ran.after, looks);
    assert(goes_on(entered.after, ran.after, looks));
    assert(deeds(ran.after, looks) == deeds(entered.after, looks) + start);
    start
}

/// What a restart has done from its second configure pass on.
#[verifier::rlimit(40)]
proof fn lemma_second_segment_deeds(
    t: Transcript,
    target: RestartTarget,
    paths: AppPathsView,
    earlier: Seq<RestartReport>,
    looks: bool,
) -> (parts: (Deed, Seq<Deed>))
    requires
        target.repository == paths.repository,
        target.config == paths.config,
    ensures
        ({
            let run = restart::second_configure_segment(t, target, earlier).run;
            run.done() ==> {
                &&& deeds(run.after, looks) == deeds(t, looks) + (seq![parts.0] + parts.1)
                &&& configured(parts.0, paths) && succeeded(parts.0)
                &&& started(parts.1, target.unit, target.as_root, looks)
            }
        }),
{
    let event = restart::restart_event(
        Level::Info,
        "starting restart segment: "@ + "configure 2/2"@,
    );
    lemma_note_deeds(t, event, looks);
    let entered = restart::announced(t, "configure 2/2"@);
    let passed = configure::configure_run(entered.after, paths.repository, paths.config);
    lemma_configure_deeds(entered.after, paths, looks);
    let start = lemma_start_segment_deeds(
        passed.after,
        target,
        earlier.push(RestartReport::Begun(RestartPhase::ConfigureSecond)),
        looks,
    );
    let pass = done_since(entered.after, passed.after, looks);
    if passed.done() {
        assert(deeds(passed.after, looks) == deeds(t, looks) + seq![pass[0]]);
        assert(deeds(passed.after, looks) + start == deeds(t, looks) + (seq![pass[0]] + start));
    }
    (pass[0], start)
}

/// What a restart has done from its first configure pass on.
#[verifier::rlimit(40)]
proof fn lemma_first_segment_deeds(
    t: Transcript,
    target: RestartTarget,
    paths: AppPathsView,
    earlier: Seq<RestartReport>,
    looks: bool,
) -> (parts: (Seq<Deed>, Deed, Seq<Deed>))
    requires
        target.repository == paths.repository,
        target.config == paths.config,
    ensures
        ({
            let run = restart::first_configure_segment(t, target, earlier).run;
            run.done() ==> {
                &&& deeds(run.after, looks) == deeds(t, looks) + (parts.0 + (seq![parts.1]
                    + parts.2))
                &&& may_configure(parts.0, paths)
                &&& configured(parts.1, paths) && succeeded(parts.1)
                &&& started(parts.2, target.unit, target.as_root, looks)
            }
        }),
{
    let event = restart::restart_event(
        Level::Info,
        "starting restart segment: "@ + "configure 1/2"@,
    );
    lemma_note_deeds(t, event, looks);
    let entered = restart::announced(t, "configure 1/2"@);
    let passed = configure::configure_run(entered.after, paths.repository, paths.config);
    lemma_configure_deeds(entered.after, paths, looks);
    let pass = done_since(entered.after, passed.after, looks);
    assert(deeds(passed.after, looks) == deeds(t, looks) + pass);
    let reports = earlier.push(RestartReport::Begun(RestartPhase::ConfigureFirst));
    match passed.end {
        End::Failed(message) => {
            let warned = passed.after.note(restart::retry_event(message));
            lemma_note_deeds(passed.after, restart::retry_event(message), looks);
            let rest = lemma_second_segment_deeds(
                warned.after,
                target,
                paths,
                reports.push(RestartReport::ConfigureFirstFailed),
                looks,
            );
            assert(deeds(t, looks) + pass + (seq![rest.0] + rest.1) == deeds(t, looks) + (pass + (
            seq![rest.0] + rest.1)));
            (pass, rest.0, rest.1)
        },
        _ => {
            let rest = lemma_second_segment_deeds(passed.after, target, paths, reports, looks);
            assert(deeds(t, looks) + pass + (seq![rest.0] + rest.1) == deeds(t, looks) + (pass + (
            seq![rest.0] + rest.1)));
            (pass, rest.0, rest.1)
        },
    }
}

/// What a restart has done from its stop on.
#[verifier::rlimit(40)]
proof fn lemma_stop_segment_deeds(
    t: Transcript,
    target: RestartTarget,
    paths: AppPathsView,
    looks: bool,
) -> (parts: (Seq<Deed>, Seq<Deed>, Deed, Seq<Deed>))
    requires
        target.repository == paths.repository,
        target.config == paths.config,
    ensures
        ({
            let run = restart::stop_segment(t, target).run;
            run.done() ==> {
                &&& deeds(run.after, looks) == deeds(t, looks) + in_segments(
                    parts.0,
                    parts.1,
                    parts.2,
                    parts.3,
                )
                &&& stopped(parts.0, target.unit, target.as_root, looks)
                &&& may_configure(parts.1, paths)
                &&& configured(parts.2, paths) && succeeded(parts.2)
                &&& started(parts.3, target.unit, target.as_root, looks)
            }
        }),
{
    let event = restart::restart_event(Level::Info, "starting restart segment: "@ + "stop"@);
    lemma_note_deeds(t, event, looks);
    let entered = restart::announced(t, "stop"@);
    lemma_stop_deeds(entered.after, target.unit, target.as_root);
    lemma_stop_acts(entered.after, target.unit, target.as_root);
    let ran = service::stop_run(entered.after, target.unit, target.as_root);
    let stop = done_since(entered.after, ran.after, looks);
    assert(goes_on(entered.after, ran.after, looks));
    assert(deeds(ran.after, looks) == deeds(t, looks) + stop);
    let rest = lemma_first_segment_deeds(
        ran.after,
        target,
        paths,
        seq![RestartReport::Begun(RestartPhase::Stop)],
        looks,
    );
    assert(deeds(t, looks) + stop + (rest.0 + (seq![rest.1] + rest.2)) == deeds(t, looks)
        + in_segments(stop, rest.0, rest.1, rest.2));
    (stop, rest.0, rest.1, rest.2)
}

/// What a restart has done.
#[verifier::rlimit(40)]
proof fn lemma_restart_deeds(
    t: Transcript,
    target: RestartTarget,
    paths: AppPathsView,
    looks: bool,
)
    requires
        target.repository == paths.repository,
        target.config == paths.config,
    ensures
        ({
            let run = restart::restart_run(t, target).run;
            let since = done_since(t, run.after, looks);
            &&& run.done() ==> goes_on(t, run.after, looks)
            &&& run.done() && looks ==> restarts(since, paths, target.unit, target.as_root)
            &&& run.done() && !looks ==> restarts_unseen(
                since,
                paths,
                target.unit,
                target.as_root,
            )
        }),
{
    let run = restart::restart_run(t, target).run;
    if run.done() {
        let checked = configure::prerequisites_run(t, paths.repository, paths.config);
        lemma_prerequisites_deeds(t, paths, looks);
        let begun = checked.after.note(restart::restarting_event());
        lemma_note_deeds(checked.after, restart::restarting_event(), looks);
        let parts = lemma_stop_segment_deeds(begun.after, target, paths, looks);
        let since = done_since(t, run.after, looks);
        assert(since == in_segments(parts.0, parts.1, parts.2, parts.3));
    }
}

/// A restart command that completes has stopped the unit and seen it inactive, has configured the host
/// twice, the second time with success, and has then started the unit and seen it active last.
pub proof fn law_restart_ends_with_an_active_unit(
    t: Transcript,
    cli: Cli,
    paths: AppPathsView,
    root: bool,
)
    requires
        cli.command is RestartFiredancer,
    ensures
        ({
            let run = dispatch::dispatch_run(t, cli, paths, root);
            let since = done_since(t, run.after, true);
            run.done() ==> {
                &&& goes_on(t, run.after, true)
                &&& restarts(since, paths, cli.service@, root)
                &&& saw(since.last(), cli.service@, ServiceStateView::Active)
            }
        }),
{
    assert(dispatch::dispatch_run(t, cli, paths, root) == restart::restart_run(
        t,
        dispatch::target(cli, paths, root),
    ).run) by {
        reveal(dispatch::dispatch_run);
    }
    lemma_restart_deeds(t, dispatch::target(cli, paths, root), paths, true);
    let run = dispatch::dispatch_run(t, cli, paths, root);
    if run.done() {
        let since = done_since(t, run.after, true);
        let (stop, first, second, start) = choose|
            stop: Seq<Deed>,
            first: Seq<Deed>,
            second: Deed,
            start: Seq<Deed>,
        |
            {
                &&& since == #[trigger] in_segments(stop, first, second, start)
                &&& stops(stop, cli.service@, root)
                &&& may_configure(first, paths)
                &&& configured(second, paths) && succeeded(second)
                &&& starts(start, cli.service@, root)
            };
        assert(since.last() == start.last());
    }
}

/// Reporting does nothing.
proof fn lemma_told_deeds(t: Transcript, requests: Seq<RequestView>)
    requires
        forall|i: int| 0 <= i < requests.len() ==> !acts(#[trigger] requests[i], false),
    ensures
        deeds(update_full::told_run(t, requests).after, false) == deeds(t, false),
    decreases requests.len(),
{
    broadcast use lemma_deeds_ask;

    if requests.len() > 0 {
        let first = t.tell(requests[0]);
        lemma_told_deeds(first.after, requests.drop_first());
    }
}

/// Whether deeds updated, built, restarted, and waited, in this order.
pub open spec fn updates_fully(
    done: Seq<Deed>,
    paths: AppPathsView,
    unit: Seq<char>,
    root: bool,
    url: Seq<char>,
) -> bool {
    exists|updated: Seq<Deed>, commit: Seq<char>, built: Seq<Deed>, restarted: Seq<Deed>, ready: Deed|
        {
            &&& done == #[trigger] in_segments(updated, built + restarted, ready, Seq::empty())
            &&& #[trigger] updates(updated, paths.repository, commit)
            &&& repository::is_commit_id(commit)
            &&& #[trigger] builds(built, paths.repository)
            &&& #[trigger] restarts_unseen(restarted, paths, unit, root)
            &&& ready.request == RequestView::AwaitRunning(url)
            &&& completed(ready)
        }
}

/// What the update of a full update has done.
#[verifier::rlimit(40)]
proof fn lemma_checkout_deeds(t: Transcript, plan: UpdatePlan) -> (parts: (Seq<Deed>, Seq<char>))
    ensures
        ({
            let run = update_full::checkout_stage_run(t, plan);
            run.done() ==> {
                &&& deeds(run.after, false) == deeds(t, false) + parts.0
                &&& updates(parts.0, plan.paths.repository, parts.1)
                &&& repository::is_commit_id(parts.1)
            }
        }),
{
    let repository = plan.paths.repository;
    let begun = update_full::told_run(t, plan.reporter().begin());
    lemma_told_deeds(t, plan.reporter().begin());
    let updated = repository::update_run(begun.after, repository, plan.git_ref);
    lemma_update_deeds(begun.after, repository, plan.git_ref);
    lemma_told_deeds(updated.after, plan.reporter().finish("done"@));
    let since = done_since(begun.after, updated.after, false);
    if updated.done() {
        assert(deeds(updated.after, false) == deeds(t, false) + since);
    }
    (since, repository::locate_run(begun.after, repository, plan.git_ref).value())
}

/// What the build of a full update has done.
#[verifier::rlimit(40)]
proof fn lemma_build_deeds(t: Transcript, plan: UpdatePlan) -> (built: Seq<Deed>)
    ensures
        ({
            let run = update_full::build_stage_run(t, plan);
            run.done() ==> {
                &&& deeds(run.after, false) == deeds(t, false) + built
                &&& builds(built, plan.paths.repository)
            }
        }),
{
    let repository = plan.paths.repository;
    let entering = plan.reporter().stage("[2/3] Build Firedancer"@);
    let entered = update_full::told_run(t, entering);
    lemma_told_deeds(t, entering);
    let made = repository::make_run(entered.after, repository);
    lemma_make_deeds(entered.after, repository);
    lemma_told_deeds(
        made.after,
        plan.reporter().finish(
            "done ("@ + progress::duration_text((made.value() / 1_000_000_000) as u64) + ")"@,
        ),
    );
    let since = done_since(entered.after, made.after, false);
    if made.done() {
        assert(deeds(made.after, false) == deeds(t, false) + since);
    }
    since
}

/// What the update and the build of a full update have done.
proof fn lemma_prepared_deeds(t: Transcript, plan: UpdatePlan) -> (parts: (
    Seq<Deed>,
    Seq<char>,
    Seq<Deed>,
))
    ensures
        ({
            let run = update_full::prepared_run(t, plan);
            run.done() ==> {
                &&& deeds(run.after, false) == deeds(t, false) + (parts.0 + parts.2)
                &&& updates(parts.0, plan.paths.repository, parts.1)
                &&& repository::is_commit_id(parts.1)
                &&& builds(parts.2, plan.paths.repository)
            }
        }),
{
    let begun = t.now();
    lemma_now_deeds(t);
    let checked_out = update_full::checkout_stage_run(begun.after, plan);
    let (updated, commit) = lemma_checkout_deeds(begun.after, plan);
    let built = lemma_build_deeds(checked_out.after, plan);
    assert(deeds(t, false) + updated + built == deeds(t, false) + (updated + built));
    (updated, commit, built)
}

/// What the wait for readiness has done.
proof fn lemma_readiness_deeds(
    t: Transcript,
    plan: UpdatePlan,
    started: u64,
    build_nanos: u64,
    final_state: Seq<char>,
) -> (ready: Deed)
    ensures
        ({
            let run = update_full::readiness_run(t, plan, started, build_nanos, final_state);
            run.done() ==> {
                &&& deeds(run.after, false) == deeds(t, false).push(ready)
                &&& awaited(ready, monitor::url_run(t, plan.paths.config).value())
            }
        }),
{
    let waited = monitor::wait_run(t, plan.paths.config);
    lemma_wait_deeds(t, plan.paths.config);
    let ended = waited.after.now();
    lemma_now_deeds(waited.after);
    let success = plan.reporter().print(
        plan.reporter().success_lines(
            repository::elapsed(started, ended.value()),
            build_nanos,
            final_state,
        ),
    );
    lemma_told_deeds(ended.after, success);
    deeds(waited.after, false).last()
}

/// Reading the clock does nothing.
proof fn lemma_now_deeds(t: Transcript)
    ensures
        deeds(t.now().after, false) == deeds(t, false),
{
    broadcast use lemma_deeds_ask;

}

/// What a wait has done.
proof fn lemma_wait_deeds(t: Transcript, config: Seq<char>)
    ensures
        ({
            let run = monitor::wait_run(t, config);
            let last = deeds(run.after, false).last();
            run.done() ==> deeds(run.after, false) == deeds(t, false).push(last) && awaited(
                last,
                monitor::url_run(t, config).value(),
            )
        }),
{
    broadcast use lemma_deeds_ask;

    let found = monitor::url_run(t, config);
    assert(deeds(found.after, false) == deeds(t, false));
}

/// What follows a completed restart has only waited.
#[verifier::rlimit(40)]
proof fn lemma_after_restart_deeds(
    t: Transcript,
    plan: UpdatePlan,
    reports: Seq<RestartReport>,
    started: u64,
    build_nanos: u64,
) -> (parts: (Deed, Seq<char>))
    ensures
        ({
            let read = update_full::tried_state_run(t, plan.unit);
            let segments = RestartProgressView::begun(plan.compact).after_reports(
                reports,
            ).completed(RestartPhase::Start).finalized(read.value());
            let told = update_full::told_run(
                read.after,
                plan.reporter().finish("done"@) + plan.reporter().print(
                    segments.lines() + seq!["Wait for validator"@],
                ),
            );
            let run = update_full::readiness_run(
                told.after,
                plan,
                started,
                build_nanos,
                segments.final_state,
            );
            run.done() ==> {
                &&& deeds(run.after, false) == deeds(t, false).push(parts.0)
                &&& awaited(parts.0, parts.1)
            }
        }),
{
    let read = update_full::tried_state_run(t, plan.unit);
    lemma_state_deeds(t, plan.unit);
    let segments = RestartProgressView::begun(plan.compact).after_reports(reports).completed(
        RestartPhase::Start,
    ).finalized(read.value());
    let telling = plan.reporter().finish("done"@) + plan.reporter().print(
        segments.lines() + seq!["Wait for validator"@],
    );
    let told = update_full::told_run(read.after, telling);
    lemma_told_deeds(read.after, telling);
    let ready = lemma_readiness_deeds(
        told.after,
        plan,
        started,
        build_nanos,
        segments.final_state,
    );
    (ready, monitor::url_run(told.after, plan.paths.config).value())
}

/// What the restart of a full update and the wait after it have done.
#[verifier::rlimit(40)]
#[verifier::spinoff_prover]
proof fn lemma_restarted_deeds(
    t: Transcript,
    plan: UpdatePlan,
    started: u64,
    build_nanos: u64,
) -> (parts: (Seq<Deed>, Deed, Seq<char>))
    ensures
        ({
            let run = update_full::restart_stage_run(t, plan, started, build_nanos);
            run.done() ==> {
                &&& deeds(run.after, false) == deeds(t, false) + parts.0.push(parts.1)
                &&& restarts_unseen(parts.0, plan.paths, plan.unit, plan.as_root)
                &&& awaited(parts.1, parts.2)
            }
        }),
{
    let run = update_full::restart_stage_run(t, plan, started, build_nanos);
    let entering = plan.reporter().stage("[3/3] Restart service"@);
    let begun = update_full::told_run(t, entering);
    lemma_told_deeds(t, entering);
    let restarted = restart::restart_run(begun.after, plan.restart_target());
    lemma_restart_deeds(begun.after, plan.restart_target(), plan.paths, false);
    let (ready, url) = lemma_after_restart_deeds(
        restarted.run.after,
        plan,
        restarted.reports,
        started,
        build_nanos,
    );
    let first = done_since(begun.after, restarted.run.after, false);
    if run.done() {
        assert(deeds(restarted.run.after, false) == deeds(t, false) + first);
        assert((deeds(t, false) + first).push(ready) == deeds(t, false) + first.push(ready));
    }
    (first, ready, url)
}

/// Whether a deed waited for the validator to run, and it does.
pub open spec fn awaited(deed: Deed, url: Seq<char>) -> bool {
    deed.request == RequestView::AwaitRunning(url) && completed(deed)
}

/// Where a full update begins and ends.
#[verifier::rlimit(40)]
proof fn lemma_update_full_begins(t: Transcript, plan: UpdatePlan) -> (start: Transcript)
    ensures
        update_full::update_full_run(t, plan).done() ==> {
            let whole = update_full::update_stage_run(start, plan);
            &&& whole.done()
            &&& deeds(start, false) == deeds(t, false)
            &&& deeds(update_full::update_full_run(t, plan).after, false) == deeds(
                whole.after,
                false,
            )
        },
{
    let checked = monitor::validate_run(t, plan.paths.config);
    lemma_url_deeds(t, plan.paths.config);
    if plan.compact {
        let start = checked.after.ask(RequestView::CompactOutput(true));
        lemma_deeds_ask(checked.after, RequestView::CompactOutput(true), false);
        let whole = update_full::update_stage_run(start, plan);
        lemma_deeds_ask(whole.after, RequestView::CompactOutput(false), false);
        start
    } else {
        checked.after
    }
}

/// Reading the configuration does nothing.
proof fn lemma_url_deeds(t: Transcript, config: Seq<char>)
    ensures
        deeds(monitor::url_run(t, config).after, false) == deeds(t, false),
{
    broadcast use lemma_deeds_ask;

}

/// What a full update has done once its configuration was checked.
#[verifier::rlimit(40)]
proof fn lemma_update_stage_deeds(t: Transcript, plan: UpdatePlan) -> (url: Seq<char>)
    ensures
        ({
            let run = update_full::update_stage_run(t, plan);
            run.done() ==> goes_on(t, run.after, false) && updates_fully(
                done_since(t, run.after, false),
                plan.paths,
                plan.unit,
                plan.as_root,
                url,
            )
        }),
{
    let prepared = update_full::prepared_run(t, plan);
    let (updated, commit, built) = lemma_prepared_deeds(t, plan);
    let run = update_full::restart_stage_run(
        prepared.after,
        plan,
        prepared.value().0,
        prepared.value().1,
    );
    let (restarted, ready, url) = lemma_restarted_deeds(
        prepared.after,
        plan,
        prepared.value().0,
        prepared.value().1,
    );
    if prepared.done() && run.done() {
        lemma_parts_make_an_update(
            deeds(t, false),
            deeds(run.after, false),
            plan,
            updated,
            commit,
            built,
            restarted,
            ready,
            url,
        );
    }
    url
}

/// Deeds that follow each other make a full update.
proof fn lemma_parts_make_an_update(
    earlier: Seq<Deed>,
    later: Seq<Deed>,
    plan: UpdatePlan,
    updated: Seq<Deed>,
    commit: Seq<char>,
    built: Seq<Deed>,
    restarted: Seq<Deed>,
    ready: Deed,
    url: Seq<char>,
)
    requires
        later == earlier + (updated + built) + restarted.push(ready),
        updates(updated, plan.paths.repository, commit),
        repository::is_commit_id(commit),
        builds(built, plan.paths.repository),
        restarts_unseen(restarted, plan.paths, plan.unit, plan.as_root),
        awaited(ready, url),
    ensures
        earlier.is_prefix_of(later),
        updates_fully(
            later.skip(earlier.len() as int),
            plan.paths,
            plan.unit,
            plan.as_root,
            url,
        ),
{
    let since = later.skip(earlier.len() as int);
    assert(since == in_segments(updated, built + restarted, ready, Seq::empty()));
}

/// What a full update has done.
proof fn lemma_update_full_deeds(t: Transcript, plan: UpdatePlan) -> (url: Seq<char>)
    ensures
        ({
            let run = update_full::update_full_run(t, plan);
            run.done() ==> goes_on(t, run.after, false) && updates_fully(
                done_since(t, run.after, false),
                plan.paths,
                plan.unit,
                plan.as_root,
                url,
            )
        }),
{
    let start = lemma_update_full_begins(t, plan);
    lemma_update_stage_deeds(start, plan)
}

/// A full update that completes has updated the checkout to a commit, then built it afresh, then
/// restarted the service, and then waited until the validator was running, and has done nothing else.
pub proof fn law_full_update_ends_with_a_running_validator(
    t: Transcript,
    cli: Cli,
    paths: AppPathsView,
    root: bool,
)
    requires
        cli.command is UpdateFull,
    ensures
        ({
            let run = dispatch::dispatch_run(t, cli, paths, root);
            let since = done_since(t, run.after, false);
            run.done() ==> goes_on(t, run.after, false) && exists|url: Seq<char>| #[trigger]
                updates_fully(since, paths, cli.service@, root, url)
        }),
{
    let git_ref = cli.command->UpdateFull_git_ref@;
    let plan = dispatch::full_plan(cli, paths, root, git_ref);
    assert(dispatch::dispatch_run(t, cli, paths, root) == update_full::update_full_run(t, plan)) by {
        reveal(dispatch::dispatch_run);
    }
    let url = lemma_update_full_deeds(t, plan);
    let run = dispatch::dispatch_run(t, cli, paths, root);
    if run.done() {
        assert(updates_fully(done_since(t, run.after, false), paths, cli.service@, root, url));
    }
}

/// A command is logged under its name when it starts and when it ends, with its error if it fails, and
/// it ends as the command does. The log of its end is the last thing that is asked for.
pub proof fn law_commands_are_logged(t: Transcript, cli: Cli, paths: AppPathsView, root: bool)
    requires
        t.asked.len() < t.replies.len(),
    ensures
        ({
            let run = dispatch::logged_run(t, cli, paths, root);
            let name = FieldView {
                name: "command"@,
                value: FieldValueView::Text(cli.command.called()),
            };
            run.after.asked[t.asked.len() as int] matches RequestView::Log(event) && {
                &&& event.level is Info
                &&& event.message == "val command started"@
                &&& event.fields.len() == 2
                &&& event.fields[0] == name
                &&& event.fields[1].value == FieldValueView::Shown(paths.base)
            }
        }),
        ({
            let started = t.note(dispatch::started_event(cli.command.called(), paths.base));
            let run = dispatch::logged_run(t, cli, paths, root);
            let ran = dispatch::dispatch_run(started.after, cli, paths, root);
            let name = FieldView {
                name: "command"@,
                value: FieldValueView::Text(cli.command.called()),
            };
            &&& run.done() ==> ran.done()
            &&& run.end matches End::Failed(message) ==> ran.end == End::<()>::Failed(message)
            &&& ran.done() ==> (run.after.asked.last() matches RequestView::Log(event) && {
                &&& event.level is Info
                &&& event.message == "val command completed"@
                &&& event.fields.len() == 1
                &&& event.fields[0] == name
            }) && run.after.asked.len() == ran.after.asked.len() + 1
            &&& ran.end matches End::Failed(message) ==> (run.after.asked.last() matches
                RequestView::Log(event) && {
                &&& event.level is Error
                &&& event.message == "val command failed"@
                &&& event.fields.len() == 2
                &&& event.fields[0] == name
                &&& event.fields[1].value == FieldValueView::Shown(message)
            }) && run.after.asked.len() == ran.after.asked.len() + 1
        }),
{
    let started = t.note(dispatch::started_event(cli.command.called(), paths.base));
    let ran = dispatch::dispatch_run(started.after, cli, paths, root);
    replay::lemma_dispatch_starts(started.after, cli, paths, root);
    reveal(Transcript::continues);
    let run = dispatch::logged_run(t, cli, paths, root);
    assert(started.after.asked.is_prefix_of(ran.after.asked));
    assert(ran.after.asked[t.asked.len() as int] == started.after.asked[t.asked.len() as int]);
    assert(run.after.asked[t.asked.len() as int] == started.after.asked[t.asked.len() as int]);
}

/// A command ends as the procedure behind it does: it fails exactly when that fails, with the same error,
/// and waits exactly when that waits.
pub proof fn law_commands_end_as_their_procedures(
    t: Transcript,
    cli: Cli,
    paths: AppPathsView,
    root: bool,
    message: Seq<char>,
)
    ensures
        ({
            let run = dispatch::dispatch_run(t, cli, paths, root);
            let failed = run.end == End::<()>::Failed(message);
            let unit = cli.service@;
            let built = repository::make_run(t, paths.repository);
            let started = service::start_run(t, unit, root);
            let stopped = service::stop_run(t, unit, root);
            let configured = configure::configure_run(t, paths.repository, paths.config);
            &&& cli.command is MakeFiredancer ==> (run.done() <==> built.done()) && (failed
                <==> built.end == End::<u64>::Failed(message))
            &&& cli.command is StartFiredancer ==> (run.done() <==> started.done()) && (failed
                <==> started.end == End::<bool>::Failed(message))
            &&& cli.command is StopFiredancer ==> (run.done() <==> stopped.done()) && (failed
                <==> stopped.end == End::<bool>::Failed(message))
            &&& cli.command is ConfigureFiredancer ==> run == configured
            &&& cli.command matches Commands::UpdateFiredancer { git_ref } ==> run
                == repository::update_run(t, paths.repository, git_ref@)
            &&& cli.command is RestartFiredancer ==> run == restart::restart_run(
                t,
                dispatch::target(cli, paths, root),
            ).run
            &&& cli.command matches Commands::UpdateFull { git_ref } ==> run
                == update_full::update_full_run(t, dispatch::full_plan(cli, paths, root, git_ref@))
            &&& cli.command matches Commands::Status { json } ==> run == dispatch::status_run(
                t,
                paths,
                unit,
                root,
                json,
            )
            &&& cli.command matches Commands::Monitor { all, url } ==> run == monitor::monitor_run(
                t,
                paths.config,
                process::maybe_text(url),
                all,
            )
        }),
{
    reveal(dispatch::dispatch_run);
}

/// A status command fails only if the unit, the versions, or the report cannot be read, or if the report
/// cannot be shown.
pub proof fn law_status_fails_only_for_a_reason(
    t: Transcript,
    paths: AppPathsView,
    unit: Seq<char>,
    root: bool,
    json: bool,
)
    requires
        dispatch::status_run(t, paths, unit, root, json).end is Failed,
    ensures
        ({
            let state = service::state_run(t, unit);
            let running = service::running_version_run(state.after, unit, root);
            let built = repository::built_version_run(running.after, paths.repository);
            let facts = status::ServiceFacts {
                state: state.value(),
                running: running.value(),
                built: built.value(),
            };
            let report = status::collect_run(built.after, paths, facts);
            ||| state.end is Failed
            ||| running.end is Failed
            ||| built.end is Failed
            ||| report.end is Failed
            ||| report.after.reply() is Some && !(report.after.reply()->0 is Done)
        }),
{
}

} // verus!
