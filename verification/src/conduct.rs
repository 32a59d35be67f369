//! What procedures do and what they never do, whatever the replies say.

use vstd::prelude::*;

use crate::cli::{Cli, Commands, PathOptions};
use crate::configure;
use crate::dispatch;
use crate::lock;
use crate::logging::Level;
use crate::monitor;
use crate::paths;
use crate::paths::AppPathsView;
use crate::privilege;
use crate::process;
use crate::process::CommandSpecView;
use crate::progress;
use crate::repository;
use crate::repository::StageView;
use crate::restart;
use crate::restart::{RestartPhase, RestartReport, RestartTarget};
use crate::service;
use crate::service::ServiceStateView;
use crate::session::{End, ReplyView, RequestView, Run, Transcript};
use crate::text;
use crate::update_full;
use crate::update_full::{ProgressReporterView, RestartProgressView, UpdatePlan};

verus! {

/// The command that a request runs, if it runs one.
pub open spec fn command_of(request: RequestView) -> Option<CommandSpecView> {
    match request {
        RequestView::Capture(command)
        | RequestView::Streaming(command)
        | RequestView::Interactive(command)
        | RequestView::Replace(command) => Some(command),
        _ => None,
    }
}

/// A limit on the requests of a procedure.
pub ghost enum Limit {
    /// Paths are looked at.
    Looks,
    /// Files are read and configurations are parsed.
    Reads,
    /// Users, paths, and the command lock are found out about, the process may be replaced, and an
    /// error may be printed.
    Preliminary,
    /// Paths are looked at, git is asked for revisions, a checkout's origin is fetched, and events
    /// are logged.
    Lookups(Seq<char>),
    /// Of all directories, only a checkout's build directory is removed, and of all commands, only
    /// git and make run, apart from the terminal.
    Build(Seq<char>),
    /// Of all commands, only git, make, and a checkout's dependency installer run, apart from the
    /// terminal.
    Background(Seq<char>),
    /// A command does not run.
    Without(CommandSpecView),
    /// No command runs.
    Idle,
}

impl Limit {
    /// Whether a request stays within the limit.
    pub open spec fn allows(self, request: RequestView) -> bool {
        match self {
            Limit::Looks => request is Inspect,
            Limit::Reads => request is ReadText || request is ParseGui,
            Limit::Preliminary => {
                ||| request is Variable
                ||| request is WorkingDirectory
                ||| request is EffectiveAccount
                ||| request is NamedAccount
                ||| request is Executable
                ||| request is Replace
                ||| request is Inspect
                ||| request is OpenLock
                ||| request is SecureLock
                ||| request is TryLock
                ||| request is Complain
            },
            Limit::Lookups(repository) => {
                ||| request is Inspect
                ||| request matches RequestView::Capture(command) && command.program == "git"@
                    && command.args.len() > 0 && command.args[0] == "rev-parse"@
                ||| request == RequestView::Streaming(repository::fetch_command(repository))
                ||| request is Log
            },
            Limit::Build(repository) => {
                &&& !(request is Interactive)
                &&& command_of(request) matches Some(command) ==> command.program == "git"@
                    || command.program == "make"@
                &&& request is RemoveTree ==> request == RequestView::RemoveTree(
                    process::path_in(repository, "build"@),
                )
            },
            Limit::Background(repository) => {
                &&& !(request is Interactive)
                &&& command_of(request) matches Some(command) ==> command.program == "git"@
                    || command.program == "make"@ || command.program == repository::deps_path(
                    repository,
                )
            },
            Limit::Without(command) => command_of(request) != Some(command),
            Limit::Idle => command_of(request) is None,
        }
    }

    /// Brings the limit to the solver's attention.
    spec fn applies(self) -> bool {
        true
    }
}

/// Whether a transcript goes on from an earlier one by requests within a limit.
#[verifier::opaque]
pub open spec fn within(limit: Limit, earlier: Transcript, later: Transcript) -> bool {
    &&& earlier.asked.is_prefix_of(later.asked)
    &&& forall|i: int|
        earlier.asked.len() <= i < later.asked.len() ==> limit.allows(#[trigger] later.asked[i])
}

/// No request at all.
broadcast proof fn lemma_within_itself(limit: Limit, t: Transcript)
    ensures
        #[trigger] within(limit, t, t),
{
    reveal(within);
}

/// One request.
broadcast proof fn lemma_within_ask(limit: Limit, t: Transcript, request: RequestView)
    requires
        #[trigger] limit.applies(),
        limit.allows(request),
    ensures
        within(limit, t, #[trigger] t.ask(request)),
{
    reveal(within);
}

/// Requests one after the other.
broadcast proof fn lemma_within_through(
    limit: Limit,
    first: Transcript,
    second: Transcript,
    third: Transcript,
)
    requires
        #[trigger] within(limit, first, second),
        #[trigger] within(limit, second, third),
    ensures
        within(limit, first, third),
{
    reveal(within);
    assert forall|i: int| first.asked.len() <= i < third.asked.len() implies limit.allows(
        #[trigger] third.asked[i],
    ) by {
        if i < second.asked.len() {
            assert(third.asked[i] == second.asked[i]);
        }
    }
}

broadcast group group_within {
    lemma_within_itself,
    lemma_within_ask,
    lemma_within_through,
}

/// A narrower limit is a wider one.
proof fn lemma_within_wider(narrow: Limit, wide: Limit, earlier: Transcript, later: Transcript)
    requires
        within(narrow, earlier, later),
        forall|request: RequestView|
            #![trigger narrow.allows(request)]
            narrow.allows(request) ==> wide.allows(request),
    ensures
        within(wide, earlier, later),
{
    reveal(within);
}

/// Resolving a ref only looks things up.
proof fn lemma_resolve_looks_up(
    t: Transcript,
    repository: Seq<char>,
    git_ref: Seq<char>,
    revisions: Seq<Seq<char>>,
)
    ensures
        within(
            Limit::Lookups(repository),
            t,
            repository::resolve_run(t, repository, git_ref, revisions).after,
        ),
    decreases revisions.len(),
{
    broadcast use group_within;

    assert(Limit::Lookups(repository).applies());
    if revisions.len() > 0 {
        let found = t.outcome(
            RequestView::Capture(repository::resolve_command(revisions[0], repository)),
        );
        lemma_resolve_looks_up(found.after, repository, git_ref, revisions.drop_first());
    }
}

/// Locating a ref only looks things up.
proof fn lemma_locate_looks_up(t: Transcript, repository: Seq<char>, git_ref: Seq<char>)
    ensures
        within(
            Limit::Lookups(repository),
            t,
            repository::locate_run(t, repository, git_ref).after,
        ),
{
    broadcast use group_within;

    assert(Limit::Lookups(repository).applies());
    let checked = repository::repository_run(t, repository);
    assert(within(Limit::Lookups(repository), t, checked.after));
    let begun = checked.after.note(repository::fetch_event(repository, git_ref));
    let fetched = begun.after.required(
        RequestView::Streaming(repository::fetch_command(repository)),
        "git fetch"@,
    );
    lemma_resolve_looks_up(
        fetched.after,
        repository,
        git_ref,
        repository::candidates(git_ref),
    );
}

/// A ref that cannot be located leaves the checkout as it is: apart from fetching the origin, an
/// update only looks things up until the ref is resolved.
pub proof fn law_missing_ref_discards_nothing(
    t: Transcript,
    repository: Seq<char>,
    git_ref: Seq<char>,
)
    ensures
        !repository::locate_run(t, repository, git_ref).done() ==> within(
            Limit::Lookups(repository),
            t,
            repository::update_run(t, repository, git_ref).after,
        ),
{
    lemma_locate_looks_up(t, repository, git_ref);
}

/// Running stages of git stays in the background.
proof fn lemma_stages_in_background(t: Transcript, repository: Seq<char>, stages: Seq<StageView>)
    requires
        forall|i: int| 0 <= i < stages.len() ==> (#[trigger] stages[i]).command.program == "git"@,
    ensures
        within(Limit::Background(repository), t, repository::stages_run(t, stages).after),
    decreases stages.len(),
{
    broadcast use group_within;

    assert(Limit::Background(repository).applies());
    if stages.len() > 0 {
        let first = t.required(
            RequestView::Streaming(stages[0].command),
            stages[0].description,
        );
        lemma_stages_in_background(first.after, repository, stages.drop_first());
    }
}

/// Discarding leftovers stays in the background.
proof fn lemma_reset_in_background(t: Transcript, repository: Seq<char>)
    ensures
        within(Limit::Background(repository), t, repository::reset_run(t, repository).after),
{
    broadcast use group_within;

    assert(Limit::Background(repository).applies());
    let status = repository::worktree_status_run(t, repository);
    let warned = status.after.note(repository::leftovers_event(status.value()));
    lemma_stages_in_background(
        warned.after,
        repository,
        repository::discard_stages(repository),
    );
}

/// Moving to a commit stays in the background.
proof fn lemma_move_in_background(t: Transcript, repository: Seq<char>, commit: Seq<char>)
    ensures
        within(Limit::Background(repository), t, repository::move_run(t, repository, commit).after),
{
    broadcast use group_within;

    assert(Limit::Background(repository).applies());
    let head = t.outcome(RequestView::Capture(repository::head_command(repository)));
    let noted = if head.value().success && text::trimmed(head.value().stdout) == commit {
        head.after.note(repository::current_event(commit))
    } else {
        head.with(())
    };
    let reset = repository::reset_run(noted.after, repository);
    lemma_reset_in_background(noted.after, repository);
    lemma_stages_in_background(
        reset.after,
        repository,
        repository::checkout_stages(repository, commit),
    );
}

/// Leftover changes are logged before anything is discarded: the first request after a checkout's
/// status has been listed is the warning that names them.
pub proof fn law_leftovers_are_logged_first(t: Transcript, repository: Seq<char>)
    ensures
        repository::reset_run(t, repository).after.asked.len() > t.asked.len() + 1
            ==> repository::reset_run(t, repository).after.asked[t.asked.len() as int + 1]
            == RequestView::Log(
            repository::leftovers_event(repository::worktree_status_run(t, repository).value()),
        ),
{
    broadcast use group_within;

    assert(Limit::Background(repository).applies());
    let status = repository::worktree_status_run(t, repository);
    let warned = status.after.note(repository::leftovers_event(status.value()));
    let after = repository::reset_run(t, repository).after;
    lemma_stages_in_background(
        warned.after,
        repository,
        repository::discard_stages(repository),
    );
    if after.asked.len() > t.asked.len() + 1 {
        assert(within(Limit::Background(repository), warned.after, after));
        reveal(within);
        let place = t.asked.len() as int + 1;
        assert(after.asked[place] == warned.after.asked[place]);
    }
}

/// A submodule that cannot be cleaned up does not end an update: whatever the command's outcome,
/// the update goes on, and a failure is logged.
pub proof fn law_submodule_cleanup_may_fail(t: Transcript, stage: StageView)
    requires
        t.reply() matches Some(ReplyView::Outcome(_)),
    ensures
        !(repository::tolerated_run(t, stage).end is Failed),
        t.reply() matches Some(ReplyView::Outcome(outcome)) && !outcome.success
            ==> repository::tolerated_run(t, stage).after.asked.last() is Log,
{
}

/// Updating stays in the background.
proof fn lemma_update_in_background(t: Transcript, repository: Seq<char>, git_ref: Seq<char>)
    ensures
        within(
            Limit::Background(repository),
            t,
            repository::update_run(t, repository, git_ref).after,
        ),
{
    broadcast use group_within;

    assert(Limit::Background(repository).applies());
    let located = repository::locate_run(t, repository, git_ref);
    lemma_locate_looks_up(t, repository, git_ref);
    lemma_within_wider(
        Limit::Lookups(repository),
        Limit::Background(repository),
        t,
        located.after,
    );
    lemma_move_in_background(located.after, repository, located.value());
}

/// Building removes the build directory and no other one, and touches no service.
pub proof fn law_build_removes_the_build_directory_only(t: Transcript, repository: Seq<char>)
    ensures
        within(Limit::Build(repository), t, repository::make_run(t, repository).after),
{
    broadcast use group_within;

    assert(Limit::Build(repository).applies());
}

/// Making requests that run no command.
proof fn lemma_told_in_background(
    t: Transcript,
    repository: Seq<char>,
    requests: Seq<RequestView>,
)
    requires
        forall|i: int| 0 <= i < requests.len() ==> command_of(#[trigger] requests[i]) is None,
    ensures
        within(Limit::Background(repository), t, update_full::told_run(t, requests).after),
    decreases requests.len(),
{
    broadcast use group_within;

    assert(Limit::Background(repository).applies());
    if requests.len() > 0 {
        let first = t.tell(requests[0]);
        lemma_told_in_background(first.after, repository, requests.drop_first());
    }
}

/// Reporting a failed stage stays in the background.
proof fn lemma_failed_stage_in_background(
    t: Transcript,
    repository: Seq<char>,
    reporter: ProgressReporterView,
    stage: Seq<char>,
    message: Seq<char>,
)
    ensures
        within(
            Limit::Background(repository),
            t,
            update_full::failed_stage_run(t, reporter, stage, message).after,
        ),
{
    broadcast use group_within;

    lemma_told_in_background(
        t,
        repository,
        reporter.finish("failed"@) + reporter.print(
            reporter.failure_lines(
                stage,
                message,
                update_full::ServiceImpact::Unchanged,
                Seq::empty(),
            ),
        ),
    );
}

/// Everything before the restart leaves the service alone.
proof fn lemma_prepared_in_background(t: Transcript, plan: UpdatePlan)
    ensures
        within(
            Limit::Background(plan.paths.repository),
            t,
            update_full::prepared_run(t, plan).after,
        ),
{
    broadcast use group_within;

    let repository = plan.paths.repository;
    assert(Limit::Background(repository).applies());
    let started = t.now();
    let begun = update_full::told_run(started.after, plan.reporter().begin());
    lemma_told_in_background(started.after, repository, plan.reporter().begin());
    let updated = repository::update_run(begun.after, plan.paths.repository, plan.git_ref);
    lemma_update_in_background(begun.after, plan.paths.repository, plan.git_ref);
    if let End::Failed(message) = updated.end {
        lemma_failed_stage_in_background(
            updated.after,
            repository,
            plan.reporter(),
            "update"@,
            message,
        );
    }
    lemma_told_in_background(updated.after, repository, plan.reporter().finish("done"@));
    let checked_out = update_full::checkout_stage_run(started.after, plan);
    assert(within(Limit::Background(repository), started.after, checked_out.after));
    let entering = plan.reporter().stage("[2/3] Build Firedancer"@);
    let entered = update_full::told_run(checked_out.after, entering);
    lemma_told_in_background(checked_out.after, repository, entering);
    let built = repository::make_run(entered.after, plan.paths.repository);
    law_build_removes_the_build_directory_only(entered.after, plan.paths.repository);
    lemma_within_wider(
        Limit::Build(plan.paths.repository),
        Limit::Background(repository),
        entered.after,
        built.after,
    );
    if let End::Failed(message) = built.end {
        lemma_failed_stage_in_background(
            built.after,
            repository,
            plan.reporter(),
            "build"@,
            message,
        );
    }
    lemma_told_in_background(
        built.after,
        repository,
        plan.reporter().finish(
            "done ("@ + progress::duration_text((built.value() / 1_000_000_000) as u64)
                + ")"@,
        ),
    );
    let build = update_full::build_stage_run(checked_out.after, plan);
    assert(within(Limit::Background(repository), checked_out.after, build.after));
}

/// Where a full update starts to change things: after the readiness source has been checked, and
/// with child output kept off the terminal if progress is compact.
pub open spec fn preparation_start(t: Transcript, plan: UpdatePlan) -> Transcript {
    let checked = monitor::validate_run(t, plan.paths.config);
    if plan.compact {
        checked.after.ask(RequestView::CompactOutput(true))
    } else {
        checked.after
    }
}

/// Any update or build failure ends a full update before it touches the service, and the service
/// keeps running until both have succeeded: up to then only git, make, and the dependency installer
/// have run.
pub proof fn law_failed_preparation_leaves_the_service(t: Transcript, plan: UpdatePlan)
    ensures
        within(
            Limit::Background(plan.paths.repository),
            t,
            update_full::prepared_run(preparation_start(t, plan), plan).after,
        ),
        !update_full::prepared_run(preparation_start(t, plan), plan).done() ==> within(
            Limit::Background(plan.paths.repository),
            t,
            update_full::update_full_run(t, plan).after,
        ),
{
    broadcast use group_within;

    assert(Limit::Background(plan.paths.repository).applies());
    let checked = monitor::validate_run(t, plan.paths.config);
    assert(within(Limit::Background(plan.paths.repository), t, checked.after));
    lemma_prepared_in_background(preparation_start(t, plan), plan);
}

/// A configuration that switches the GUI off, or that cannot be read, ends a full update before it
/// changes anything.
pub proof fn law_disabled_gui_changes_nothing(t: Transcript, plan: UpdatePlan)
    ensures
        !monitor::validate_run(t, plan.paths.config).done() ==> within(
            Limit::Reads,
            t,
            update_full::update_full_run(t, plan).after,
        ),
{
    broadcast use group_within;

    assert(Limit::Reads.applies());
}

/// A compact update that got past the check of its configuration and has ended lets child output
/// through again.
pub proof fn law_compact_output_is_restored(t: Transcript, plan: UpdatePlan)
    requires
        plan.compact,
        monitor::validate_run(t, plan.paths.config).done(),
    ensures
        !(update_full::update_full_run(t, plan).end is Waiting)
            ==> update_full::update_full_run(t, plan).after.asked.last()
            == RequestView::CompactOutput(false),
{
}

/// Prerequisites that do not hold leave the service untouched.
pub proof fn law_missing_prerequisites_leave_the_service(t: Transcript, target: RestartTarget)
    ensures
        !configure::prerequisites_run(t, target.repository, target.config).done() ==> within(
            Limit::Looks,
            t,
            restart::restart_run(t, target).run.after,
        ) && restart::restart_run(t, target).reports.len() == 0,
{
    broadcast use group_within;

    assert(Limit::Looks.applies());
}

/// The command that starts what a restart acts on.
pub open spec fn start_command(target: RestartTarget) -> CommandSpecView {
    service::action_command(target.unit, target.as_root, "start"@)
}

/// The command that stops what a restart acts on.
pub open spec fn stop_command(target: RestartTarget) -> CommandSpecView {
    service::action_command(target.unit, target.as_root, "stop"@)
}

/// The commands of a restart are different ones.
proof fn lemma_restart_commands_differ(target: RestartTarget)
    ensures
        start_command(target) != stop_command(target),
        start_command(target) != configure::configure_command(target.repository, target.config),
        stop_command(target) != configure::configure_command(target.repository, target.config),
        start_command(target) != service::show_state_command(target.unit),
        configure::configure_command(target.repository, target.config)
            != service::show_state_command(target.unit),
{
    reveal_strlit("sudo");
    reveal_strlit("systemctl");
    assert("sudo"@.len() != "systemctl"@.len());
    assert(service::show_state_command(target.unit).args.len() == 5);
    assert(target.as_root ==> start_command(target).args.len() == 3);
    reveal_strlit("start");
    reveal_strlit("stop");
    let place: int = if target.as_root {
        0
    } else {
        2
    };
    assert("start"@.len() != "stop"@.len());
    assert(start_command(target).args[place] == "start"@);
    assert(stop_command(target).args[place] == "stop"@);
    assert(start_command(target).cwd is None);
    assert(stop_command(target).cwd is None);
}

/// Where the second configure pass of a restart begins, if the restart gets there.
pub open spec fn second_pass_start(t: Transcript, target: RestartTarget) -> Transcript {
    let checked = configure::prerequisites_run(t, target.repository, target.config);
    let begun = checked.after.note(restart::restarting_event());
    let stopping = restart::announced(begun.after, "stop"@);
    let stopped = service::stop_run(stopping.after, target.unit, target.as_root);
    let entered = restart::announced(stopped.after, "configure 1/2"@);
    let first = configure::configure_run(entered.after, target.repository, target.config);
    let between = match first.end {
        End::Failed(message) => first.after.note(restart::retry_event(message)).after,
        _ => first.after,
    };
    restart::announced(between, "configure 2/2"@).after
}

/// Whether a segment of a restart was reported.
pub open spec fn reported(t: Transcript, target: RestartTarget, phase: RestartPhase) -> bool {
    restart::restart_run(t, target).reports.contains(RestartReport::Begun(phase))
}

/// The service is started only once the second configure pass has succeeded: before that, and
/// after its failure, nothing starts it.
pub proof fn law_start_follows_the_second_configure(t: Transcript, target: RestartTarget)
    ensures
        !reported(t, target, RestartPhase::Start) ==> within(
            Limit::Without(start_command(target)),
            t,
            restart::restart_run(t, target).run.after,
        ),
        reported(t, target, RestartPhase::Start) ==> configure::configure_run(
            second_pass_start(t, target),
            target.repository,
            target.config,
        ).done(),
{
    broadcast use group_within;

    let limit = Limit::Without(start_command(target));
    assert(limit.applies());
    lemma_restart_commands_differ(target);
    let checked = configure::prerequisites_run(t, target.repository, target.config);
    assert(within(limit, t, checked.after));
    let begun = checked.after.note(restart::restarting_event());
    let stopping = restart::announced(begun.after, "stop"@);
    let stopped = service::stop_run(stopping.after, target.unit, target.as_root);
    assert(within(limit, stopping.after, stopped.after));
    assert(within(limit, t, stopped.after));
    let entered = restart::announced(stopped.after, "configure 1/2"@);
    let configured = configure::configure_run(entered.after, target.repository, target.config);
    lemma_configure_without(entered.after, target);
    assert(within(limit, t, configured.after));
    let reports = seq![RestartReport::Begun(RestartPhase::Stop)].push(
        RestartReport::Begun(RestartPhase::ConfigureFirst),
    );
    lemma_second_configure_without(configured.after, target, reports);
    if let End::Failed(message) = configured.end {
        let warned = configured.after.note(restart::retry_event(message));
        assert(within(limit, t, warned.after));
        lemma_second_configure_without(
            warned.after,
            target,
            reports.push(RestartReport::ConfigureFirstFailed),
        );
    }
}

/// A configure pass starts nothing.
proof fn lemma_configure_without(t: Transcript, target: RestartTarget)
    ensures
        within(
            Limit::Without(start_command(target)),
            t,
            configure::configure_run(t, target.repository, target.config).after,
        ),
{
    broadcast use group_within;

    assert(Limit::Without(start_command(target)).applies());
    lemma_restart_commands_differ(target);
    let checked = configure::prerequisites_run(t, target.repository, target.config);
    assert(within(Limit::Without(start_command(target)), t, checked.after));
}

/// A second configure pass that does not succeed is followed by no start.
proof fn lemma_second_configure_without(
    t: Transcript,
    target: RestartTarget,
    earlier: Seq<RestartReport>,
)
    requires
        !earlier.contains(RestartReport::Begun(RestartPhase::Start)),
    ensures
        ({
            let entered = restart::announced(t, "configure 2/2"@);
            let result = restart::second_configure_segment(t, target, earlier);
            if result.reports.contains(RestartReport::Begun(RestartPhase::Start)) {
                configure::configure_run(entered.after, target.repository, target.config).done()
            } else {
                within(Limit::Without(start_command(target)), t, result.run.after)
            }
        }),
{
    broadcast use group_within;

    assert(Limit::Without(start_command(target)).applies());
    let entered = restart::announced(t, "configure 2/2"@);
    let configured = configure::configure_run(entered.after, target.repository, target.config);
    lemma_configure_without(entered.after, target);
    let known = earlier.push(RestartReport::Begun(RestartPhase::ConfigureSecond));
    let started = restart::start_segment(configured.after, target, known);
    let start = RestartReport::Begun(RestartPhase::Start);
    assert(started.reports[known.len() as int] == start);
    assert(started.reports.contains(start));
    assert(!known.contains(start));
}

/// What a restart reports, if its first configure pass succeeds.
pub open spec fn smooth_reports() -> Seq<RestartReport> {
    seq![
        RestartReport::Begun(RestartPhase::Stop),
        RestartReport::Begun(RestartPhase::ConfigureFirst),
        RestartReport::Begun(RestartPhase::ConfigureSecond),
        RestartReport::Begun(RestartPhase::Start),
    ]
}

/// What a restart reports, if its first configure pass fails.
pub open spec fn retried_reports() -> Seq<RestartReport> {
    seq![
        RestartReport::Begun(RestartPhase::Stop),
        RestartReport::Begun(RestartPhase::ConfigureFirst),
        RestartReport::ConfigureFirstFailed,
        RestartReport::Begun(RestartPhase::ConfigureSecond),
        RestartReport::Begun(RestartPhase::Start),
    ]
}

/// A restart reports its segments in order, up to where it has come. One that completes has
/// reported each of its four segments once, and only its first configure pass may have failed.
pub proof fn law_completed_restart_went_through_every_segment(t: Transcript, target: RestartTarget)
    ensures
        ({
            let reports = restart::restart_run(t, target).reports;
            &&& reports.is_prefix_of(smooth_reports()) || reports.is_prefix_of(retried_reports())
            &&& restart::restart_run(t, target).run.done() ==> reports == smooth_reports()
                || reports == retried_reports()
        }),
{
    let reports = restart::restart_run(t, target).reports;
    let stop = RestartReport::Begun(RestartPhase::Stop);
    let second = RestartReport::Begun(RestartPhase::ConfigureSecond);
    let start = RestartReport::Begun(RestartPhase::Start);
    let one = seq![stop];
    let two = one.push(RestartReport::Begun(RestartPhase::ConfigureFirst));
    let failed = two.push(RestartReport::ConfigureFirstFailed);
    assert(one == smooth_reports().take(1));
    assert(two == smooth_reports().take(2));
    assert(two.push(second) == smooth_reports().take(3));
    assert(two.push(second).push(start) == smooth_reports());
    assert(failed.push(second) == retried_reports().take(4));
    assert(failed.push(second).push(start) == retried_reports());
    assert(reports.len() == 0 || reports == one || reports == two || reports == two.push(second)
        || reports == two.push(second).push(start) || reports == failed.push(second) || reports
        == failed.push(second).push(start));
}

/// The commands that ran attached to the terminal, in order.
pub open spec fn attached(asked: Seq<RequestView>) -> Seq<CommandSpecView>
    decreases asked.len(),
{
    if asked.len() == 0 {
        Seq::empty()
    } else {
        match asked.last() {
            RequestView::Interactive(command) => attached(asked.drop_last()).push(command),
            _ => attached(asked.drop_last()),
        }
    }
}

/// One more request.
broadcast proof fn lemma_attached_ask(t: Transcript, request: RequestView)
    ensures
        attached((#[trigger] t.ask(request)).asked) == (match request {
            RequestView::Interactive(command) => attached(t.asked).push(command),
            _ => attached(t.asked),
        }),
{
    assert(t.ask(request).asked.drop_last() == t.asked);
}

/// A command that ran, or none.
pub open spec fn perhaps(ran: bool, command: CommandSpecView) -> Seq<CommandSpecView> {
    if ran {
        seq![command]
    } else {
        Seq::empty()
    }
}

/// What a stop ran.
proof fn lemma_stop_attached(t: Transcript, target: RestartTarget)
    ensures
        ({
            let run = service::stop_run(t, target.unit, target.as_root);
            let command = stop_command(target);
            &&& run.done() ==> attached(run.after.asked) == attached(t.asked) + perhaps(
                run.value(),
                command,
            )
            &&& exists|ran: bool|
                attached(run.after.asked) == attached(t.asked) + #[trigger] perhaps(ran, command)
        }),
{
    broadcast use lemma_attached_ask;

    let run = service::stop_run(t, target.unit, target.as_root);
    let command = stop_command(target);
    assert(attached(t.asked) + perhaps(false, command) == attached(t.asked));
    assert(attached(t.asked) + perhaps(true, command) == attached(t.asked).push(command));
    assert(attached(run.after.asked) == attached(t.asked) || attached(run.after.asked) == attached(
        t.asked,
    ).push(command));
}

/// What a start that succeeds ran.
proof fn lemma_start_attached(t: Transcript, target: RestartTarget)
    ensures
        ({
            let run = service::start_run(t, target.unit, target.as_root);
            run.done() ==> attached(run.after.asked) == attached(t.asked) + perhaps(
                run.value(),
                start_command(target),
            )
        }),
{
    broadcast use lemma_attached_ask;

    let run = service::start_run(t, target.unit, target.as_root);
    if run.done() && run.value() {
        assert(attached(run.after.asked) == attached(t.asked).push(start_command(target)));
    }
}

/// What a configure pass ran: its command, unless it failed before that.
proof fn lemma_configure_attached(t: Transcript, target: RestartTarget)
    ensures
        ({
            let run = configure::configure_run(t, target.repository, target.config);
            let command = configure::configure_command(target.repository, target.config);
            &&& run.done() ==> attached(run.after.asked) == attached(t.asked) + perhaps(
                true,
                command,
            )
            &&& exists|ran: bool|
                attached(run.after.asked) == attached(t.asked) + #[trigger] perhaps(ran, command)
        }),
{
    broadcast use lemma_attached_ask;

    let run = configure::configure_run(t, target.repository, target.config);
    let command = configure::configure_command(target.repository, target.config);
    let checked = configure::prerequisites_run(t, target.repository, target.config);
    assert(attached(checked.after.asked) == attached(t.asked));
    let begun = checked.after.note(configure::configuring_event(target.config));
    if checked.done() && begun.done() {
        assert(attached(run.after.asked) == attached(t.asked).push(command));
        assert(attached(run.after.asked) == attached(t.asked) + perhaps(true, command));
    } else {
        assert(attached(run.after.asked) == attached(t.asked) + perhaps(false, command));
    }
}

/// What a restart runs attached to the terminal before its second configure pass.
pub open spec fn passes(target: RestartTarget, stopped: bool, configured: bool) -> Seq<
    CommandSpecView,
> {
    perhaps(stopped, stop_command(target)) + perhaps(
        configured,
        configure::configure_command(target.repository, target.config),
    )
}

/// What a restart runs attached to the terminal: a stop, two configure passes, and a start.
pub open spec fn restart_commands(
    target: RestartTarget,
    stopped: bool,
    configured: bool,
    started: bool,
) -> Seq<CommandSpecView> {
    passes(target, stopped, configured) + seq![
        configure::configure_command(target.repository, target.config),
    ] + perhaps(started, start_command(target))
}

/// A restart that completes has run at most one stop command, then the configure command twice,
/// then at most one start command, and no other command attached to the terminal. Only a first
/// configure pass that failed may have failed before its command ran.
#[verifier::rlimit(40)]
pub proof fn law_completed_restart_stops_configures_and_starts(
    t: Transcript,
    target: RestartTarget,
)
    ensures
        restart::restart_run(t, target).run.done() ==> exists|
            stopped: bool,
            configured: bool,
            started: bool,
        |
            attached(restart::restart_run(t, target).run.after.asked) == attached(t.asked)
                + #[trigger] restart_commands(target, stopped, configured, started) && (
            restart::restart_run(t, target).reports == smooth_reports() ==> configured),
{
    broadcast use lemma_attached_ask;

    let command = configure::configure_command(target.repository, target.config);
    let result = restart::restart_run(t, target);
    if result.run.done() {
        law_completed_restart_went_through_every_segment(t, target);
        let checked = configure::prerequisites_run(t, target.repository, target.config);
        assert(attached(checked.after.asked) == attached(t.asked));
        let begun = checked.after.note(restart::restarting_event());
        let stopping = restart::announced(begun.after, "stop"@);
        let stop = service::stop_run(stopping.after, target.unit, target.as_root);
        lemma_stop_attached(stopping.after, target);
        let entered = restart::announced(stop.after, "configure 1/2"@);
        let first = configure::configure_run(entered.after, target.repository, target.config);
        lemma_configure_attached(entered.after, target);
        let configured = if first.done() {
            true
        } else {
            choose|ran: bool|
                attached(first.after.asked) == attached(entered.after.asked) + #[trigger] perhaps(
                    ran,
                    command,
                )
        };
        assert(attached(first.after.asked) == attached(entered.after.asked) + perhaps(
            configured,
            command,
        ));
        let between = match first.end {
            End::Failed(message) => first.after.note(restart::retry_event(message)).after,
            _ => first.after,
        };
        assert(attached(between.asked) == attached(first.after.asked));
        let again = restart::announced(between, "configure 2/2"@);
        let second = configure::configure_run(again.after, target.repository, target.config);
        lemma_configure_attached(again.after, target);
        let starting = restart::announced(second.after, "start"@);
        let start = service::start_run(starting.after, target.unit, target.as_root);
        lemma_start_attached(starting.after, target);
        assert(attached(result.run.after.asked) == attached(start.after.asked));
        assert(attached(start.after.asked) == attached(t.asked) + restart_commands(
            target,
            stop.value(),
            configured,
            start.value(),
        ));
    }
}

/// A segment is reported before it begins: no command runs before the stop is reported, none
/// configures before the first configure pass is, none configures again before the second one is,
/// and none starts the service before the start is.
#[verifier::rlimit(40)]
pub proof fn law_segments_are_reported_before_they_begin(t: Transcript, target: RestartTarget)
    ensures
        ({
            let after = restart::restart_run(t, target).run.after;
            let command = configure::configure_command(target.repository, target.config);
            &&& !reported(t, target, RestartPhase::Stop) ==> within(Limit::Idle, t, after)
            &&& !reported(t, target, RestartPhase::ConfigureFirst) ==> within(
                Limit::Without(command),
                t,
                after,
            )
            &&& !reported(t, target, RestartPhase::ConfigureSecond) ==> exists|
                stopped: bool,
                configured: bool,
            |
                attached(after.asked) == attached(t.asked) + #[trigger] passes(
                    target,
                    stopped,
                    configured,
                )
            &&& !reported(t, target, RestartPhase::Start) ==> within(
                Limit::Without(start_command(target)),
                t,
                after,
            )
        }),
{
    broadcast use {group_within, lemma_attached_ask};

    law_start_follows_the_second_configure(t, target);
    lemma_restart_commands_differ(target);
    let command = configure::configure_command(target.repository, target.config);
    assert(Limit::Idle.applies());
    assert(Limit::Without(command).applies());
    let result = restart::restart_run(t, target);
    let stop = RestartReport::Begun(RestartPhase::Stop);
    let first = RestartReport::Begun(RestartPhase::ConfigureFirst);
    let second = RestartReport::Begun(RestartPhase::ConfigureSecond);
    let checked = configure::prerequisites_run(t, target.repository, target.config);
    assert(within(Limit::Idle, t, checked.after));
    assert(within(Limit::Without(command), t, checked.after));
    assert(attached(checked.after.asked) == attached(t.asked));
    assert(attached(t.asked) + passes(target, false, false) == attached(t.asked));
    let begun = checked.after.note(restart::restarting_event());
    if checked.done() && begun.done() {
        assert(result.reports[0] == stop);
        let stopping = restart::announced(begun.after, "stop"@);
        let stopped = service::stop_run(stopping.after, target.unit, target.as_root);
        assert(within(Limit::Without(command), stopping.after, stopped.after));
        lemma_stop_attached(stopping.after, target);
        let ran = choose|ran: bool|
            attached(stopped.after.asked) == attached(stopping.after.asked) + #[trigger] perhaps(
                ran,
                stop_command(target),
            );
        assert(attached(t.asked) + passes(target, ran, false) == attached(stopped.after.asked));
        if stopping.done() && stopped.done() {
            assert(result.reports[1] == first);
            let entered = restart::announced(stopped.after, "configure 1/2"@);
            let configured = configure::configure_run(
                entered.after,
                target.repository,
                target.config,
            );
            lemma_configure_attached(entered.after, target);
            let passed = choose|passed: bool|
                attached(configured.after.asked) == attached(entered.after.asked)
                    + #[trigger] perhaps(passed, command);
            assert(attached(t.asked) + passes(target, ran, passed) == attached(
                configured.after.asked,
            ));
            if let End::Failed(message) = configured.end {
                let warned = configured.after.note(restart::retry_event(message));
                assert(warned.done() ==> result.reports[3] == second);
            }
            assert(configured.done() ==> result.reports[2] == second);
        }
    }
}

/// Progress shows a segment as done once the next one was reported, and the start not before the
/// restart has completed. A first configure pass that failed is shown as such.
pub proof fn law_progress_counts_finished_segments(
    t: Transcript,
    target: RestartTarget,
    compact: bool,
)
    ensures
        ({
            let reports = restart::restart_run(t, target).reports;
            let failed = reports.contains(RestartReport::ConfigureFirstFailed);
            let second = reported(t, target, RestartPhase::ConfigureSecond);
            let shown = RestartProgressView::begun(compact).after_reports(reports);
            &&& shown.stop is Done <==> reported(t, target, RestartPhase::ConfigureFirst)
            &&& shown.configure_first is Done <==> second && !failed
            &&& shown.configure_first is Warning <==> failed
            &&& shown.configure_second is Done <==> reported(t, target, RestartPhase::Start)
            &&& shown.start is Pending
        }),
{
    reveal_with_fuel(RestartProgressView::after_reports, 6);
    law_completed_restart_went_through_every_segment(t, target);
    let reports = restart::restart_run(t, target).reports;
    let whole = if reports.is_prefix_of(smooth_reports()) {
        smooth_reports()
    } else {
        retried_reports()
    };
    assert(reports == whole.take(reports.len() as int));
    assert(reports.len() > 0 ==> reports[0] == whole[0]);
    assert(reports.len() > 1 ==> reports[1] == whole[1]);
    assert(reports.len() > 2 ==> reports[2] == whole[2]);
    assert(reports.len() > 3 ==> reports[3] == whole[3]);
    assert(reports.len() > 4 ==> reports[4] == whole[4]);
}

/// Whether the last request but one read a unit's state and found a given one, and the last logged
/// an event.
pub open spec fn noted_state(t: Transcript, unit: Seq<char>, state: ServiceStateView) -> bool {
    let place = t.asked.len() - 2;
    &&& 0 <= place
    &&& t.asked.len() <= t.replies.len()
    &&& t.asked[place] == RequestView::Capture(service::show_state_command(unit))
    &&& t.replies[place] matches ReplyView::Outcome(outcome)
    &&& outcome.success
    &&& service::described_state(outcome.stdout) == Some(state)
    &&& t.asked.last() is Log
}

/// Starting an active unit and stopping an inactive one succeed without doing anything: the unit's
/// state is read, the log says that nothing has to be done, and that is all.
pub proof fn law_repeated_actions_do_nothing(t: Transcript, unit: Seq<char>, as_root: bool)
    requires
        service::state_run(t, unit).done(),
    ensures
        service::state_run(t, unit).value() is Active ==> service::start_run(t, unit, as_root)
            == service::state_run(t, unit).with(false).noting(
            service::service_event(Level::Info, "service is already active"@, unit),
        ),
        service::state_run(t, unit).value() is Inactive ==> service::stop_run(t, unit, as_root)
            == service::state_run(t, unit).with(false).noting(
            service::service_event(Level::Info, "service is already inactive"@, unit),
        ),
{
}

/// A start that succeeds has seen the unit active last, and a stop that succeeds has seen it
/// inactive last; after that, the event is logged and nothing else is asked for.
pub proof fn law_actions_verify_the_final_state(t: Transcript, unit: Seq<char>, as_root: bool)
    ensures
        service::start_run(t, unit, as_root).done() ==> noted_state(
            service::start_run(t, unit, as_root).after,
            unit,
            ServiceStateView::Active,
        ),
        service::stop_run(t, unit, as_root).done() ==> noted_state(
            service::stop_run(t, unit, as_root).after,
            unit,
            ServiceStateView::Inactive,
        ),
{
}

/// A start that fails, because systemctl failed or because the unit did not become active, has read
/// and logged the unit's journal last.
pub proof fn law_failed_start_logs_the_journal(t: Transcript, unit: Seq<char>, as_root: bool)
    requires
        service::state_run(t, unit).done(),
        !(service::state_run(t, unit).value() is Active),
        !(service::state_run(t, unit).value() is Missing),
    ensures
        ({
            let initial = service::state_run(t, unit);
            let announced = initial.after.note(
                service::service_event(Level::Info, "starting service"@, unit).shown(
                    "state"@,
                    initial.value().name(),
                ),
            );
            let started = announced.after.outcome(
                RequestView::Interactive(service::action_command(unit, as_root, "start"@)),
            );
            let run = service::start_run(t, unit, as_root);
            let journal = RequestView::Capture(service::journal_command(unit, as_root));
            let asked = run.after.asked;
            let last = service::state_run(started.after, unit);
            let failed = started.done() && (!started.value().success || (last.done() && !(
            last.value() is Active)));
            failed && !(run.end is Waiting) ==> run.end is Failed && asked.len() >= 2
                && asked[asked.len() - 2] == journal && asked.last() is Log
        }),
{
}

/// Whether a request was made between two transcripts.
pub open spec fn asked_since(earlier: Transcript, later: Transcript, request: RequestView) -> bool {
    exists|i: int|
        earlier.asked.len() <= i < later.asked.len() && #[trigger] later.asked[i] == request
}

/// An update that completes has checked out the commit that the ref was resolved to, by force and
/// detached, and has installed the dependencies last, whether or not the commit was checked out
/// before; after that, only its completion is logged.
pub proof fn law_completed_update_is_at_the_commit(
    t: Transcript,
    repository: Seq<char>,
    git_ref: Seq<char>,
)
    ensures
        repository::update_run(t, repository, git_ref).done() ==> {
            let located = repository::locate_run(t, repository, git_ref);
            let after = repository::update_run(t, repository, git_ref).after;
            &&& located.done()
            &&& repository::is_commit_id(located.value())
            &&& asked_since(
                t,
                after,
                RequestView::Streaming(
                    repository::checkout_stages(repository, located.value())[0].command,
                ),
            )
            &&& after.asked[after.asked.len() - 2] == RequestView::Streaming(
                repository::deps_command(repository),
            )
            &&& after.asked.last() == RequestView::Log(
                repository::updated_event(git_ref, located.value()),
            )
        },
{
    let located = repository::locate_run(t, repository, git_ref);
    let checked = repository::repository_run(t, repository);
    let begun = checked.after.note(repository::fetch_event(repository, git_ref));
    let fetched = begun.after.required(
        RequestView::Streaming(repository::fetch_command(repository)),
        "git fetch"@,
    );
    lemma_resolved_is_a_commit(
        fetched.after,
        repository,
        git_ref,
        repository::candidates(git_ref),
    );
    if repository::update_run(t, repository, git_ref).done() {
        let commit = located.value();
        let head = located.after.outcome(
            RequestView::Capture(repository::head_command(repository)),
        );
        let noted = if head.value().success && text::trimmed(head.value().stdout)
            == commit {
            head.after.note(repository::current_event(commit))
        } else {
            head.with(())
        };
        let reset = repository::reset_run(noted.after, repository);
        let stages = repository::checkout_stages(repository, commit);
        let moved = repository::stages_run(reset.after, stages);
        lemma_completed_stages_were_asked_for(reset.after, stages);
        lemma_locate_looks_up(t, repository, git_ref);
        lemma_reset_in_background(noted.after, repository);
        reveal(within);
        let after = repository::update_run(t, repository, git_ref).after;
        let wanted = RequestView::Streaming(stages[0].command);
        let place = reset.after.asked.len() as int;
        assert(moved.after.asked[place] == wanted);
        assert(after.asked[place] == wanted);
    }
}

/// A ref that was resolved is a commit ID.
proof fn lemma_resolved_is_a_commit(
    t: Transcript,
    repository: Seq<char>,
    git_ref: Seq<char>,
    revisions: Seq<Seq<char>>,
)
    ensures
        repository::resolve_run(t, repository, git_ref, revisions).done()
            ==> repository::is_commit_id(
            repository::resolve_run(t, repository, git_ref, revisions).value(),
        ),
    decreases revisions.len(),
{
    if revisions.len() > 0 {
        let found = t.outcome(
            RequestView::Capture(repository::resolve_command(revisions[0], repository)),
        );
        lemma_resolved_is_a_commit(found.after, repository, git_ref, revisions.drop_first());
    }
}

/// Stages that were completed were asked for in order.
proof fn lemma_completed_stages_were_asked_for(t: Transcript, stages: Seq<StageView>)
    ensures
        repository::stages_run(t, stages).done() ==> repository::stages_run(t, stages).after.asked
            == t.asked + Seq::new(
            stages.len(),
            |i: int| RequestView::Streaming(stages[i].command),
        ),
    decreases stages.len(),
{
    let wanted = Seq::new(stages.len(), |i: int| RequestView::Streaming(stages[i].command));
    if stages.len() > 0 {
        let first = t.required(
            RequestView::Streaming(stages[0].command),
            stages[0].description,
        );
        let rest = stages.drop_first();
        lemma_completed_stages_were_asked_for(first.after, rest);
        let rest_wanted = Seq::new(rest.len(), |i: int| RequestView::Streaming(rest[i].command));
        assert(t.asked.push(wanted[0]) + rest_wanted == t.asked + wanted);
    } else {
        assert(t.asked + wanted == t.asked);
    }
}

/// A ref is resolved by the first revision that git knows: a revision is only tried when git has
/// refused every one before it.
pub proof fn law_first_known_revision_wins(
    t: Transcript,
    repository: Seq<char>,
    git_ref: Seq<char>,
    revisions: Seq<Seq<char>>,
)
    ensures
        repository::resolve_run(t, repository, git_ref, revisions).done() ==> exists|k: int|
            {
                &&& 0 <= k < revisions.len()
                &&& #[trigger] resolved_by(t, k, repository::resolve_run(
                    t,
                    repository,
                    git_ref,
                    revisions,
                ).value())
                &&& forall|i: int| 0 <= i < k ==> #[trigger] refused(t, i)
            },
    decreases revisions.len(),
{
    let run = repository::resolve_run(t, repository, git_ref, revisions);
    if revisions.len() > 0 && run.done() {
        let found = t.outcome(
            RequestView::Capture(repository::resolve_command(revisions[0], repository)),
        );
        if found.value().success {
            assert(resolved_by(t, 0, run.value()));
        } else {
            law_first_known_revision_wins(
                found.after,
                repository,
                git_ref,
                revisions.drop_first(),
            );
            let k = choose|k: int|
                {
                    &&& 0 <= k < revisions.len() - 1
                    &&& #[trigger] resolved_by(found.after, k, run.value())
                    &&& forall|i: int| 0 <= i < k ==> #[trigger] refused(found.after, i)
                };
            assert(resolved_by(t, k + 1, run.value()));
            assert forall|i: int| 0 <= i < k + 1 implies #[trigger] refused(t, i) by {
                if i > 0 {
                    assert(refused(found.after, i - 1));
                }
            }
        }
    }
}

/// Whether the reply to the k-th request from here says that git does not know a revision.
pub open spec fn refused(t: Transcript, k: int) -> bool {
    t.replies[t.asked.len() + k] matches ReplyView::Outcome(outcome) && !outcome.success
}

/// Whether the reply to the k-th request from here names a commit.
pub open spec fn resolved_by(t: Transcript, k: int, commit: Seq<char>) -> bool {
    t.replies[t.asked.len() + k] matches ReplyView::Outcome(outcome) && outcome.success
        && text::trimmed(outcome.stdout) == commit
}

/// Root never goes on with a command that touches the checkout: the process is replaced by one of
/// the user whom sudo was used by, or the command is refused. Root that sudo was used for never
/// goes on with any command.
pub proof fn law_root_leaves_the_checkout_alone(
    t: Transcript,
    command: Commands,
    arguments: Seq<Seq<char>>,
)
    ensures
        command.touches_checkout() ==> !privilege::reexec_run(t, true, command, arguments).done(),
        paths::sudo_user_run(t).done() && paths::sudo_user_run(t).value() is Some
            ==> !privilege::reexec_run(t, true, command, arguments).done(),
{
}

/// Whoever is not root goes on at once.
pub proof fn law_other_users_go_on(t: Transcript, command: Commands, arguments: Seq<Seq<char>>)
    ensures
        privilege::reexec_run(t, false, command, arguments).done(),
        privilege::reexec_run(t, false, command, arguments).after == t,
{
}

/// Whether every text that the replies hold is an absolute path.
pub open spec fn absolute_answers(t: Transcript) -> bool {
    forall|i: int|
        0 <= i < t.replies.len() ==> ((#[trigger] t.replies[i]) matches ReplyView::Text(path)
            ==> process::is_absolute(path))
}

/// Resolved paths are absolute, as long as the current directory is.
pub proof fn law_resolved_paths_are_absolute(
    t: Transcript,
    service: Seq<char>,
    options: PathOptions,
)
    requires
        absolute_answers(t),
    ensures
        paths::resolve_run(t, service, options).done() ==> {
            let resolved = paths::resolve_run(t, service, options).value();
            &&& process::is_absolute(resolved.base)
            &&& process::is_absolute(resolved.repository)
            &&& process::is_absolute(resolved.config)
            &&& process::is_absolute(resolved.log_dir)
        },
{
    let username = paths::username_run(t);
    let home = paths::home_run(username.after, username.value());
    assert(username.after.replies == t.replies);
    assert(home.after.replies == t.replies);
    if let Some(path) = options.base_path {
        lemma_absolute_run(username.after, path);
    }
    lemma_absolute_run(home.after, home.value());
    let base = paths::base_run(username.after, options.base_path, username.value());
    assert(base.after.replies == t.replies);
    let below_repository = paths::given_or_below(
        options.repo_path,
        base.value(),
        "code/firedancer"@,
    );
    let repository = paths::absolute_run(base.after, below_repository);
    lemma_absolute_run(base.after, below_repository);
    let below_config = paths::given_or_below(
        options.config,
        base.value(),
        "active-fd-config.toml"@,
    );
    let config = paths::absolute_run(repository.after, below_config);
    lemma_absolute_run(repository.after, below_config);
    lemma_absolute_run(
        config.after,
        paths::given_or_below(options.log_dir, base.value(), "logs"@),
    );
}

/// A path that was made absolute is absolute.
proof fn lemma_absolute_run(t: Transcript, path: Seq<char>)
    requires
        absolute_answers(t),
    ensures
        paths::absolute_run(t, path).after.replies == t.replies,
        paths::absolute_run(t, path).done() ==> process::is_absolute(
            paths::absolute_run(t, path).value(),
        ),
{
}

/// Root that may not go on, or hands over to another user, does so before logs are opened and
/// before the checkout is touched.
pub proof fn law_root_is_left_first(
    t: Transcript,
    cli: Cli,
    arguments: Seq<Seq<char>>,
    root: bool,
)
    ensures
        !privilege::reexec_run(t, root, cli.command, arguments).done() ==> within(
            Limit::Preliminary,
            t,
            dispatch::program_run(t, cli, arguments, root).after,
        ),
{
    broadcast use group_within;

    assert(Limit::Preliminary.applies());
}

/// Where the program takes the command lock: once root has been left and the paths are resolved.
pub open spec fn lock_start(
    t: Transcript,
    cli: Cli,
    arguments: Seq<Seq<char>>,
    root: bool,
) -> Run<AppPathsView> {
    let left = privilege::reexec_run(t, root, cli.command, arguments);
    if !left.done() {
        left.stop()
    } else {
        paths::resolve_run(left.after, cli.service@, cli.path_options())
    }
}

/// Commands that take the command lock do nothing without it: as long as the lock has not been
/// acquired, only preliminary requests have been made, and watching is the one command that does
/// not take it.
pub proof fn law_nothing_runs_without_the_lock(
    t: Transcript,
    cli: Cli,
    arguments: Seq<Seq<char>>,
    root: bool,
)
    requires
        cli.command.locks(),
    ensures
        ({
            let start = lock_start(t, cli, arguments, root);
            !start.done() || !lock::acquire_run(start.after, start.value().base).done() ==> within(
                Limit::Preliminary,
                t,
                dispatch::program_run(t, cli, arguments, root).after,
            )
        }),
        cli.command.locks() <==> !(cli.command is Monitor),
{
    broadcast use group_within;

    assert(Limit::Preliminary.applies());
    let left = privilege::reexec_run(t, root, cli.command, arguments);
    assert(within(Limit::Preliminary, t, left.after));
    let start = lock_start(t, cli, arguments, root);
    lemma_resolving_is_preliminary(left.after, cli.service@, cli.path_options());
    assert(within(Limit::Preliminary, t, start.after));
    let acquired = lock::acquire_run(start.after, start.value().base);
    assert(within(Limit::Preliminary, start.after, acquired.after));
}

/// Resolving paths only finds out about users and directories.
proof fn lemma_resolving_is_preliminary(t: Transcript, service: Seq<char>, options: PathOptions)
    ensures
        within(Limit::Preliminary, t, paths::resolve_run(t, service, options).after),
{
    broadcast use group_within;

    assert(Limit::Preliminary.applies());
    let username = paths::username_run(t);
    assert(within(Limit::Preliminary, t, username.after));
    let home = paths::home_run(username.after, username.value());
    assert(within(Limit::Preliminary, username.after, home.after));
    let base = paths::base_run(username.after, options.base_path, username.value());
    assert(within(Limit::Preliminary, username.after, base.after));
}

} // verus!
