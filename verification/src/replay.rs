//! Procedures can be run again over more replies.
//!
//! Whoever runs a procedure repeats it from the start each time one more reply is known. The laws
//! of this module say that this comes to the same as running it once: a repeated run makes the
//! same requests in the same order, so that each of them meets the reply it was given, and goes on
//! from where the earlier run was waiting.

use vstd::prelude::*;

use crate::cli::{Cli, Commands, PathOptions};
use crate::configure;
use crate::dispatch;
use crate::lock;
use crate::logging::Level;
use crate::monitor;
use crate::paths;
use crate::paths::AppPathsView;
use crate::privilege;
use crate::process;
use crate::progress;
use crate::repository;
use crate::repository::StageView;
use crate::restart;
use crate::restart::{RestartPhase, RestartReport, RestartTarget};
use crate::service;
use crate::session::{End, ReplyView, RequestView, Transcript};
use crate::status;
use crate::status::ServiceFacts;
use crate::text;
use crate::update_full;
use crate::update_full::{ProgressReporterView, RestartProgressView, ServiceImpact, UpdatePlan};

verus! {

/// A transcript goes on from itself.
broadcast proof fn lemma_continues_itself(t: Transcript)
    ensures
        #[trigger] t.continues(t),
{
    reveal(Transcript::continues);
}

/// A transcript that goes on from one that goes on from a third goes on from the third.
broadcast proof fn lemma_continues_through(first: Transcript, second: Transcript, third: Transcript)
    requires
        #[trigger] second.continues(first),
        #[trigger] third.continues(second),
    ensures
        third.continues(first),
{
    reveal(Transcript::continues);
}

/// One more request.
broadcast proof fn lemma_ask_continues(t: Transcript, request: RequestView)
    ensures
        (#[trigger] t.ask(request)).continues(t),
{
    reveal(Transcript::continues);
}

broadcast group group_continues {
    lemma_continues_itself,
    lemma_continues_through,
    lemma_ask_continues,
}

/// Reading a unit's state: where a run goes on from.
broadcast proof fn lemma_state_starts(t: Transcript, unit: Seq<char>)
    ensures
        (#[trigger] service::state_run(t, unit)).starts_at(t),
{
    broadcast use group_continues;

}

/// Logging a unit's journal: where a run goes on from.
broadcast proof fn lemma_journal_starts(t: Transcript, unit: Seq<char>, as_root: bool)
    ensures
        (#[trigger] service::journal_run(t, unit, as_root)).starts_at(t),
{
    broadcast use group_continues;

}

/// Failing a start: where a run goes on from.
broadcast proof fn lemma_failed_start_starts(
    t: Transcript,
    unit: Seq<char>,
    as_root: bool,
    message: Seq<char>,
)
    ensures
        (#[trigger] service::failed_start_run(t, unit, as_root, message)).starts_at(t),
{
    broadcast use {group_continues, lemma_journal_starts};

}

/// Having a unit started: where a run goes on from.
broadcast proof fn lemma_commanded_start_starts(t: Transcript, unit: Seq<char>, as_root: bool)
    ensures
        (#[trigger] service::commanded_start_run(t, unit, as_root)).starts_at(t),
{
    broadcast use {group_continues, lemma_state_starts, lemma_failed_start_starts};

}

/// Starting a unit: where a run goes on from.
broadcast proof fn lemma_start_starts(t: Transcript, unit: Seq<char>, as_root: bool)
    ensures
        (#[trigger] service::start_run(t, unit, as_root)).starts_at(t),
{
    broadcast use {group_continues, lemma_state_starts, lemma_commanded_start_starts};

}

/// Having a unit stopped: where a run goes on from.
broadcast proof fn lemma_commanded_stop_starts(t: Transcript, unit: Seq<char>, as_root: bool)
    ensures
        (#[trigger] service::commanded_stop_run(t, unit, as_root)).starts_at(t),
{
    broadcast use {group_continues, lemma_state_starts};

}

/// Stopping a unit: where a run goes on from.
broadcast proof fn lemma_stop_starts(t: Transcript, unit: Seq<char>, as_root: bool)
    ensures
        (#[trigger] service::stop_run(t, unit, as_root)).starts_at(t),
{
    broadcast use {group_continues, lemma_state_starts, lemma_commanded_stop_starts};

}

/// Reading the running version: where a run goes on from.
broadcast proof fn lemma_running_version_starts(t: Transcript, unit: Seq<char>, as_root: bool)
    ensures
        (#[trigger] service::running_version_run(t, unit, as_root)).starts_at(t),
{
    broadcast use group_continues;

}

/// Checking the prerequisites: where a run goes on from.
broadcast proof fn lemma_prerequisites_starts(
    t: Transcript,
    repository: Seq<char>,
    config: Seq<char>,
)
    ensures
        (#[trigger] configure::prerequisites_run(t, repository, config)).starts_at(t),
{
    broadcast use group_continues;

}

/// Configuring the host: where a run goes on from.
broadcast proof fn lemma_configure_starts(t: Transcript, repository: Seq<char>, config: Seq<char>)
    ensures
        (#[trigger] configure::configure_run(t, repository, config)).starts_at(t),
{
    broadcast use {group_continues, lemma_prerequisites_starts};

}

/// The start segment: where a run goes on from.
broadcast proof fn lemma_start_segment_starts(
    t: Transcript,
    target: RestartTarget,
    earlier: Seq<RestartReport>,
)
    ensures
        (#[trigger] restart::start_segment(t, target, earlier)).run.starts_at(t),
{
    broadcast use {group_continues, lemma_start_starts};

}

/// The second configure segment and what follows: where a run goes on from.
broadcast proof fn lemma_second_configure_segment_starts(
    t: Transcript,
    target: RestartTarget,
    earlier: Seq<RestartReport>,
)
    ensures
        (#[trigger] restart::second_configure_segment(t, target, earlier)).run.starts_at(t),
{
    broadcast use {group_continues, lemma_configure_starts, lemma_start_segment_starts};

}

/// The first configure segment and what follows: where a run goes on from.
broadcast proof fn lemma_first_configure_segment_starts(
    t: Transcript,
    target: RestartTarget,
    earlier: Seq<RestartReport>,
)
    ensures
        (#[trigger] restart::first_configure_segment(t, target, earlier)).run.starts_at(t),
{
    broadcast use {group_continues, lemma_configure_starts, lemma_second_configure_segment_starts};

}

/// The stop segment and what follows: where a run goes on from.
broadcast proof fn lemma_stop_segment_starts(t: Transcript, target: RestartTarget)
    ensures
        (#[trigger] restart::stop_segment(t, target)).run.starts_at(t),
{
    broadcast use {group_continues, lemma_stop_starts, lemma_first_configure_segment_starts};

}

/// Restarting: where a run goes on from.
broadcast proof fn lemma_restart_starts(t: Transcript, target: RestartTarget)
    ensures
        (#[trigger] restart::restart_run(t, target)).run.starts_at(t),
{
    broadcast use {group_continues, lemma_prerequisites_starts, lemma_stop_segment_starts};

}

/// Checking a working tree: where a run goes on from.
broadcast proof fn lemma_repository_starts(t: Transcript, repository: Seq<char>)
    ensures
        (#[trigger] repository::repository_run(t, repository)).starts_at(t),
{
    broadcast use group_continues;

}

/// Resolving a ref: where a run goes on from.
broadcast proof fn lemma_resolve_starts(
    t: Transcript,
    repository: Seq<char>,
    git_ref: Seq<char>,
    revisions: Seq<Seq<char>>,
)
    ensures
        (#[trigger] repository::resolve_run(t, repository, git_ref, revisions)).starts_at(t),
    decreases revisions.len(),
{
    broadcast use group_continues;

    if revisions.len() > 0 {
        let found = t.outcome(
            RequestView::Capture(repository::resolve_command(revisions[0], repository)),
        );
        lemma_resolve_starts(found.after, repository, git_ref, revisions.drop_first());
    }
}

/// Listing leftover changes: where a run goes on from.
broadcast proof fn lemma_worktree_status_starts(t: Transcript, repository: Seq<char>)
    ensures
        (#[trigger] repository::worktree_status_run(t, repository)).starts_at(t),
{
    broadcast use group_continues;

}

/// Running stages: where a run goes on from.
broadcast proof fn lemma_stages_starts(t: Transcript, stages: Seq<StageView>)
    ensures
        (#[trigger] repository::stages_run(t, stages)).starts_at(t),
    decreases stages.len(),
{
    broadcast use group_continues;

    if stages.len() > 0 {
        let first = t.required(
            RequestView::Streaming(stages[0].command),
            stages[0].description,
        );
        lemma_stages_starts(first.after, stages.drop_first());
    }
}

/// Running a stage that may fail: where a run goes on from.
broadcast proof fn lemma_tolerated_starts(t: Transcript, stage: StageView)
    ensures
        (#[trigger] repository::tolerated_run(t, stage)).starts_at(t),
{
    broadcast use group_continues;

}

/// Discarding leftover changes: where a run goes on from.
broadcast proof fn lemma_reset_starts(t: Transcript, repository: Seq<char>)
    ensures
        (#[trigger] repository::reset_run(t, repository)).starts_at(t),
{
    broadcast use {
        group_continues,
        lemma_worktree_status_starts,
        lemma_stages_starts,
        lemma_tolerated_starts,
    };

}

/// Installing dependencies: where a run goes on from.
broadcast proof fn lemma_deps_starts(t: Transcript, repository: Seq<char>)
    ensures
        (#[trigger] repository::deps_run(t, repository)).starts_at(t),
{
    broadcast use group_continues;

}

/// Moving to a commit: where a run goes on from.
pub broadcast proof fn lemma_move_starts(t: Transcript, repository: Seq<char>, commit: Seq<char>)
    ensures
        (#[trigger] repository::move_run(t, repository, commit)).starts_at(t),
{
    broadcast use {group_continues, lemma_reset_starts, lemma_stages_starts, lemma_deps_starts};

}

/// Locating a ref: where a run goes on from.
broadcast proof fn lemma_locate_starts(t: Transcript, repository: Seq<char>, git_ref: Seq<char>)
    ensures
        (#[trigger] repository::locate_run(t, repository, git_ref)).starts_at(t),
{
    broadcast use {group_continues, lemma_repository_starts, lemma_resolve_starts};

}

/// Updating a checkout: where a run goes on from.
broadcast proof fn lemma_update_starts(t: Transcript, repository: Seq<char>, git_ref: Seq<char>)
    ensures
        (#[trigger] repository::update_run(t, repository, git_ref)).starts_at(t),
{
    broadcast use {group_continues, lemma_locate_starts, lemma_move_starts};

}

/// Running make: where a run goes on from.
broadcast proof fn lemma_timed_make_starts(t: Transcript, repository: Seq<char>, started: u64)
    ensures
        (#[trigger] repository::timed_make_run(t, repository, started)).starts_at(t),
{
    broadcast use group_continues;

}

/// Building: where a run goes on from.
broadcast proof fn lemma_make_starts(t: Transcript, repository: Seq<char>)
    ensures
        (#[trigger] repository::make_run(t, repository)).starts_at(t),
{
    broadcast use {group_continues, lemma_repository_starts, lemma_timed_make_starts};

}

/// Reading the built version: where a run goes on from.
broadcast proof fn lemma_built_version_starts(t: Transcript, repository: Seq<char>)
    ensures
        (#[trigger] repository::built_version_run(t, repository)).starts_at(t),
{
    broadcast use group_continues;

}

/// Reading the GUI's URL: where a run goes on from.
broadcast proof fn lemma_url_starts(t: Transcript, config_path: Seq<char>)
    ensures
        (#[trigger] monitor::url_run(t, config_path)).starts_at(t),
{
    broadcast use group_continues;

}

/// Checking that the GUI is on: where a run goes on from.
broadcast proof fn lemma_validate_starts(t: Transcript, config_path: Seq<char>)
    ensures
        (#[trigger] monitor::validate_run(t, config_path)).starts_at(t),
{
    broadcast use {group_continues, lemma_url_starts};

}

/// Waiting for the validator: where a run goes on from.
broadcast proof fn lemma_wait_starts(t: Transcript, config_path: Seq<char>)
    ensures
        (#[trigger] monitor::wait_run(t, config_path)).starts_at(t),
{
    broadcast use {group_continues, lemma_url_starts};

}

/// Watching the GUI: where a run goes on from.
broadcast proof fn lemma_monitor_starts(
    t: Transcript,
    config_path: Seq<char>,
    url_override: Option<Seq<char>>,
    all: bool,
)
    ensures
        (#[trigger] monitor::monitor_run(t, config_path, url_override, all)).starts_at(t),
{
    broadcast use {group_continues, lemma_url_starts};

}

/// Trying to read a unit's state: where a run goes on from.
broadcast proof fn lemma_tried_state_starts(t: Transcript, unit: Seq<char>)
    ensures
        (#[trigger] update_full::tried_state_run(t, unit)).starts_at(t),
{
    broadcast use {group_continues, lemma_state_starts};

}

/// Making requests in order: where a run goes on from.
broadcast proof fn lemma_told_starts(t: Transcript, requests: Seq<RequestView>)
    ensures
        (#[trigger] update_full::told_run(t, requests)).starts_at(t),
    decreases requests.len(),
{
    broadcast use group_continues;

    if requests.len() > 0 {
        let first = t.tell(requests[0]);
        lemma_told_starts(first.after, requests.drop_first());
    }
}

/// Reporting a failure: where a run goes on from.
broadcast proof fn lemma_reported_failure_starts(
    t: Transcript,
    requests: Seq<RequestView>,
    message: Seq<char>,
)
    ensures
        (#[trigger] update_full::reported_failure_run::<()>(t, requests, message)).starts_at(t),
{
    broadcast use {group_continues, lemma_told_starts};

}

/// Reporting a failed stage: where a run goes on from.
broadcast proof fn lemma_failed_stage_starts(
    t: Transcript,
    reporter: ProgressReporterView,
    stage: Seq<char>,
    message: Seq<char>,
)
    ensures
        (#[trigger] update_full::failed_stage_run(t, reporter, stage, message)).starts_at(t),
{
    broadcast use {group_continues, lemma_reported_failure_starts};

}

/// Waiting for readiness: where a run goes on from.
broadcast proof fn lemma_readiness_starts(
    t: Transcript,
    plan: UpdatePlan,
    started: u64,
    build_nanos: u64,
    final_state: Seq<char>,
)
    ensures
        (#[trigger] update_full::readiness_run(
            t,
            plan,
            started,
            build_nanos,
            final_state,
        )).starts_at(t),
{
    broadcast use {
        group_continues,
        lemma_wait_starts,
        lemma_reported_failure_starts,
        lemma_told_starts,
    };

}

/// Reporting a failed restart: where a run goes on from.
broadcast proof fn lemma_failed_restart_starts(
    t: Transcript,
    plan: UpdatePlan,
    reports: Seq<RestartReport>,
    message: Seq<char>,
)
    ensures
        (#[trigger] update_full::failed_restart_run(t, plan, reports, message)).starts_at(t),
{
    broadcast use {group_continues, lemma_tried_state_starts, lemma_reported_failure_starts};

}

/// The restart stage and what follows: where a run goes on from.
broadcast proof fn lemma_restart_stage_starts(
    t: Transcript,
    plan: UpdatePlan,
    started: u64,
    build_nanos: u64,
)
    ensures
        (#[trigger] update_full::restart_stage_run(t, plan, started, build_nanos)).starts_at(t),
{
    broadcast use {
        group_continues,
        lemma_told_starts,
        lemma_restart_starts,
        lemma_failed_restart_starts,
        lemma_tried_state_starts,
        lemma_readiness_starts,
    };

}

/// The build stage: where a run goes on from.
broadcast proof fn lemma_build_stage_starts(t: Transcript, plan: UpdatePlan)
    ensures
        (#[trigger] update_full::build_stage_run(t, plan)).starts_at(t),
{
    broadcast use {
        group_continues,
        lemma_told_starts,
        lemma_make_starts,
        lemma_failed_stage_starts,
    };

}

/// The update stage: where a run goes on from.
broadcast proof fn lemma_checkout_stage_starts(t: Transcript, plan: UpdatePlan)
    ensures
        (#[trigger] update_full::checkout_stage_run(t, plan)).starts_at(t),
{
    broadcast use {
        group_continues,
        lemma_told_starts,
        lemma_update_starts,
        lemma_failed_stage_starts,
    };

}

/// Everything before the restart: where a run goes on from.
broadcast proof fn lemma_prepared_starts(t: Transcript, plan: UpdatePlan)
    ensures
        (#[trigger] update_full::prepared_run(t, plan)).starts_at(t),
{
    broadcast use {group_continues, lemma_checkout_stage_starts, lemma_build_stage_starts};

}

/// Updating, building, and restarting: where a run goes on from.
broadcast proof fn lemma_update_stage_starts(t: Transcript, plan: UpdatePlan)
    ensures
        (#[trigger] update_full::update_stage_run(t, plan)).starts_at(t),
{
    broadcast use {group_continues, lemma_prepared_starts, lemma_restart_stage_starts};

}

/// Updating quietly: where a run goes on from.
broadcast proof fn lemma_quiet_starts(t: Transcript, plan: UpdatePlan)
    ensures
        (#[trigger] update_full::quiet_run(t, plan)).starts_at(t),
{
    broadcast use {group_continues, lemma_update_stage_starts};

}

/// A full update: where a run goes on from.
broadcast proof fn lemma_update_full_starts(t: Transcript, plan: UpdatePlan)
    ensures
        (#[trigger] update_full::update_full_run(t, plan)).starts_at(t),
{
    broadcast use {
        group_continues,
        lemma_validate_starts,
        lemma_quiet_starts,
        lemma_update_stage_starts,
    };

}

/// Checking a keypair's permissions: where a run goes on from.
broadcast proof fn lemma_permissions_starts(t: Transcript, path: Seq<char>)
    ensures
        (#[trigger] status::permissions_run(t, path)).starts_at(t),
{
    broadcast use group_continues;

}

/// Loading the report: where a run goes on from.
broadcast proof fn lemma_load_starts(t: Transcript, paths: AppPathsView, facts: ServiceFacts)
    ensures
        (#[trigger] status::load_run(t, paths, facts)).starts_at(t),
{
    broadcast use {group_continues, lemma_permissions_starts};

}

/// Asking for the startup phase: where a run goes on from.
broadcast proof fn lemma_phase_starts(t: Transcript, config_path: Seq<char>)
    ensures
        (#[trigger] status::phase_run(t, config_path)).starts_at(t),
{
    broadcast use {group_continues, lemma_url_starts};

}

/// Collecting the report: where a run goes on from.
broadcast proof fn lemma_collect_starts(t: Transcript, paths: AppPathsView, facts: ServiceFacts)
    ensures
        (#[trigger] status::collect_run(t, paths, facts)).starts_at(t),
{
    broadcast use {group_continues, lemma_load_starts, lemma_phase_starts};

}

/// Reading whom sudo was used by: where a run goes on from.
broadcast proof fn lemma_sudo_user_starts(t: Transcript)
    ensures
        (#[trigger] paths::sudo_user_run(t)).starts_at(t),
{
    broadcast use group_continues;

}

/// Resolving the operator's name: where a run goes on from.
broadcast proof fn lemma_username_starts(t: Transcript)
    ensures
        (#[trigger] paths::username_run(t)).starts_at(t),
{
    broadcast use {group_continues, lemma_sudo_user_starts};

}

/// Resolving the operator's home: where a run goes on from.
broadcast proof fn lemma_home_starts(t: Transcript, username: Seq<char>)
    ensures
        (#[trigger] paths::home_run(t, username)).starts_at(t),
{
    broadcast use {group_continues, lemma_sudo_user_starts};

}

/// Making a path absolute: where a run goes on from.
broadcast proof fn lemma_absolute_starts(t: Transcript, path: Seq<char>)
    ensures
        (#[trigger] paths::absolute_run(t, path)).starts_at(t),
{
    broadcast use group_continues;

}

/// Resolving the base path: where a run goes on from.
broadcast proof fn lemma_base_starts(t: Transcript, given: Option<Seq<char>>, username: Seq<char>)
    ensures
        (#[trigger] paths::base_run(t, given, username)).starts_at(t),
{
    broadcast use {group_continues, lemma_absolute_starts, lemma_home_starts};

}

/// Resolving every path: where a run goes on from.
broadcast proof fn lemma_resolve_paths_starts(
    t: Transcript,
    service: Seq<char>,
    options: PathOptions,
)
    ensures
        (#[trigger] paths::resolve_run(t, service, options)).starts_at(t),
{
    broadcast use {
        group_continues,
        lemma_username_starts,
        lemma_base_starts,
        lemma_absolute_starts,
    };

}

/// Leaving root: where a run goes on from.
broadcast proof fn lemma_reexec_starts(
    t: Transcript,
    root: bool,
    command: Commands,
    arguments: Seq<Seq<char>>,
)
    ensures
        (#[trigger] privilege::reexec_run(t, root, command, arguments)).starts_at(t),
{
    broadcast use {group_continues, lemma_sudo_user_starts};

}

/// Taking a lock: where a run goes on from.
broadcast proof fn lemma_take_starts(t: Transcript, path: Seq<char>)
    ensures
        (#[trigger] lock::take_run(t, path)).starts_at(t),
{
    broadcast use group_continues;

}

/// Acquiring the command lock: where a run goes on from.
broadcast proof fn lemma_acquire_starts(t: Transcript, base: Seq<char>)
    ensures
        (#[trigger] lock::acquire_run(t, base)).starts_at(t),
{
    broadcast use {group_continues, lemma_take_starts};

}

/// Reporting the status: where a run goes on from.
broadcast proof fn lemma_report_status_starts(
    t: Transcript,
    paths: AppPathsView,
    unit: Seq<char>,
    root: bool,
    json: bool,
)
    ensures
        (#[trigger] dispatch::status_run(t, paths, unit, root, json)).starts_at(t),
{
    broadcast use {
        group_continues,
        lemma_state_starts,
        lemma_running_version_starts,
        lemma_built_version_starts,
        lemma_collect_starts,
    };

}

/// Running a command: where a run goes on from.
pub broadcast proof fn lemma_dispatch_starts(t: Transcript, cli: Cli, paths: AppPathsView, root: bool)
    ensures
        (#[trigger] dispatch::dispatch_run(t, cli, paths, root)).starts_at(t),
{
    broadcast use {
        group_continues,
        lemma_update_starts,
        lemma_update_full_starts,
        lemma_make_starts,
        lemma_configure_starts,
        lemma_start_starts,
        lemma_stop_starts,
        lemma_restart_starts,
        lemma_report_status_starts,
        lemma_monitor_starts,
    };

    reveal(dispatch::dispatch_run);
}

/// Complaining: where a run goes on from.
broadcast proof fn lemma_complained_starts(t: Transcript, message: Seq<char>)
    ensures
        (#[trigger] dispatch::complained_run(t, message)).starts_at(t),
{
    broadcast use group_continues;

}

/// Running a command in the log: where a run goes on from.
broadcast proof fn lemma_logged_starts(t: Transcript, cli: Cli, paths: AppPathsView, root: bool)
    ensures
        (#[trigger] dispatch::logged_run(t, cli, paths, root)).starts_at(t),
{
    broadcast use {group_continues, lemma_dispatch_starts};

}

/// Taking the lock: where a run goes on from.
broadcast proof fn lemma_locked_starts(t: Transcript, command: Commands, base: Seq<char>)
    ensures
        (#[trigger] dispatch::locked_run(t, command, base)).starts_at(t),
{
    broadcast use {group_continues, lemma_acquire_starts};

}

/// What follows the resolved paths: where a run goes on from.
broadcast proof fn lemma_placed_starts(t: Transcript, cli: Cli, paths: AppPathsView, root: bool)
    ensures
        (#[trigger] dispatch::placed_run(t, cli, paths, root)).starts_at(t),
{
    broadcast use {
        group_continues,
        lemma_locked_starts,
        lemma_complained_starts,
        lemma_logged_starts,
    };

}

/// Running the program: where a run goes on from.
broadcast proof fn lemma_program_starts(
    t: Transcript,
    cli: Cli,
    arguments: Seq<Seq<char>>,
    root: bool,
)
    ensures
        (#[trigger] dispatch::program_run(t, cli, arguments, root)).starts_at(t),
{
    broadcast use {
        group_continues,
        lemma_reexec_starts,
        lemma_complained_starts,
        lemma_resolve_paths_starts,
        lemma_placed_starts,
    };

}

broadcast group group_runs {
    group_continues,
    lemma_state_starts,
    lemma_journal_starts,
    lemma_failed_start_starts,
    lemma_commanded_start_starts,
    lemma_start_starts,
    lemma_commanded_stop_starts,
    lemma_stop_starts,
    lemma_running_version_starts,
    lemma_prerequisites_starts,
    lemma_configure_starts,
    lemma_start_segment_starts,
    lemma_second_configure_segment_starts,
    lemma_first_configure_segment_starts,
    lemma_stop_segment_starts,
    lemma_restart_starts,
    lemma_repository_starts,
    lemma_resolve_starts,
    lemma_worktree_status_starts,
    lemma_stages_starts,
    lemma_tolerated_starts,
    lemma_reset_starts,
    lemma_deps_starts,
    lemma_move_starts,
    lemma_locate_starts,
    lemma_update_starts,
    lemma_timed_make_starts,
    lemma_make_starts,
    lemma_built_version_starts,
    lemma_url_starts,
    lemma_validate_starts,
    lemma_wait_starts,
    lemma_monitor_starts,
    lemma_tried_state_starts,
    lemma_told_starts,
    lemma_reported_failure_starts,
    lemma_failed_stage_starts,
    lemma_readiness_starts,
    lemma_failed_restart_starts,
    lemma_restart_stage_starts,
    lemma_build_stage_starts,
    lemma_checkout_stage_starts,
    lemma_prepared_starts,
    lemma_update_stage_starts,
    lemma_quiet_starts,
    lemma_update_full_starts,
    lemma_permissions_starts,
    lemma_load_starts,
    lemma_phase_starts,
    lemma_collect_starts,
    lemma_sudo_user_starts,
    lemma_username_starts,
    lemma_home_starts,
    lemma_absolute_starts,
    lemma_base_starts,
    lemma_resolve_paths_starts,
    lemma_reexec_starts,
    lemma_take_starts,
    lemma_acquire_starts,
    lemma_report_status_starts,
    lemma_dispatch_starts,
    lemma_complained_starts,
    lemma_logged_starts,
    lemma_locked_starts,
    lemma_placed_starts,
    lemma_program_starts,
}

/// Reading a unit's state: what more replies change.
proof fn lemma_state_resumes(t: Transcript, more: Seq<ReplyView>, unit: Seq<char>)
    ensures
        service::state_run(t, unit).resumed_by(service::state_run(t.knowing(more), unit), more),
{
    broadcast use group_runs;

}

/// Logging a unit's journal: what more replies change.
proof fn lemma_journal_resumes(t: Transcript, more: Seq<ReplyView>, unit: Seq<char>, as_root: bool)
    ensures
        service::journal_run(t, unit, as_root).resumed_by(
            service::journal_run(t.knowing(more), unit, as_root),
            more,
        ),
{
    broadcast use group_runs;

}

/// Failing a start: what more replies change.
proof fn lemma_failed_start_resumes(
    t: Transcript,
    more: Seq<ReplyView>,
    unit: Seq<char>,
    as_root: bool,
    message: Seq<char>,
)
    ensures
        service::failed_start_run(t, unit, as_root, message).resumed_by(
            service::failed_start_run(t.knowing(more), unit, as_root, message),
            more,
        ),
{
    broadcast use group_runs;

    lemma_journal_resumes(t, more, unit, as_root);
}

/// Having a unit started: what more replies change.
proof fn lemma_commanded_start_resumes(
    t: Transcript,
    more: Seq<ReplyView>,
    unit: Seq<char>,
    as_root: bool,
)
    ensures
        service::commanded_start_run(t, unit, as_root).resumed_by(
            service::commanded_start_run(t.knowing(more), unit, as_root),
            more,
        ),
{
    broadcast use group_runs;

    let started = t.outcome(
        RequestView::Interactive(service::action_command(unit, as_root, "start"@)),
    );
    let last = service::state_run(started.after, unit);
    lemma_state_resumes(started.after, more, unit);
    lemma_failed_start_resumes(
        started.after,
        more,
        unit,
        as_root,
        "could not start "@ + unit + ": "@ + started.value().exit_description(),
    );
    lemma_failed_start_resumes(
        last.after,
        more,
        unit,
        as_root,
        unit + " did not become active after start (state: "@ + last.value().name() + ")"@,
    );
}

/// Starting a unit: what more replies change.
proof fn lemma_start_resumes(t: Transcript, more: Seq<ReplyView>, unit: Seq<char>, as_root: bool)
    ensures
        service::start_run(t, unit, as_root).resumed_by(
            service::start_run(t.knowing(more), unit, as_root),
            more,
        ),
{
    broadcast use group_runs;

    let initial = service::state_run(t, unit);
    lemma_state_resumes(t, more, unit);
    let announced = initial.after.note(
        service::service_event(Level::Info, "starting service"@, unit).shown(
            "state"@,
            initial.value().name(),
        ),
    );
    lemma_commanded_start_resumes(announced.after, more, unit, as_root);
}

/// Having a unit stopped: what more replies change.
proof fn lemma_commanded_stop_resumes(
    t: Transcript,
    more: Seq<ReplyView>,
    unit: Seq<char>,
    as_root: bool,
)
    ensures
        service::commanded_stop_run(t, unit, as_root).resumed_by(
            service::commanded_stop_run(t.knowing(more), unit, as_root),
            more,
        ),
{
    broadcast use group_runs;

    let stopped = t.required(
        RequestView::Interactive(service::action_command(unit, as_root, "stop"@)),
        "stopping "@ + unit,
    );
    lemma_state_resumes(stopped.after, more, unit);
}

/// Stopping a unit: what more replies change.
proof fn lemma_stop_resumes(t: Transcript, more: Seq<ReplyView>, unit: Seq<char>, as_root: bool)
    ensures
        service::stop_run(t, unit, as_root).resumed_by(
            service::stop_run(t.knowing(more), unit, as_root),
            more,
        ),
{
    broadcast use group_runs;

    let initial = service::state_run(t, unit);
    lemma_state_resumes(t, more, unit);
    let announced = initial.after.note(
        service::service_event(Level::Info, "stopping service"@, unit).shown(
            "state"@,
            initial.value().name(),
        ),
    );
    lemma_commanded_stop_resumes(announced.after, more, unit, as_root);
}

/// Reading the running version: what more replies change.
proof fn lemma_running_version_resumes(
    t: Transcript,
    more: Seq<ReplyView>,
    unit: Seq<char>,
    as_root: bool,
)
    ensures
        service::running_version_run(t, unit, as_root).resumed_by(
            service::running_version_run(t.knowing(more), unit, as_root),
            more,
        ),
{
    broadcast use group_runs;

}

/// Checking the prerequisites: what more replies change.
proof fn lemma_prerequisites_resumes(
    t: Transcript,
    more: Seq<ReplyView>,
    repository: Seq<char>,
    config: Seq<char>,
)
    ensures
        configure::prerequisites_run(t, repository, config).resumed_by(
            configure::prerequisites_run(t.knowing(more), repository, config),
            more,
        ),
{
    broadcast use group_runs;

}

/// Configuring the host: what more replies change.
proof fn lemma_configure_resumes(
    t: Transcript,
    more: Seq<ReplyView>,
    repository: Seq<char>,
    config: Seq<char>,
)
    ensures
        configure::configure_run(t, repository, config).resumed_by(
            configure::configure_run(t.knowing(more), repository, config),
            more,
        ),
{
    broadcast use group_runs;

    lemma_prerequisites_resumes(t, more, repository, config);
}

/// The start segment: what more replies change.
proof fn lemma_start_segment_resumes(
    t: Transcript,
    more: Seq<ReplyView>,
    target: RestartTarget,
    earlier: Seq<RestartReport>,
)
    ensures
        restart::start_segment(t, target, earlier).resumed_by(
            restart::start_segment(t.knowing(more), target, earlier),
            more,
        ),
{
    broadcast use group_runs;

    let entered = restart::announced(t, "start"@);
    lemma_start_resumes(entered.after, more, target.unit, target.as_root);
}

/// The second configure segment and what follows: what more replies change.
proof fn lemma_second_configure_segment_resumes(
    t: Transcript,
    more: Seq<ReplyView>,
    target: RestartTarget,
    earlier: Seq<RestartReport>,
)
    ensures
        restart::second_configure_segment(t, target, earlier).resumed_by(
            restart::second_configure_segment(t.knowing(more), target, earlier),
            more,
        ),
{
    broadcast use group_runs;

    let entered = restart::announced(t, "configure 2/2"@);
    let configured = configure::configure_run(entered.after, target.repository, target.config);
    lemma_configure_resumes(entered.after, more, target.repository, target.config);
    lemma_start_segment_resumes(
        configured.after,
        more,
        target,
        earlier.push(RestartReport::Begun(RestartPhase::ConfigureSecond)),
    );
}

/// The first configure segment and what follows: what more replies change.
proof fn lemma_first_configure_segment_resumes(
    t: Transcript,
    more: Seq<ReplyView>,
    target: RestartTarget,
    earlier: Seq<RestartReport>,
)
    ensures
        restart::first_configure_segment(t, target, earlier).resumed_by(
            restart::first_configure_segment(t.knowing(more), target, earlier),
            more,
        ),
{
    broadcast use group_runs;

    let entered = restart::announced(t, "configure 1/2"@);
    let configured = configure::configure_run(entered.after, target.repository, target.config);
    lemma_configure_resumes(entered.after, more, target.repository, target.config);
    let reports = earlier.push(RestartReport::Begun(RestartPhase::ConfigureFirst));
    lemma_second_configure_segment_resumes(configured.after, more, target, reports);
    if let End::Failed(message) = configured.end {
        let warned = configured.after.note(restart::retry_event(message));
        lemma_second_configure_segment_resumes(
            warned.after,
            more,
            target,
            reports.push(RestartReport::ConfigureFirstFailed),
        );
    }
}

/// The stop segment and what follows: what more replies change.
proof fn lemma_stop_segment_resumes(t: Transcript, more: Seq<ReplyView>, target: RestartTarget)
    ensures
        restart::stop_segment(t, target).resumed_by(
            restart::stop_segment(t.knowing(more), target),
            more,
        ),
{
    broadcast use group_runs;

    let entered = restart::announced(t, "stop"@);
    let stopped = service::stop_run(entered.after, target.unit, target.as_root);
    lemma_stop_resumes(entered.after, more, target.unit, target.as_root);
    lemma_first_configure_segment_resumes(
        stopped.after,
        more,
        target,
        seq![RestartReport::Begun(RestartPhase::Stop)],
    );
}

/// Restarting: what more replies change.
proof fn lemma_restart_resumes(t: Transcript, more: Seq<ReplyView>, target: RestartTarget)
    ensures
        restart::restart_run(t, target).resumed_by(
            restart::restart_run(t.knowing(more), target),
            more,
        ),
{
    broadcast use group_runs;

    let checked = configure::prerequisites_run(t, target.repository, target.config);
    lemma_prerequisites_resumes(t, more, target.repository, target.config);
    let begun = checked.after.note(restart::restarting_event());
    lemma_stop_segment_resumes(begun.after, more, target);
}

/// Checking a working tree: what more replies change.
proof fn lemma_repository_resumes(t: Transcript, more: Seq<ReplyView>, repository: Seq<char>)
    ensures
        repository::repository_run(t, repository).resumed_by(
            repository::repository_run(t.knowing(more), repository),
            more,
        ),
{
    broadcast use group_runs;

}

/// Resolving a ref: what more replies change.
proof fn lemma_resolve_resumes(
    t: Transcript,
    more: Seq<ReplyView>,
    repository: Seq<char>,
    git_ref: Seq<char>,
    revisions: Seq<Seq<char>>,
)
    ensures
        repository::resolve_run(t, repository, git_ref, revisions).resumed_by(
            repository::resolve_run(t.knowing(more), repository, git_ref, revisions),
            more,
        ),
    decreases revisions.len(),
{
    broadcast use group_runs;

    if revisions.len() > 0 {
        let found = t.outcome(
            RequestView::Capture(repository::resolve_command(revisions[0], repository)),
        );
        lemma_resolve_resumes(found.after, more, repository, git_ref, revisions.drop_first());
    }
}

/// Listing leftover changes: what more replies change.
proof fn lemma_worktree_status_resumes(t: Transcript, more: Seq<ReplyView>, repository: Seq<char>)
    ensures
        repository::worktree_status_run(t, repository).resumed_by(
            repository::worktree_status_run(t.knowing(more), repository),
            more,
        ),
{
    broadcast use group_runs;

}

/// Running stages: what more replies change.
proof fn lemma_stages_resumes(t: Transcript, more: Seq<ReplyView>, stages: Seq<StageView>)
    ensures
        repository::stages_run(t, stages).resumed_by(
            repository::stages_run(t.knowing(more), stages),
            more,
        ),
    decreases stages.len(),
{
    broadcast use group_runs;

    if stages.len() > 0 {
        let first = t.required(
            RequestView::Streaming(stages[0].command),
            stages[0].description,
        );
        lemma_stages_resumes(first.after, more, stages.drop_first());
    }
}

/// Running a stage that may fail: what more replies change.
proof fn lemma_tolerated_resumes(t: Transcript, more: Seq<ReplyView>, stage: StageView)
    ensures
        repository::tolerated_run(t, stage).resumed_by(
            repository::tolerated_run(t.knowing(more), stage),
            more,
        ),
{
    broadcast use group_runs;

}

/// Discarding leftover changes: what more replies change.
proof fn lemma_reset_resumes(t: Transcript, more: Seq<ReplyView>, repository: Seq<char>)
    ensures
        repository::reset_run(t, repository).resumed_by(
            repository::reset_run(t.knowing(more), repository),
            more,
        ),
{
    broadcast use group_runs;

    let status = repository::worktree_status_run(t, repository);
    lemma_worktree_status_resumes(t, more, repository);
    let warned = status.after.note(repository::leftovers_event(status.value()));
    let discarded = repository::stages_run(
        warned.after,
        repository::discard_stages(repository),
    );
    lemma_stages_resumes(warned.after, more, repository::discard_stages(repository));
    let reset = repository::tolerated_run(
        discarded.after,
        repository::submodule_reset_stage(repository),
    );
    lemma_tolerated_resumes(discarded.after, more, repository::submodule_reset_stage(repository));
    lemma_tolerated_resumes(reset.after, more, repository::submodule_clean_stage(repository));
}

/// Installing dependencies: what more replies change.
proof fn lemma_deps_resumes(t: Transcript, more: Seq<ReplyView>, repository: Seq<char>)
    ensures
        repository::deps_run(t, repository).resumed_by(
            repository::deps_run(t.knowing(more), repository),
            more,
        ),
{
    broadcast use group_runs;

}

/// Moving to a commit: what more replies change.
proof fn lemma_move_resumes(
    t: Transcript,
    more: Seq<ReplyView>,
    repository: Seq<char>,
    commit: Seq<char>,
)
    ensures
        repository::move_run(t, repository, commit).resumed_by(
            repository::move_run(t.knowing(more), repository, commit),
            more,
        ),
{
    broadcast use group_runs;

    let head = t.outcome(RequestView::Capture(repository::head_command(repository)));
    let noted = if head.value().success && text::trimmed(head.value().stdout) == commit {
        head.after.note(repository::current_event(commit))
    } else {
        head.with(())
    };
    let reset = repository::reset_run(noted.after, repository);
    lemma_reset_resumes(noted.after, more, repository);
    let stages = repository::checkout_stages(repository, commit);
    let moved = repository::stages_run(reset.after, stages);
    lemma_stages_resumes(reset.after, more, stages);
    lemma_deps_resumes(moved.after, more, repository);
}

/// Locating a ref: what more replies change.
proof fn lemma_locate_resumes(
    t: Transcript,
    more: Seq<ReplyView>,
    repository: Seq<char>,
    git_ref: Seq<char>,
)
    ensures
        repository::locate_run(t, repository, git_ref).resumed_by(
            repository::locate_run(t.knowing(more), repository, git_ref),
            more,
        ),
{
    broadcast use group_runs;

    let checked = repository::repository_run(t, repository);
    lemma_repository_resumes(t, more, repository);
    let begun = checked.after.note(repository::fetch_event(repository, git_ref));
    let fetched = begun.after.required(
        RequestView::Streaming(repository::fetch_command(repository)),
        "git fetch"@,
    );
    let revisions = repository::candidates(git_ref);
    lemma_resolve_resumes(fetched.after, more, repository, git_ref, revisions);
}

/// Updating a checkout: what more replies change.
proof fn lemma_update_resumes(
    t: Transcript,
    more: Seq<ReplyView>,
    repository: Seq<char>,
    git_ref: Seq<char>,
)
    ensures
        repository::update_run(t, repository, git_ref).resumed_by(
            repository::update_run(t.knowing(more), repository, git_ref),
            more,
        ),
{
    broadcast use group_runs;

    let located = repository::locate_run(t, repository, git_ref);
    lemma_locate_resumes(t, more, repository, git_ref);
    lemma_move_resumes(located.after, more, repository, located.value());
}

/// Running make: what more replies change.
proof fn lemma_timed_make_resumes(
    t: Transcript,
    more: Seq<ReplyView>,
    repository: Seq<char>,
    started: u64,
)
    ensures
        repository::timed_make_run(t, repository, started).resumed_by(
            repository::timed_make_run(t.knowing(more), repository, started),
            more,
        ),
{
    broadcast use group_runs;

}

/// Building: what more replies change.
proof fn lemma_make_resumes(t: Transcript, more: Seq<ReplyView>, repository: Seq<char>)
    ensures
        repository::make_run(t, repository).resumed_by(
            repository::make_run(t.knowing(more), repository),
            more,
        ),
{
    broadcast use group_runs;

    let checked = repository::repository_run(t, repository);
    lemma_repository_resumes(t, more, repository);
    let build = process::path_in(repository, "build"@);
    let removed = checked.after.perform(RequestView::RemoveTree(build));
    let started = removed.after.now();
    let begun = started.after.note(repository::building_event(repository));
    lemma_timed_make_resumes(begun.after, more, repository, started.value());
}

/// Reading the built version: what more replies change.
proof fn lemma_built_version_resumes(t: Transcript, more: Seq<ReplyView>, repository: Seq<char>)
    ensures
        repository::built_version_run(t, repository).resumed_by(
            repository::built_version_run(t.knowing(more), repository),
            more,
        ),
{
    broadcast use group_runs;

}

/// Reading the GUI's URL: what more replies change.
proof fn lemma_url_resumes(t: Transcript, more: Seq<ReplyView>, config_path: Seq<char>)
    ensures
        monitor::url_run(t, config_path).resumed_by(
            monitor::url_run(t.knowing(more), config_path),
            more,
        ),
{
    broadcast use group_runs;

}

/// Checking that the GUI is on: what more replies change.
proof fn lemma_validate_resumes(t: Transcript, more: Seq<ReplyView>, config_path: Seq<char>)
    ensures
        monitor::validate_run(t, config_path).resumed_by(
            monitor::validate_run(t.knowing(more), config_path),
            more,
        ),
{
    broadcast use group_runs;

    lemma_url_resumes(t, more, config_path);
}

/// Waiting for the validator: what more replies change.
proof fn lemma_wait_resumes(t: Transcript, more: Seq<ReplyView>, config_path: Seq<char>)
    ensures
        monitor::wait_run(t, config_path).resumed_by(
            monitor::wait_run(t.knowing(more), config_path),
            more,
        ),
{
    broadcast use group_runs;

    lemma_url_resumes(t, more, config_path);
}

/// Watching the GUI: what more replies change.
proof fn lemma_monitor_resumes(
    t: Transcript,
    more: Seq<ReplyView>,
    config_path: Seq<char>,
    url_override: Option<Seq<char>>,
    all: bool,
)
    ensures
        monitor::monitor_run(t, config_path, url_override, all).resumed_by(
            monitor::monitor_run(t.knowing(more), config_path, url_override, all),
            more,
        ),
{
    broadcast use group_runs;

    lemma_url_resumes(t, more, config_path);
}

/// Trying to read a unit's state: what more replies change.
proof fn lemma_tried_state_resumes(t: Transcript, more: Seq<ReplyView>, unit: Seq<char>)
    ensures
        update_full::tried_state_run(t, unit).resumed_by(
            update_full::tried_state_run(t.knowing(more), unit),
            more,
        ),
{
    broadcast use group_runs;

    lemma_state_resumes(t, more, unit);
}

/// Making requests in order: what more replies change.
proof fn lemma_told_resumes(t: Transcript, more: Seq<ReplyView>, requests: Seq<RequestView>)
    ensures
        update_full::told_run(t, requests).resumed_by(
            update_full::told_run(t.knowing(more), requests),
            more,
        ),
    decreases requests.len(),
{
    broadcast use group_runs;

    if requests.len() > 0 {
        let first = t.tell(requests[0]);
        lemma_told_resumes(first.after, more, requests.drop_first());
    }
}

/// Reporting a failure: what more replies change.
proof fn lemma_reported_failure_resumes(
    t: Transcript,
    more: Seq<ReplyView>,
    requests: Seq<RequestView>,
    message: Seq<char>,
)
    ensures
        update_full::reported_failure_run::<()>(t, requests, message).resumed_by(
            update_full::reported_failure_run::<()>(t.knowing(more), requests, message),
            more,
        ),
{
    broadcast use group_runs;

    lemma_told_resumes(t, more, requests);
}

/// Reporting a failed stage: what more replies change.
proof fn lemma_failed_stage_resumes(
    t: Transcript,
    more: Seq<ReplyView>,
    reporter: ProgressReporterView,
    stage: Seq<char>,
    message: Seq<char>,
)
    ensures
        update_full::failed_stage_run(t, reporter, stage, message).resumed_by(
            update_full::failed_stage_run(t.knowing(more), reporter, stage, message),
            more,
        ),
{
    broadcast use group_runs;

    lemma_reported_failure_resumes(
        t,
        more,
        reporter.finish("failed"@) + reporter.print(
            reporter.failure_lines(stage, message, ServiceImpact::Unchanged, Seq::empty()),
        ),
        message,
    );
}

/// Waiting for readiness: what more replies change.
proof fn lemma_readiness_resumes(
    t: Transcript,
    more: Seq<ReplyView>,
    plan: UpdatePlan,
    started: u64,
    build_nanos: u64,
    final_state: Seq<char>,
)
    ensures
        update_full::readiness_run(t, plan, started, build_nanos, final_state).resumed_by(
            update_full::readiness_run(t.knowing(more), plan, started, build_nanos, final_state),
            more,
        ),
{
    broadcast use group_runs;

    let ready = monitor::wait_run(t, plan.paths.config);
    lemma_wait_resumes(t, more, plan.paths.config);
    if let End::Failed(message) = ready.end {
        lemma_reported_failure_resumes(
            ready.after,
            more,
            plan.reporter().print(
                plan.reporter().failure_lines(
                    "validator readiness"@,
                    message,
                    ServiceImpact::ReadinessUnknown,
                    Seq::empty(),
                ),
            ),
            message,
        );
    }
    let ended = ready.after.now();
    lemma_told_resumes(
        ended.after,
        more,
        plan.reporter().print(
            plan.reporter().success_lines(
                repository::elapsed(started, ended.value()),
                build_nanos,
                final_state,
            ),
        ),
    );
}

/// Reporting a failed restart: what more replies change.
proof fn lemma_failed_restart_resumes(
    t: Transcript,
    more: Seq<ReplyView>,
    plan: UpdatePlan,
    reports: Seq<RestartReport>,
    message: Seq<char>,
)
    ensures
        update_full::failed_restart_run(t, plan, reports, message).resumed_by(
            update_full::failed_restart_run(t.knowing(more), plan, reports, message),
            more,
        ),
{
    broadcast use group_runs;

    let first = update_full::tried_state_run(t, plan.unit);
    lemma_tried_state_resumes(t, more, plan.unit);
    let second = update_full::tried_state_run(first.after, plan.unit);
    lemma_tried_state_resumes(first.after, more, plan.unit);
    let segments = RestartProgressView::begun(plan.compact).after_reports(
        reports,
    ).marked_failed().finalized(second.value());
    lemma_reported_failure_resumes(
        second.after,
        more,
        plan.reporter().finish("failed"@) + plan.reporter().print(
            plan.reporter().failure_lines(
                "restart"@,
                message,
                update_full::restart_impact(first.value()),
                segments.lines(),
            ),
        ),
        message,
    );
}

/// The restart stage and what follows: what more replies change.
proof fn lemma_restart_stage_resumes(
    t: Transcript,
    more: Seq<ReplyView>,
    plan: UpdatePlan,
    started: u64,
    build_nanos: u64,
)
    ensures
        update_full::restart_stage_run(t, plan, started, build_nanos).resumed_by(
            update_full::restart_stage_run(t.knowing(more), plan, started, build_nanos),
            more,
        ),
{
    broadcast use group_runs;

    let entering = plan.reporter().stage("[3/3] Restart service"@);
    let begun = update_full::told_run(t, entering);
    lemma_told_resumes(t, more, entering);
    let restarted = restart::restart_run(begun.after, plan.restart_target());
    lemma_restart_resumes(begun.after, more, plan.restart_target());
    if let End::Failed(message) = restarted.run.end {
        lemma_failed_restart_resumes(
            restarted.run.after,
            more,
            plan,
            restarted.reports,
            message,
        );
    }
    let read = update_full::tried_state_run(restarted.run.after, plan.unit);
    lemma_tried_state_resumes(restarted.run.after, more, plan.unit);
    let segments = RestartProgressView::begun(plan.compact).after_reports(
        restarted.reports,
    ).completed(RestartPhase::Start).finalized(read.value());
    let leaving = plan.reporter().finish("done"@) + plan.reporter().print(
        segments.lines() + seq!["Wait for validator"@],
    );
    let told = update_full::told_run(read.after, leaving);
    lemma_told_resumes(read.after, more, leaving);
    lemma_readiness_resumes(
        told.after,
        more,
        plan,
        started,
        build_nanos,
        segments.final_state,
    );
}

/// The build stage: what more replies change.
proof fn lemma_build_stage_resumes(t: Transcript, more: Seq<ReplyView>, plan: UpdatePlan)
    ensures
        update_full::build_stage_run(t, plan).resumed_by(
            update_full::build_stage_run(t.knowing(more), plan),
            more,
        ),
{
    broadcast use group_runs;

    let entering = plan.reporter().stage("[2/3] Build Firedancer"@);
    let begun = update_full::told_run(t, entering);
    lemma_told_resumes(t, more, entering);
    let built = repository::make_run(begun.after, plan.paths.repository);
    lemma_make_resumes(begun.after, more, plan.paths.repository);
    if let End::Failed(message) = built.end {
        lemma_failed_stage_resumes(built.after, more, plan.reporter(), "build"@, message);
    }
    let leaving = plan.reporter().finish(
        "done ("@ + progress::duration_text((built.value() / 1_000_000_000) as u64) + ")"@,
    );
    lemma_told_resumes(built.after, more, leaving);
}

/// The update stage: what more replies change.
proof fn lemma_checkout_stage_resumes(t: Transcript, more: Seq<ReplyView>, plan: UpdatePlan)
    ensures
        update_full::checkout_stage_run(t, plan).resumed_by(
            update_full::checkout_stage_run(t.knowing(more), plan),
            more,
        ),
{
    broadcast use group_runs;

    let begun = update_full::told_run(t, plan.reporter().begin());
    lemma_told_resumes(t, more, plan.reporter().begin());
    let updated = repository::update_run(begun.after, plan.paths.repository, plan.git_ref);
    lemma_update_resumes(begun.after, more, plan.paths.repository, plan.git_ref);
    if let End::Failed(message) = updated.end {
        lemma_failed_stage_resumes(updated.after, more, plan.reporter(), "update"@, message);
    }
    lemma_told_resumes(updated.after, more, plan.reporter().finish("done"@));
}

/// Everything before the restart: what more replies change.
proof fn lemma_prepared_resumes(t: Transcript, more: Seq<ReplyView>, plan: UpdatePlan)
    ensures
        update_full::prepared_run(t, plan).resumed_by(
            update_full::prepared_run(t.knowing(more), plan),
            more,
        ),
{
    broadcast use group_runs;

    let started = t.now();
    let updated = update_full::checkout_stage_run(started.after, plan);
    lemma_checkout_stage_resumes(started.after, more, plan);
    lemma_build_stage_resumes(updated.after, more, plan);
}

/// Updating, building, and restarting: what more replies change.
proof fn lemma_update_stage_resumes(t: Transcript, more: Seq<ReplyView>, plan: UpdatePlan)
    ensures
        update_full::update_stage_run(t, plan).resumed_by(
            update_full::update_stage_run(t.knowing(more), plan),
            more,
        ),
{
    broadcast use group_runs;

    let prepared = update_full::prepared_run(t, plan);
    lemma_prepared_resumes(t, more, plan);
    lemma_restart_stage_resumes(
        prepared.after,
        more,
        plan,
        prepared.value().0,
        prepared.value().1,
    );
}

/// Updating quietly: what more replies change.
proof fn lemma_quiet_resumes(t: Transcript, more: Seq<ReplyView>, plan: UpdatePlan)
    ensures
        update_full::quiet_run(t, plan).resumed_by(
            update_full::quiet_run(t.knowing(more), plan),
            more,
        ),
{
    broadcast use group_runs;

    let quiet = t.tell(RequestView::CompactOutput(true));
    lemma_update_stage_resumes(quiet.after, more, plan);
}

/// A full update: what more replies change.
proof fn lemma_update_full_resumes(t: Transcript, more: Seq<ReplyView>, plan: UpdatePlan)
    ensures
        update_full::update_full_run(t, plan).resumed_by(
            update_full::update_full_run(t.knowing(more), plan),
            more,
        ),
{
    broadcast use group_runs;

    let checked = monitor::validate_run(t, plan.paths.config);
    lemma_validate_resumes(t, more, plan.paths.config);
    lemma_quiet_resumes(checked.after, more, plan);
    lemma_update_stage_resumes(checked.after, more, plan);
}

/// Checking a keypair's permissions: what more replies change.
proof fn lemma_permissions_resumes(t: Transcript, more: Seq<ReplyView>, path: Seq<char>)
    ensures
        status::permissions_run(t, path).resumed_by(
            status::permissions_run(t.knowing(more), path),
            more,
        ),
{
    broadcast use group_runs;

}

/// Loading the report: what more replies change.
proof fn lemma_load_resumes(
    t: Transcript,
    more: Seq<ReplyView>,
    paths: AppPathsView,
    facts: ServiceFacts,
)
    ensures
        status::load_run(t, paths, facts).resumed_by(
            status::load_run(t.knowing(more), paths, facts),
            more,
        ),
{
    broadcast use group_runs;

    let read = t.text(RequestView::ReadText(paths.config));
    let parsed = read.after.config(read.value());
    let identity = status::identity_path(parsed.value(), paths.username);
    lemma_permissions_resumes(parsed.after, more, identity);
}

/// Asking for the startup phase: what more replies change.
proof fn lemma_phase_resumes(t: Transcript, more: Seq<ReplyView>, config_path: Seq<char>)
    ensures
        status::phase_run(t, config_path).resumed_by(
            status::phase_run(t.knowing(more), config_path),
            more,
        ),
{
    broadcast use group_runs;

    lemma_url_resumes(t, more, config_path);
}

/// Collecting the report: what more replies change.
proof fn lemma_collect_resumes(
    t: Transcript,
    more: Seq<ReplyView>,
    paths: AppPathsView,
    facts: ServiceFacts,
)
    ensures
        status::collect_run(t, paths, facts).resumed_by(
            status::collect_run(t.knowing(more), paths, facts),
            more,
        ),
{
    broadcast use group_runs;

    let loaded = status::load_run(t, paths, facts);
    lemma_load_resumes(t, more, paths, facts);
    lemma_phase_resumes(loaded.after, more, paths.config);
}

/// Reading whom sudo was used by: what more replies change.
proof fn lemma_sudo_user_resumes(t: Transcript, more: Seq<ReplyView>)
    ensures
        paths::sudo_user_run(t).resumed_by(paths::sudo_user_run(t.knowing(more)), more),
{
    broadcast use group_runs;

}

/// Resolving the operator's name: what more replies change.
proof fn lemma_username_resumes(t: Transcript, more: Seq<ReplyView>)
    ensures
        paths::username_run(t).resumed_by(paths::username_run(t.knowing(more)), more),
{
    broadcast use group_runs;

    lemma_sudo_user_resumes(t, more);
}

/// Resolving the operator's home: what more replies change.
proof fn lemma_home_resumes(t: Transcript, more: Seq<ReplyView>, username: Seq<char>)
    ensures
        paths::home_run(t, username).resumed_by(paths::home_run(t.knowing(more), username), more),
{
    broadcast use group_runs;

    lemma_sudo_user_resumes(t, more);
}

/// Making a path absolute: what more replies change.
proof fn lemma_absolute_resumes(t: Transcript, more: Seq<ReplyView>, path: Seq<char>)
    ensures
        paths::absolute_run(t, path).resumed_by(paths::absolute_run(t.knowing(more), path), more),
{
    broadcast use group_runs;

}

/// Resolving the base path: what more replies change.
proof fn lemma_base_resumes(
    t: Transcript,
    more: Seq<ReplyView>,
    given: Option<Seq<char>>,
    username: Seq<char>,
)
    ensures
        paths::base_run(t, given, username).resumed_by(
            paths::base_run(t.knowing(more), given, username),
            more,
        ),
{
    broadcast use group_runs;

    if let Some(path) = given {
        lemma_absolute_resumes(t, more, path);
    }
    let home = paths::home_run(t, username);
    lemma_home_resumes(t, more, username);
    lemma_absolute_resumes(home.after, more, home.value());
}

/// Resolving every path: what more replies change.
proof fn lemma_resolve_paths_resumes(
    t: Transcript,
    more: Seq<ReplyView>,
    service: Seq<char>,
    options: PathOptions,
)
    ensures
        paths::resolve_run(t, service, options).resumed_by(
            paths::resolve_run(t.knowing(more), service, options),
            more,
        ),
{
    broadcast use group_runs;

    let username = paths::username_run(t);
    lemma_username_resumes(t, more);
    let base = paths::base_run(username.after, options.base_path, username.value());
    lemma_base_resumes(username.after, more, options.base_path, username.value());
    let below_repository = paths::given_or_below(
        options.repo_path,
        base.value(),
        "code/firedancer"@,
    );
    let repository = paths::absolute_run(base.after, below_repository);
    lemma_absolute_resumes(base.after, more, below_repository);
    let below_config = paths::given_or_below(
        options.config,
        base.value(),
        "active-fd-config.toml"@,
    );
    let config = paths::absolute_run(repository.after, below_config);
    lemma_absolute_resumes(repository.after, more, below_config);
    let below_logs = paths::given_or_below(options.log_dir, base.value(), "logs"@);
    lemma_absolute_resumes(config.after, more, below_logs);
}

/// Leaving root: what more replies change.
proof fn lemma_reexec_resumes(
    t: Transcript,
    more: Seq<ReplyView>,
    root: bool,
    command: Commands,
    arguments: Seq<Seq<char>>,
)
    ensures
        privilege::reexec_run(t, root, command, arguments).resumed_by(
            privilege::reexec_run(t.knowing(more), root, command, arguments),
            more,
        ),
{
    broadcast use group_runs;

    lemma_sudo_user_resumes(t, more);
}

/// Taking a lock: what more replies change.
proof fn lemma_take_resumes(t: Transcript, more: Seq<ReplyView>, path: Seq<char>)
    ensures
        lock::take_run(t, path).resumed_by(lock::take_run(t.knowing(more), path), more),
{
    broadcast use group_runs;

}

/// Acquiring the command lock: what more replies change.
proof fn lemma_acquire_resumes(t: Transcript, more: Seq<ReplyView>, base: Seq<char>)
    ensures
        lock::acquire_run(t, base).resumed_by(lock::acquire_run(t.knowing(more), base), more),
{
    broadcast use group_runs;

    let path = lock::lock_path(base);
    let seen = t.inspect(base);
    let open = seen.after.perform(RequestView::OpenLock(path));
    let secured = open.after.perform(RequestView::SecureLock(path));
    lemma_take_resumes(secured.after, more, path);
}

/// Reporting the status: what more replies change.
proof fn lemma_report_status_resumes(
    t: Transcript,
    more: Seq<ReplyView>,
    paths: AppPathsView,
    unit: Seq<char>,
    root: bool,
    json: bool,
)
    ensures
        dispatch::status_run(t, paths, unit, root, json).resumed_by(
            dispatch::status_run(t.knowing(more), paths, unit, root, json),
            more,
        ),
{
    broadcast use group_runs;

    let state = service::state_run(t, unit);
    lemma_state_resumes(t, more, unit);
    let running = service::running_version_run(state.after, unit, root);
    lemma_running_version_resumes(state.after, more, unit, root);
    let built = repository::built_version_run(running.after, paths.repository);
    lemma_built_version_resumes(running.after, more, paths.repository);
    let facts = ServiceFacts {
        state: state.value(),
        running: running.value(),
        built: built.value(),
    };
    lemma_collect_resumes(built.after, more, paths, facts);
}

/// Running a command can be repeated over more replies: a run that waits has made one request
/// that is not answered, a repeated run makes the same requests first, and a run that ended ends
/// the same way again.
pub proof fn law_a_command_resumes(
    t: Transcript,
    more: Seq<ReplyView>,
    cli: Cli,
    paths: AppPathsView,
    root: bool,
)
    ensures
        dispatch::dispatch_run(t, cli, paths, root).resumed_by(
            dispatch::dispatch_run(t.knowing(more), cli, paths, root),
            more,
        ),
        dispatch::dispatch_run(t, cli, paths, root).starts_at(t),
{
    broadcast use group_runs;

    reveal(dispatch::dispatch_run);
    match cli.command {
        Commands::UpdateFiredancer { git_ref } => {
            lemma_update_resumes(t, more, paths.repository, git_ref@);
        },
        Commands::UpdateFull { git_ref } => {
            lemma_update_full_resumes(t, more, dispatch::full_plan(cli, paths, root, git_ref@));
        },
        Commands::MakeFiredancer => {
            lemma_make_resumes(t, more, paths.repository);
        },
        Commands::ConfigureFiredancer => {
            lemma_configure_resumes(t, more, paths.repository, paths.config);
        },
        Commands::StartFiredancer => {
            lemma_start_resumes(t, more, cli.service@, root);
        },
        Commands::StopFiredancer => {
            lemma_stop_resumes(t, more, cli.service@, root);
        },
        Commands::RestartFiredancer => {
            lemma_restart_resumes(t, more, dispatch::target(cli, paths, root));
        },
        Commands::Status { json } => {
            lemma_report_status_resumes(t, more, paths, cli.service@, root, json);
        },
        Commands::Monitor { all, url } => {
            lemma_monitor_resumes(t, more, paths.config, process::maybe_text(url), all);
        },
    }
}

/// Complaining: what more replies change.
proof fn lemma_complained_resumes(t: Transcript, more: Seq<ReplyView>, message: Seq<char>)
    ensures
        dispatch::complained_run(t, message).resumed_by(
            dispatch::complained_run(t.knowing(more), message),
            more,
        ),
{
    broadcast use group_runs;

}

/// Running a command in the log: what more replies change.
proof fn lemma_logged_resumes(
    t: Transcript,
    more: Seq<ReplyView>,
    cli: Cli,
    paths: AppPathsView,
    root: bool,
)
    ensures
        dispatch::logged_run(t, cli, paths, root).resumed_by(
            dispatch::logged_run(t.knowing(more), cli, paths, root),
            more,
        ),
{
    broadcast use group_runs;

    let started = t.note(dispatch::started_event(cli.command.called(), paths.base));
    law_a_command_resumes(started.after, more, cli, paths, root);
}

/// Taking the lock: what more replies change.
proof fn lemma_locked_resumes(
    t: Transcript,
    more: Seq<ReplyView>,
    command: Commands,
    base: Seq<char>,
)
    ensures
        dispatch::locked_run(t, command, base).resumed_by(
            dispatch::locked_run(t.knowing(more), command, base),
            more,
        ),
{
    broadcast use group_runs;

    lemma_acquire_resumes(t, more, base);
}

/// What follows the resolved paths: what more replies change.
proof fn lemma_placed_resumes(
    t: Transcript,
    more: Seq<ReplyView>,
    cli: Cli,
    paths: AppPathsView,
    root: bool,
)
    ensures
        dispatch::placed_run(t, cli, paths, root).resumed_by(
            dispatch::placed_run(t.knowing(more), cli, paths, root),
            more,
        ),
{
    broadcast use group_runs;

    let locked = dispatch::locked_run(t, cli.command, paths.base);
    lemma_locked_resumes(t, more, cli.command, paths.base);
    if let End::Failed(message) = locked.end {
        lemma_complained_resumes(locked.after, more, message);
    }
    let logging = locked.after.perform(
        RequestView::StartLogging(paths.log_dir, cli.verbose, cli.shows_compactly()),
    );
    if let End::Failed(message) = logging.end {
        lemma_complained_resumes(logging.after, more, message);
    }
    lemma_logged_resumes(logging.after, more, cli, paths, root);
}

/// Running the program can be repeated over more replies: a run that waits has made one request
/// that is not answered, a repeated run makes the same requests first, and a run that ended ends
/// the same way again.
pub proof fn law_the_program_resumes(
    t: Transcript,
    more: Seq<ReplyView>,
    cli: Cli,
    arguments: Seq<Seq<char>>,
    root: bool,
)
    ensures
        dispatch::program_run(t, cli, arguments, root).resumed_by(
            dispatch::program_run(t.knowing(more), cli, arguments, root),
            more,
        ),
        dispatch::program_run(t, cli, arguments, root).starts_at(t),
{
    broadcast use group_runs;

    let left = privilege::reexec_run(t, root, cli.command, arguments);
    lemma_reexec_resumes(t, more, root, cli.command, arguments);
    if let End::Failed(message) = left.end {
        lemma_complained_resumes(left.after, more, message);
    }
    let resolved = paths::resolve_run(left.after, cli.service@, cli.path_options());
    lemma_resolve_paths_resumes(left.after, more, cli.service@, cli.path_options());
    if let End::Failed(message) = resolved.end {
        lemma_complained_resumes(resolved.after, more, message);
    }
    lemma_placed_resumes(resolved.after, more, cli, resolved.value(), root);
}

} // verus!
