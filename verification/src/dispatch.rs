//! Running the program: leaving root, resolving paths, locking, logging, and command dispatch.

use vstd::prelude::*;

use crate::cli::{Cli, Commands};
use crate::configure;
use crate::configure::configure_firedancer;
use crate::lock;
use crate::lock::CommandLock;
use crate::logging::{Level, LogEvent, LogEventView};
use crate::monitor;
use crate::paths;
use crate::paths::{AppPaths, AppPathsView};
use crate::privilege;
use crate::privilege::reexec_as_validator_user_if_needed;
use crate::process;
use crate::repository;
use crate::repository::{built_fdctl_version, make_firedancer, update_firedancer};
use crate::restart;
use crate::restart::{restart_firedancer, RestartTarget};
use crate::service;
use crate::service::{ServiceManager, ServiceState};
use crate::session::{End, Halt, ReplyView, Request, RequestView, Run, Session, Transcript};
use crate::status;
use crate::status::{ServiceFacts, StatusReport};
use crate::text;
use crate::update_full;
use crate::update_full::{update_full, UpdatePlan};

verus! {

/// Reporting the status: read the service's state and the two versions, collect the report, and
/// show it.
pub open spec fn status_run(
    t: Transcript,
    paths: AppPathsView,
    unit: Seq<char>,
    root: bool,
    json: bool,
) -> Run<()> {
    let state = service::state_run(t, unit);
    if !state.done() {
        state.stop()
    } else {
        let running = service::running_version_run(state.after, unit, root);
        if !running.done() {
            running.stop()
        } else {
            let built = repository::built_version_run(running.after, paths.repository);
            if !built.done() {
                built.stop()
            } else {
                let report = status::collect_run(
                    built.after,
                    paths,
                    ServiceFacts {
                        state: state.value(),
                        running: running.value(),
                        built: built.value(),
                    },
                );
                if !report.done() {
                    report.stop()
                } else {
                    report.after.perform(RequestView::ShowStatus(report.value(), json))
                }
            }
        }
    }
}

/// What a full update acts on.
pub open spec fn full_plan(
    cli: Cli,
    paths: AppPathsView,
    root: bool,
    git_ref: Seq<char>,
) -> UpdatePlan {
    UpdatePlan {
        paths,
        unit: cli.service@,
        as_root: root,
        git_ref,
        service_name: cli.service@,
        compact: cli.verbose == 0,
    }
}

/// What a restart acts on.
pub open spec fn target(cli: Cli, paths: AppPathsView, root: bool) -> RestartTarget {
    RestartTarget {
        unit: cli.service@,
        as_root: root,
        repository: paths.repository,
        config: paths.config,
    }
}

/// Running a command.
#[verifier::opaque]
pub open spec fn dispatch_run(t: Transcript, cli: Cli, paths: AppPathsView, root: bool) -> Run<()> {
    match cli.command {
        Commands::UpdateFiredancer { git_ref } => repository::update_run(
            t,
            paths.repository,
            git_ref@,
        ),
        Commands::UpdateFull { git_ref } => update_full::update_full_run(
            t,
            full_plan(cli, paths, root, git_ref@),
        ),
        Commands::MakeFiredancer => repository::make_run(t, paths.repository).with(()),
        Commands::ConfigureFiredancer => configure::configure_run(
            t,
            paths.repository,
            paths.config,
        ),
        Commands::StartFiredancer => service::start_run(t, cli.service@, root).with(()),
        Commands::StopFiredancer => service::stop_run(t, cli.service@, root).with(()),
        Commands::RestartFiredancer => restart::restart_run(t, target(cli, paths, root)).run,
        Commands::Status { json } => status_run(t, paths, cli.service@, root, json),
        Commands::Monitor { all, url } => monitor::monitor_run(
            t,
            paths.config,
            process::maybe_text(url),
            all,
        ),
    }
}

/// Reports the status.
fn report_status(session: &mut Session, service: &ServiceManager, paths: &AppPaths, json: bool) -> (
shown: Result<(), Halt>)
    ensures
        final(session)@ == status_run(
            old(session)@,
            paths@,
            service.unit@,
            service.run_as_root,
            json,
        ).after,
        status_run(old(session)@, paths@, service.unit@, service.run_as_root, json).end == (
        match shown {
            Ok(_) => End::Done(()),
            Err(halt) => halt.end(),
        }),
{
    let state: ServiceState = service.state(session)?;
    let running: Option<String> = service.running_fdctl_version(session)?;
    let built: Option<String> = built_fdctl_version(session, paths.repository.as_str())?;
    let report: StatusReport = StatusReport::collect(session, paths, state, running, built)?;
    session.perform(Request::ShowStatus(report, json))
}

/// Routes the selected subcommand to its implementation.
pub fn dispatch(session: &mut Session, cli: &Cli, paths: &AppPaths, root: bool) -> (ran: Result<
    (),
    Halt,
>)
    ensures
        final(session)@ == dispatch_run(old(session)@, *cli, paths@, root).after,
        dispatch_run(old(session)@, *cli, paths@, root).end == (match ran {
            Ok(_) => End::Done(()),
            Err(halt) => halt.end(),
        }),
{
    proof {
        reveal(dispatch_run);
    }
    let service: ServiceManager = ServiceManager::new(cli.service.as_str(), root);
    let repository: &str = paths.repository.as_str();
    let config: &str = paths.config.as_str();
    match &cli.command {
        Commands::UpdateFiredancer { git_ref } => update_firedancer(
            session,
            repository,
            git_ref.as_str(),
        ),
        Commands::UpdateFull { git_ref } => update_full(
            session,
            &service,
            paths,
            git_ref.as_str(),
            cli.service.as_str(),
            cli.verbose == 0,
        ),
        Commands::MakeFiredancer => {
            let _duration: u64 = make_firedancer(session, repository)?;
            Ok(())
        },
        Commands::ConfigureFiredancer => configure_firedancer(session, repository, config),
        Commands::StartFiredancer => {
            let _started: bool = service.start(session)?;
            Ok(())
        },
        Commands::StopFiredancer => {
            let _stopped: bool = service.stop(session)?;
            Ok(())
        },
        Commands::RestartFiredancer => restart_firedancer(session, &service, repository, config),
        Commands::Status { json } => report_status(session, &service, paths, *json),
        Commands::Monitor { all, url } => monitor::run(session, config, url, *all),
    }
}

/// An error from before logging has started: it is printed and ends the run.
pub open spec fn complained_run(t: Transcript, message: Seq<char>) -> Run<()> {
    let told = t.tell(RequestView::Complain(message));
    if !told.done() {
        told
    } else {
        Run { after: told.after, end: End::Failed(message) }
    }
}

/// An event that is about a command.
pub open spec fn command_event(level: Level, message: Seq<char>, name: Seq<char>) -> LogEventView {
    LogEventView::new(level, "val"@, message).text("command"@, name)
}

/// What is logged before a command.
pub open spec fn started_event(name: Seq<char>, base: Seq<char>) -> LogEventView {
    command_event(Level::Info, "val command started"@, name).shown("base_path"@, base)
}

/// Running a command with its start and its end in the log.
pub open spec fn logged_run(t: Transcript, cli: Cli, paths: AppPathsView, root: bool) -> Run<()> {
    let name = cli.command.called();
    let started = t.note(started_event(name, paths.base));
    if !started.done() {
        started
    } else {
        let ran = dispatch_run(started.after, cli, paths, root);
        match ran.end {
            End::Waiting => ran,
            End::Done(_) => ran.after.note(
                command_event(Level::Info, "val command completed"@, name),
            ),
            End::Failed(message) => {
                let told = ran.after.note(
                    command_event(Level::Error, "val command failed"@, name).shown(
                        "error"@,
                        message,
                    ),
                );
                if !told.done() {
                    told
                } else {
                    Run { after: told.after, end: End::Failed(message) }
                }
            },
        }
    }
}

/// Taking the command lock, if the command takes it.
pub open spec fn locked_run(t: Transcript, command: Commands, base: Seq<char>) -> Run<()> {
    if command.locks() {
        lock::acquire_run(t, base).with(())
    } else {
        Run { after: t, end: End::Done(()) }
    }
}

/// What follows once the paths are resolved: take the lock, start logging, and run the command.
pub open spec fn placed_run(t: Transcript, cli: Cli, paths: AppPathsView, root: bool) -> Run<()> {
    let locked = locked_run(t, cli.command, paths.base);
    match locked.end {
        End::Waiting => locked,
        End::Failed(message) => complained_run(locked.after, message),
        End::Done(_) => {
            let logging = locked.after.perform(
                RequestView::StartLogging(paths.log_dir, cli.verbose, cli.shows_compactly()),
            );
            match logging.end {
                End::Waiting => logging,
                End::Failed(message) => complained_run(logging.after, message),
                End::Done(_) => logged_run(logging.after, cli, paths, root),
            }
        },
    }
}

/// The whole program: leave root, resolve the paths, take the lock, start logging, and run the
/// command.
pub open spec fn program_run(
    t: Transcript,
    cli: Cli,
    arguments: Seq<Seq<char>>,
    root: bool,
) -> Run<()> {
    let left = privilege::reexec_run(t, root, cli.command, arguments);
    match left.end {
        End::Waiting => left,
        End::Failed(message) => complained_run(left.after, message),
        End::Done(_) => {
            let resolved = paths::resolve_run(left.after, cli.service@, cli.path_options());
            match resolved.end {
                End::Waiting => resolved.stop(),
                End::Failed(message) => complained_run(resolved.after, message),
                End::Done(found) => placed_run(resolved.after, cli, found, root),
            }
        },
    }
}

/// Prints an error from before logging has started, and ends the run.
fn complain(session: &mut Session, halt: Halt) -> (ended: Halt)
    ensures
        (match halt {
            Halt::Waiting => final(session)@ == old(session)@ && ended is Waiting,
            Halt::Failed(failure) => {
                &&& final(session)@ == complained_run(old(session)@, failure@).after
                &&& complained_run(old(session)@, failure@).end == ended.end::<()>()
            },
        }),
{
    match halt {
        Halt::Waiting => Halt::Waiting,
        Halt::Failed(failure) => match session.tell(Request::Complain(failure.message.clone())) {
            Ok(_) => Halt::Failed(failure),
            Err(waiting) => waiting,
        },
    }
}

/// Runs a command with its start and its end in the log.
fn run_logged(session: &mut Session, cli: &Cli, paths: &AppPaths, root: bool) -> (ran: Result<
    (),
    Halt,
>)
    ensures
        final(session)@ == logged_run(old(session)@, *cli, paths@, root).after,
        logged_run(old(session)@, *cli, paths@, root).end == (match ran {
            Ok(_) => End::Done(()),
            Err(halt) => halt.end(),
        }),
{
    let name: &str = cli.command.name();
    session.note(
        LogEvent::new(Level::Info, "val", "val command started").text("command", name).shown(
            "base_path",
            paths.base.as_str(),
        ),
    )?;
    match dispatch(session, cli, paths, root) {
        Ok(_) => session.note(
            LogEvent::new(Level::Info, "val", "val command completed").text("command", name),
        ),
        Err(Halt::Waiting) => Err(Halt::Waiting),
        Err(Halt::Failed(failure)) => {
            session.note(
                LogEvent::new(Level::Error, "val", "val command failed").text(
                    "command",
                    name,
                ).shown("error", failure.message.as_str()),
            )?;
            Err(Halt::Failed(failure))
        },
    }
}

/// Takes the command lock, if the command takes it.
fn take_lock(session: &mut Session, command: &Commands, base: &str) -> (locked: Result<(), Halt>)
    ensures
        final(session)@ == locked_run(old(session)@, *command, base@).after,
        locked_run(old(session)@, *command, base@).end == (match locked {
            Ok(_) => End::Done(()),
            Err(halt) => halt.end(),
        }),
{
    if command.holds_command_lock() {
        let _lock: CommandLock = CommandLock::acquire(session, base)?;
    }
    Ok(())
}

/// Initializes runtime services and executes one command.
pub fn run_program(session: &mut Session, cli: &Cli, arguments: &Vec<String>, root: bool) -> (ran:
    Result<(), Halt>)
    ensures
        final(session)@ == program_run(
            old(session)@,
            *cli,
            text::texts(arguments@),
            root,
        ).after,
        program_run(old(session)@, *cli, text::texts(arguments@), root).end == (match ran {
            Ok(_) => End::Done(()),
            Err(halt) => halt.end(),
        }),
{
    match reexec_as_validator_user_if_needed(session, root, &cli.command, arguments) {
        Ok(_) => {},
        Err(halt) => {
            return Err(complain(session, halt));
        },
    }
    let paths: AppPaths = match AppPaths::resolve(session, cli) {
        Ok(paths) => paths,
        Err(halt) => {
            return Err(complain(session, halt));
        },
    };
    match take_lock(session, &cli.command, paths.base.as_str()) {
        Ok(_) => {},
        Err(halt) => {
            return Err(complain(session, halt));
        },
    }
    let logging: Request = Request::StartLogging(
        paths.log_dir.clone(),
        cli.verbose,
        cli.compact_terminal(),
    );
    match session.perform(logging) {
        Ok(_) => {},
        Err(halt) => {
            return Err(complain(session, halt));
        },
    }
    run_logged(session, cli, &paths, root)
}

/// Everything before the logs are open is in order: commands that exclude each other take the lock of
/// the base path, watching takes none, and only then are the logs opened, in the log directory and as
/// verbose as was asked for. An error up to there is printed and ends the program with that error.
pub proof fn law_the_lock_comes_before_the_logs(
    t: Transcript,
    cli: Cli,
    paths: AppPathsView,
    root: bool,
)
    ensures
        ({
            let run = placed_run(t, cli, paths, root);
            let locked = lock::acquire_run(t, paths.base);
            let start = if cli.command is Monitor {
                t
            } else {
                locked.after
            };
            let opened = start.ask(
                RequestView::StartLogging(
                    paths.log_dir,
                    cli.verbose,
                    cli.verbose == 0 && (cli.command is UpdateFull || cli.command is Monitor),
                ),
            );
            &&& !(cli.command is Monitor) ==> (locked.end matches End::Failed(message)
                ==> run.after.asked == locked.after.asked.push(RequestView::Complain(message)) && (
            locked.after.reply() is Some ==> run.end == End::<()>::Failed(message)))
            &&& !(cli.command is Monitor) && locked.end is Waiting ==> run.after == locked.after
                && run.end is Waiting
            &&& cli.command is Monitor || locked.done() ==> {
                &&& start.reply() == Some(ReplyView::Done) ==> run == logged_run(
                    opened,
                    cli,
                    paths,
                    root,
                )
                &&& start.reply() matches Some(ReplyView::Error(message)) ==> run.after.asked
                    == opened.asked.push(RequestView::Complain(message)) && (opened.reply() is Some
                    ==> run.end == End::<()>::Failed(message))
                &&& start.reply() is None ==> run.after == opened && run.end is Waiting
            }
        }),
{
}

/// The program leaves root first, then finds its paths from the options, and then runs the command
/// with them. An error in finding them is printed and ends the program with that error.
pub proof fn law_root_is_left_before_paths_are_found(
    t: Transcript,
    cli: Cli,
    arguments: Seq<Seq<char>>,
    root: bool,
)
    ensures
        ({
            let run = program_run(t, cli, arguments, root);
            let left = privilege::reexec_run(t, root, cli.command, arguments);
            let found = paths::resolve_run(left.after, cli.service@, cli.path_options());
            &&& left.done() && found.done() ==> run == placed_run(
                found.after,
                cli,
                found.value(),
                root,
            )
            &&& left.end matches End::Failed(message) ==> run.after.asked == left.after.asked.push(
                RequestView::Complain(message),
            )
            &&& left.done() ==> (found.end matches End::Failed(message) ==> run.after.asked
                == found.after.asked.push(RequestView::Complain(message)))
            &&& run.done() ==> left.done() && found.done()
        }),
{
}

/// A full update and a restart act on the service that the options name and on the checkout and the
/// configuration of the paths, with the rights that the program has. A full update is compact unless
/// more logging was asked for.
pub proof fn law_commands_act_on_what_the_options_name(
    cli: Cli,
    paths: AppPathsView,
    root: bool,
    git_ref: Seq<char>,
)
    ensures
        ({
            let plan = full_plan(cli, paths, root, git_ref);
            &&& plan.paths == paths
            &&& plan.unit == cli.service@
            &&& plan.service_name == cli.service@
            &&& plan.as_root == root
            &&& plan.git_ref == git_ref
            &&& plan.compact <==> cli.verbose == 0
        }),
        ({
            let acted_on = target(cli, paths, root);
            &&& acted_on.unit == cli.service@
            &&& acted_on.as_root == root
            &&& acted_on.repository == paths.repository
            &&& acted_on.config == paths.config
        }),
{
}

} // verus!
