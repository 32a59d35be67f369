//! Firedancer host configuration.

use vstd::prelude::*;

use crate::logging::{FieldValueView, FieldView, Level, LogEvent, LogEventView};
use crate::process::{executable_in, CommandOutcome, CommandSpec, CommandSpecView};
use crate::process;
use crate::session::{
    with_context, End, Failure, Halt, Inspected, InspectedView, ReplyView, Request, RequestView,
    Run, Session, Transcript,
};
use crate::session;
use crate::text::join2;

verus! {

/// The built `fdctl` of a checkout.
pub open spec fn fdctl_path(repository: Seq<char>) -> Seq<char> {
    process::path_in(repository, "build/native/gcc/bin/fdctl"@)
}

/// Checking that `fdctl` can be run and that the configuration is a file.
pub open spec fn prerequisites_run(
    t: Transcript,
    repository: Seq<char>,
    config: Seq<char>,
) -> Run<()> {
    let fdctl = fdctl_path(repository);
    let binary = t.inspect(fdctl);
    if !binary.done() {
        binary.stop()
    } else {
        match binary.value() {
            InspectedView::Present(facts) => if !facts.runnable() {
                Run { after: binary.after, end: End::Failed("fdctl is not executable: "@ + fdctl) }
            } else {
                let file = binary.after.inspect(config);
                if !file.done() {
                    file.stop()
                } else {
                    match file.value() {
                        InspectedView::Present(found) => if found.is_file {
                            file.with(())
                        } else {
                            Run {
                                after: file.after,
                                end: End::Failed("Firedancer config is not a file: "@ + config),
                            }
                        },
                        InspectedView::Absent(text) | InspectedView::Unreadable(text) => Run {
                            after: file.after,
                            end: End::Failed(
                                session::in_context(
                                    "Firedancer config not found: "@ + config,
                                    text,
                                ),
                            ),
                        },
                    }
                }
            },
            InspectedView::Absent(text) | InspectedView::Unreadable(text) => Run {
                after: binary.after,
                end: End::Failed(session::in_context("fdctl binary not found: "@ + fdctl, text)),
            },
        }
    }
}

/// The command that initializes every host configuration stage.
pub open spec fn configure_command(
    repository: Seq<char>,
    config: Seq<char>,
) -> CommandSpecView {
    CommandSpecView::in_directory(
        "sudo"@,
        seq![
            "--"@,
            fdctl_path(repository),
            "configure"@,
            "init"@,
            "all"@,
            "--config"@,
            config,
        ],
        repository,
    )
}

/// What is logged before the host is configured.
pub open spec fn configuring_event(config: Seq<char>) -> LogEventView {
    LogEventView::new(Level::Info, "val::configure"@, "configuring Firedancer host"@).shown(
        "config"@,
        config,
    )
}

/// Configuring the host: the prerequisites hold, and then `fdctl configure` succeeds.
pub open spec fn configure_run(
    t: Transcript,
    repository: Seq<char>,
    config: Seq<char>,
) -> Run<()> {
    let checked = prerequisites_run(t, repository, config);
    if !checked.done() {
        checked
    } else {
        let begun = checked.after.note(configuring_event(config));
        if !begun.done() {
            begun
        } else {
            begun.after.required(
                RequestView::Interactive(configure_command(repository, config)),
                "Firedancer host configuration"@,
            ).with(()).noting(
                LogEventView::new(
                    Level::Info,
                    "val::configure"@,
                    "Firedancer host configuration completed"@,
                ),
            )
        }
    }
}

/// Checks that `fdctl` can be run and that the configuration is a file.
pub fn validate_prerequisites(session: &mut Session, repository: &str, config: &str) -> (checked:
    Result<(), Halt>)
    ensures
        final(session)@ == prerequisites_run(old(session)@, repository@, config@).after,
        prerequisites_run(old(session)@, repository@, config@).end == (match checked {
            Ok(_) => End::Done(()),
            Err(halt) => halt.end(),
        }),
{
    let fdctl: String = executable_in(repository, "build/native/gcc/bin/fdctl");
    match session.inspect(fdctl.as_str())? {
        Inspected::Present(facts) => {
            if !facts.is_runnable() {
                let message: String = join2("fdctl is not executable: ", fdctl.as_str());
                return Err(Halt::Failed(Failure { message }));
            }
        },
        Inspected::Absent(text) | Inspected::Unreadable(text) => {
            let attempt: String = join2("fdctl binary not found: ", fdctl.as_str());
            return Err(Halt::Failed(with_context(attempt.as_str(), text.as_str())));
        },
    }
    match session.inspect(config)? {
        Inspected::Present(facts) => {
            if facts.is_file {
                Ok(())
            } else {
                let message: String = join2("Firedancer config is not a file: ", config);
                Err(Halt::Failed(Failure { message }))
            }
        },
        Inspected::Absent(text) | Inspected::Unreadable(text) => {
            let attempt: String = join2("Firedancer config not found: ", config);
            Err(Halt::Failed(with_context(attempt.as_str(), text.as_str())))
        },
    }
}

/// Initializes all Firedancer host configuration stages.
pub fn configure_firedancer(session: &mut Session, repository: &str, config: &str) -> (configured:
    Result<(), Halt>)
    ensures
        final(session)@ == configure_run(old(session)@, repository@, config@).after,
        configure_run(old(session)@, repository@, config@).end == (match configured {
            Ok(_) => End::Done(()),
            Err(halt) => halt.end(),
        }),
{
    validate_prerequisites(session, repository, config)?;
    session.note(
        LogEvent::new(Level::Info, "val::configure", "configuring Firedancer host").shown(
            "config",
            config,
        ),
    )?;
    let fdctl: String = executable_in(repository, "build/native/gcc/bin/fdctl");
    let command: CommandSpec = CommandSpec::new("sudo").arg("--").arg(fdctl.as_str()).arg(
        "configure",
    ).arg("init").arg("all").arg("--config").arg(config).cwd(repository);
    assert(command@ == configure_command(repository@, config@));
    let _outcome: CommandOutcome = session.required(
        Request::Interactive(command),
        "Firedancer host configuration",
    )?;
    session.note(
        LogEvent::new(Level::Info, "val::configure", "Firedancer host configuration completed"),
    )
}

/// A configure pass is logged with the configuration before its command and with its completion after
/// it, and says what failed if the command does.
pub proof fn law_configure_passes_are_logged(
    t: Transcript,
    repository: Seq<char>,
    config: Seq<char>,
    outcome: process::CommandOutcomeView,
)
    requires
        prerequisites_run(t, repository, config).done(),
        prerequisites_run(t, repository, config).after.replies == t.replies,
        prerequisites_run(t, repository, config).after.asked.len() + 2 < t.replies.len(),
        t.replies[prerequisites_run(t, repository, config).after.asked.len() as int + 1]
            == ReplyView::Outcome(outcome),
    ensures
        ({
            let place = prerequisites_run(t, repository, config).after.asked.len() as int;
            let run = configure_run(t, repository, config);
            &&& run.after.asked[place] matches RequestView::Log(event) && {
                &&& event.level is Info
                &&& event.target == "val::configure"@
                &&& event.message == "configuring Firedancer host"@
                &&& event.fields == seq![
                    FieldView { name: "config"@, value: FieldValueView::Shown(config) },
                ]
            }
            &&& run.done() <==> outcome.success
            &&& outcome.success ==> (run.after.asked.last() matches RequestView::Log(event)
                && event.level is Info && event.message
                == "Firedancer host configuration completed"@)
            &&& !outcome.success ==> run.end == End::<()>::Failed(
                outcome.failure_message("Firedancer host configuration"@),
            ) && run.after.asked.len() == place + 2
        }),
{
}

} // verus!
