//! Idempotent systemd service management.

use vstd::prelude::*;

use crate::logging::{FieldValueView, FieldView, Level, LogEvent, LogEventView};
use crate::process;
use crate::process::{CommandOutcome, CommandSpec, CommandSpecView};
use crate::session::{
    End, Failure, Halt, Reply, ReplyView, Request, RequestView, Run, Session, Transcript,
};
use crate::session;
use crate::text;
use crate::text::{
    join2, join3, join4, number, parse_u32, same_text, split_lines, strip_prefix, trim,
};

verus! {

/// The state of a systemd unit.
#[derive(Debug, Clone, PartialEq, Eq)]
pub enum ServiceState {
    Active,
    Activating,
    Deactivating,
    Inactive,
    Failed,
    Missing,
    Unknown(String),
}

/// What a [`ServiceState`] says.
#[verifier::ext_equal]
pub enum ServiceStateView {
    Active,
    Activating,
    Deactivating,
    Inactive,
    Failed,
    Missing,
    Unknown(Seq<char>),
}

impl View for ServiceState {
    type V = ServiceStateView;

    open spec fn view(&self) -> ServiceStateView {
        match *self {
            ServiceState::Active => ServiceStateView::Active,
            ServiceState::Activating => ServiceStateView::Activating,
            ServiceState::Deactivating => ServiceStateView::Deactivating,
            ServiceState::Inactive => ServiceStateView::Inactive,
            ServiceState::Failed => ServiceStateView::Failed,
            ServiceState::Missing => ServiceStateView::Missing,
            ServiceState::Unknown(value) => ServiceStateView::Unknown(value@),
        }
    }
}

impl ServiceStateView {
    /// The normalized name of the state.
    pub open spec fn name(self) -> Seq<char> {
        match self {
            ServiceStateView::Active => "active"@,
            ServiceStateView::Activating => "activating"@,
            ServiceStateView::Deactivating => "deactivating"@,
            ServiceStateView::Inactive => "inactive"@,
            ServiceStateView::Failed => "failed"@,
            ServiceStateView::Missing => "not-found"@,
            ServiceStateView::Unknown(value) => value,
        }
    }
}

impl ServiceState {
    /// Names the normalized systemd state.
    pub fn name(&self) -> (name: String)
        ensures
            name@ == self@.name(),
    {
        match self {
            ServiceState::Active => "active".to_owned(),
            ServiceState::Activating => "activating".to_owned(),
            ServiceState::Deactivating => "deactivating".to_owned(),
            ServiceState::Inactive => "inactive".to_owned(),
            ServiceState::Failed => "failed".to_owned(),
            ServiceState::Missing => "not-found".to_owned(),
            ServiceState::Unknown(value) => value.clone(),
        }
    }
}

/// What follows a key on the last line that begins with it.
pub open spec fn last_value(lines: Seq<Seq<char>>, key: Seq<char>) -> Option<Seq<char>>
    decreases lines.len(),
{
    if lines.len() == 0 {
        None
    } else if key.is_prefix_of(lines.last()) {
        Some(lines.last().skip(key.len() as int))
    } else {
        last_value(lines.drop_last(), key)
    }
}

/// The state that systemd names.
pub open spec fn named_state(name: Seq<char>) -> ServiceStateView {
    if name == "active"@ {
        ServiceStateView::Active
    } else if name == "activating"@ {
        ServiceStateView::Activating
    } else if name == "deactivating"@ {
        ServiceStateView::Deactivating
    } else if name == "inactive"@ {
        ServiceStateView::Inactive
    } else if name == "failed"@ {
        ServiceStateView::Failed
    } else {
        ServiceStateView::Unknown(name)
    }
}

/// The state that systemctl's properties describe, or nothing where they name no state.
pub open spec fn described_state(output: Seq<char>) -> Option<ServiceStateView> {
    let lines = text::lines(output);
    if last_value(lines, "LoadState="@) == Some("not-found"@) {
        Some(ServiceStateView::Missing)
    } else {
        match last_value(lines, "ActiveState="@) {
            Some(name) => Some(named_state(name)),
            None => None,
        }
    }
}

/// The message for systemctl output without a state.
pub open spec fn no_state_message() -> Seq<char> {
    "systemctl output did not include ActiveState"@
}

/// Parses systemctl properties into a normalized state.
pub fn parse_state(output: &str) -> (state: Result<ServiceState, Failure>)
    ensures
        state is Ok <==> described_state(output@) is Some,
        state matches Ok(s) ==> described_state(output@) == Some(s@),
        state matches Err(failure) ==> failure@ == no_state_message(),
{
    let lines: Vec<String> = split_lines(output);
    let ghost all = text::lines(output@);
    let mut load_state: Option<String> = None;
    let mut active_state: Option<String> = None;
    let mut at: usize = 0;
    while at < lines.len()
        invariant
            at <= lines@.len(),
            all == text::texts(lines@),
            process::maybe_text(load_state) == last_value(all.take(at as int), "LoadState="@),
            process::maybe_text(active_state) == last_value(
                all.take(at as int),
                "ActiveState="@,
            ),
        decreases lines.len() - at,
    {
        let line: &str = lines[at].as_str();
        proof {
            reveal_strlit("LoadState=");
            reveal_strlit("ActiveState=");
            assert(all.take(at + 1).drop_last() == all.take(at as int));
            assert(all.take(at + 1).last() == line@);
            if "LoadState="@.is_prefix_of(line@) {
                assert(line@.subrange(0, 10)[0] == line@[0]);
                assert(!"ActiveState="@.is_prefix_of(line@)) by {
                    assert("ActiveState="@[0] == 'A');
                    if "ActiveState="@.is_prefix_of(line@) {
                        assert(line@.subrange(0, 12)[0] == line@[0]);
                    }
                }
            }
        }
        match strip_prefix(line, "LoadState=") {
            Some(value) => {
                load_state = Some(value);
            },
            None => match strip_prefix(line, "ActiveState=") {
                Some(value) => {
                    active_state = Some(value);
                },
                None => {},
            },
        }
        at = at + 1;
    }
    assert(all.take(at as int) == all);
    if let Some(load) = &load_state {
        if same_text(load.as_str(), "not-found") {
            return Ok(ServiceState::Missing);
        }
    }
    match active_state {
        None => Err(
            Failure { message: "systemctl output did not include ActiveState".to_owned() },
        ),
        Some(name) => {
            let state: &str = name.as_str();
            if same_text(state, "active") {
                Ok(ServiceState::Active)
            } else if same_text(state, "activating") {
                Ok(ServiceState::Activating)
            } else if same_text(state, "deactivating") {
                Ok(ServiceState::Deactivating)
            } else if same_text(state, "inactive") {
                Ok(ServiceState::Inactive)
            } else if same_text(state, "failed") {
                Ok(ServiceState::Failed)
            } else {
                Ok(ServiceState::Unknown(name))
            }
        },
    }
}

/// The command that reads a unit's load and active states.
pub open spec fn show_state_command(unit: Seq<char>) -> CommandSpecView {
    CommandSpecView {
        args: seq!["show"@, "--property=LoadState"@, "--property=ActiveState"@, "--"@, unit],
        ..CommandSpecView::program("systemctl"@)
    }
}

/// The command that reads a unit's main process.
pub open spec fn show_pid_command(unit: Seq<char>) -> CommandSpecView {
    CommandSpecView {
        args: seq!["show"@, "--property=MainPID"@, "--value"@, "--"@, unit],
        ..CommandSpecView::program("systemctl"@)
    }
}

/// The command that asks a running executable for its version.
pub open spec fn running_version_command(executable: Seq<char>, as_root: bool) -> CommandSpecView {
    if as_root {
        CommandSpecView { args: seq!["version"@], ..CommandSpecView::program(executable) }
    } else {
        CommandSpecView {
            args: seq!["--"@, executable, "version"@],
            ..CommandSpecView::program("sudo"@)
        }
    }
}

/// The command that changes a unit's state.
pub open spec fn action_command(
    unit: Seq<char>,
    as_root: bool,
    action: Seq<char>,
) -> CommandSpecView {
    if as_root {
        CommandSpecView {
            args: seq![action, "--"@, unit],
            ..CommandSpecView::program("systemctl"@)
        }
    } else {
        CommandSpecView {
            args: seq!["--"@, "systemctl"@, action, "--"@, unit],
            ..CommandSpecView::program("sudo"@)
        }
    }
}

/// The command that reads a unit's latest journal lines.
pub open spec fn journal_command(unit: Seq<char>, as_root: bool) -> CommandSpecView {
    if as_root {
        CommandSpecView {
            args: seq!["--unit"@, unit, "--lines"@, "20"@, "--no-pager"@],
            ..CommandSpecView::program("journalctl"@)
        }
    } else {
        CommandSpecView {
            args: seq!["--"@, "journalctl"@, "--unit"@, unit, "--lines"@, "20"@, "--no-pager"@],
            ..CommandSpecView::program("sudo"@)
        }
    }
}

/// Reading a unit's state.
pub open spec fn state_run(t: Transcript, unit: Seq<char>) -> Run<ServiceStateView> {
    let shown = t.required(
        RequestView::Capture(show_state_command(unit)),
        "querying systemd unit "@ + unit,
    );
    if !shown.done() {
        shown.stop()
    } else {
        Run {
            after: shown.after,
            end: match described_state(shown.value().stdout) {
                Some(state) => End::Done(state),
                None => End::Failed(no_state_message()),
            },
        }
    }
}

/// An event that is about a unit.
pub open spec fn service_event(level: Level, message: Seq<char>, unit: Seq<char>) -> LogEventView {
    LogEventView::new(level, "val::service"@, message).text("service"@, unit)
}

/// What is logged of a unit's journal: what was read, or the outermost reason why it could not be
/// read.
pub open spec fn journal_event(
    unit: Seq<char>,
    read: End<process::CommandOutcomeView>,
    reason: Seq<char>,
) -> LogEventView {
    let unreadable = service_event(Level::Error, "could not read recent service journal"@, unit);
    match read {
        End::Done(outcome) => if outcome.success {
            if text::trimmed(outcome.stdout).len() > 0 {
                service_event(Level::Error, "recent service journal"@, unit).shown(
                    "journal"@,
                    text::trimmed(outcome.stdout),
                )
            } else {
                service_event(Level::Error, "recent service journal was empty"@, unit)
            }
        } else {
            unreadable.shown("result"@, outcome.exit_description()).shown(
                "stderr"@,
                text::trimmed(outcome.stderr),
            )
        },
        _ => unreadable.shown("error"@, reason),
    }
}

/// Logging a unit's latest journal lines, or why they could not be read.
pub open spec fn journal_run(t: Transcript, unit: Seq<char>, as_root: bool) -> Run<()> {
    let read = t.outcome(RequestView::Capture(journal_command(unit, as_root)));
    if read.end is Waiting {
        read.stop()
    } else {
        read.after.note(journal_event(unit, read.end, t.reason()))
    }
}

/// Failing with a message once the journal has been logged.
pub open spec fn failed_start_run(
    t: Transcript,
    unit: Seq<char>,
    as_root: bool,
    message: Seq<char>,
) -> Run<bool> {
    let journal = journal_run(t, unit, as_root);
    if !journal.done() {
        journal.stop()
    } else {
        Run { after: journal.after, end: End::Failed(message) }
    }
}

/// Having a unit started: systemctl succeeds, and the unit is active afterwards.
pub open spec fn commanded_start_run(t: Transcript, unit: Seq<char>, as_root: bool) -> Run<bool> {
    let started = t.outcome(RequestView::Interactive(action_command(unit, as_root, "start"@)));
    if !started.done() {
        started.stop()
    } else if !started.value().success {
        failed_start_run(
            started.after,
            unit,
            as_root,
            "could not start "@ + unit + ": "@ + started.value().exit_description(),
        )
    } else {
        let last = state_run(started.after, unit);
        if !last.done() {
            last.stop()
        } else if last.value() is Active {
            last.with(true).noting(service_event(Level::Info, "service started"@, unit))
        } else {
            failed_start_run(
                last.after,
                unit,
                as_root,
                unit + " did not become active after start (state: "@ + last.value().name()
                    + ")"@,
            )
        }
    }
}

/// Starting a unit unless it is active; the result says whether it was started.
pub open spec fn start_run(t: Transcript, unit: Seq<char>, as_root: bool) -> Run<bool> {
    let initial = state_run(t, unit);
    if !initial.done() {
        initial.stop()
    } else if initial.value() is Active {
        initial.with(false).noting(
            service_event(Level::Info, "service is already active"@, unit),
        )
    } else if initial.value() is Missing {
        Run {
            after: initial.after,
            end: End::Failed("systemd unit "@ + unit + " was not found"@),
        }
    } else {
        let announced = initial.after.note(
            service_event(Level::Info, "starting service"@, unit).shown(
                "state"@,
                initial.value().name(),
            ),
        );
        if !announced.done() {
            announced.stop()
        } else {
            commanded_start_run(announced.after, unit, as_root)
        }
    }
}

/// Having a unit stopped: systemctl succeeds, and the unit is inactive afterwards.
pub open spec fn commanded_stop_run(t: Transcript, unit: Seq<char>, as_root: bool) -> Run<bool> {
    let stopped = t.required(
        RequestView::Interactive(action_command(unit, as_root, "stop"@)),
        "stopping "@ + unit,
    );
    if !stopped.done() {
        stopped.stop()
    } else {
        let last = state_run(stopped.after, unit);
        if !last.done() {
            last.stop()
        } else if last.value() is Inactive {
            last.with(true).noting(service_event(Level::Info, "service stopped"@, unit))
        } else {
            Run {
                after: last.after,
                end: End::Failed(
                    unit + " did not become inactive after stop (state: "@ + last.value().name()
                        + ")"@,
                ),
            }
        }
    }
}

/// Stopping a unit unless it is inactive; the result says whether it was stopped.
pub open spec fn stop_run(t: Transcript, unit: Seq<char>, as_root: bool) -> Run<bool> {
    let initial = state_run(t, unit);
    if !initial.done() {
        initial.stop()
    } else if initial.value() is Inactive {
        initial.with(false).noting(
            service_event(Level::Info, "service is already inactive"@, unit),
        )
    } else if initial.value() is Missing {
        Run {
            after: initial.after,
            end: End::Failed("systemd unit "@ + unit + " was not found"@),
        }
    } else {
        let announced = initial.after.note(
            service_event(Level::Info, "stopping service"@, unit).shown(
                "state"@,
                initial.value().name(),
            ),
        );
        if !announced.done() {
            announced.stop()
        } else {
            commanded_stop_run(announced.after, unit, as_root)
        }
    }
}

/// Reading the version of the executable that a unit is running, if it is running one.
pub open spec fn running_version_run(
    t: Transcript,
    unit: Seq<char>,
    as_root: bool,
) -> Run<Option<Seq<char>>> {
    let shown = t.required(
        RequestView::Capture(show_pid_command(unit)),
        "querying main PID for "@ + unit,
    );
    if !shown.done() {
        shown.stop()
    } else {
        match text::unsigned_value(text::trimmed(shown.value().stdout), u32::MAX as nat) {
            Err(fault) => Run {
                after: shown.after,
                end: End::Failed(
                    session::in_context(
                        "systemctl returned an invalid MainPID for "@ + unit,
                        fault.message(),
                    ),
                ),
            },
            Ok(pid) => if pid == 0 {
                shown.with(None)
            } else {
                let read = shown.after.required(
                    RequestView::Capture(
                        running_version_command(
                            "/proc/"@ + text::decimal(pid) + "/exe"@,
                            as_root,
                        ),
                    ),
                    "querying the running fdctl version"@,
                );
                if !read.done() {
                    read.stop()
                } else if text::trimmed(read.value().stdout).len() == 0 {
                    Run {
                        after: read.after,
                        end: End::Failed("running fdctl returned an empty version"@),
                    }
                } else {
                    read.with(Some(text::trimmed(read.value().stdout)))
                }
            },
        }
    }
}

/// Manages one systemd unit.
pub struct ServiceManager {
    pub unit: String,
    pub run_as_root: bool,
}

impl ServiceManager {
    /// Creates a manager for one systemd unit.
    pub fn new(unit: &str, run_as_root: bool) -> (manager: ServiceManager)
        ensures
            manager.unit@ == unit@,
            manager.run_as_root == run_as_root,
    {
        ServiceManager { unit: unit.to_owned(), run_as_root }
    }

    /// Reads the unit's current load and active states.
    pub fn state(&self, session: &mut Session) -> (state: Result<ServiceState, Halt>)
        ensures
            final(session)@ == state_run(old(session)@, self.unit@).after,
            state_run(old(session)@, self.unit@).end == (match state {
                Ok(s) => End::Done(s@),
                Err(halt) => halt.end(),
            }),
    {
        let unit: &str = self.unit.as_str();
        let command: CommandSpec = CommandSpec::new("systemctl").arg("show").arg(
            "--property=LoadState",
        ).arg("--property=ActiveState").arg("--").arg(unit);
        assert(command@ == show_state_command(unit@));
        let description: String = join2("querying systemd unit ", unit);
        let outcome: CommandOutcome = session.required(
            Request::Capture(command),
            description.as_str(),
        )?;
        match parse_state(outcome.stdout.as_str()) {
            Ok(state) => Ok(state),
            Err(failure) => Err(Halt::Failed(failure)),
        }
    }

    /// Reads the version from the running service's executable.
    pub fn running_fdctl_version(&self, session: &mut Session) -> (version: Result<
        Option<String>,
        Halt,
    >)
        ensures
            final(session)@ == running_version_run(
                old(session)@,
                self.unit@,
                self.run_as_root,
            ).after,
            running_version_run(old(session)@, self.unit@, self.run_as_root).end == (match version {
                Ok(v) => End::Done(process::maybe_text(v)),
                Err(halt) => halt.end(),
            }),
    {
        let unit: &str = self.unit.as_str();
        let command: CommandSpec = CommandSpec::new("systemctl").arg("show").arg(
            "--property=MainPID",
        ).arg("--value").arg("--").arg(unit);
        assert(command@ == show_pid_command(unit@));
        let description: String = join2("querying main PID for ", unit);
        let shown: CommandOutcome = session.required(
            Request::Capture(command),
            description.as_str(),
        )?;
        let pid: u32 = match parse_u32(trim(shown.stdout.as_str()).as_str()) {
            Ok(pid) => pid,
            Err(fault) => {
                let attempt: String = join2("systemctl returned an invalid MainPID for ", unit);
                return Err(
                    Halt::Failed(session::with_context(attempt.as_str(), fault.describe())),
                );
            },
        };
        if pid == 0 {
            return Ok(None);
        }
        let executable: String = join3("/proc/", number(pid as u64).as_str(), "/exe");
        let query: CommandSpec = if self.run_as_root {
            CommandSpec::new(executable.as_str()).arg("version")
        } else {
            CommandSpec::new("sudo").arg("--").arg(executable.as_str()).arg("version")
        };
        assert(query@ == running_version_command(executable@, self.run_as_root));
        let read: CommandOutcome = session.required(
            Request::Capture(query),
            "querying the running fdctl version",
        )?;
        let version: String = trim(read.stdout.as_str());
        if version.as_str().is_empty() {
            return Err(
                Halt::Failed(
                    Failure { message: "running fdctl returned an empty version".to_owned() },
                ),
            );
        }
        Ok(Some(version))
    }

    /// Starts the unit unless it is already active.
    pub fn start(&self, session: &mut Session) -> (started: Result<bool, Halt>)
        ensures
            final(session)@ == start_run(old(session)@, self.unit@, self.run_as_root).after,
            start_run(old(session)@, self.unit@, self.run_as_root).end == (match started {
                Ok(changed) => End::Done(changed),
                Err(halt) => halt.end(),
            }),
    {
        let unit: &str = self.unit.as_str();
        let initial: ServiceState = self.state(session)?;
        match &initial {
            ServiceState::Active => {
                session.note(self.event(Level::Info, "service is already active"))?;
                return Ok(false);
            },
            ServiceState::Missing => {
                return Err(self.not_found());
            },
            _ => {},
        }
        session.note(
            self.event(Level::Info, "starting service").shown("state", initial.name().as_str()),
        )?;
        let outcome: CommandOutcome = session.outcome(Request::Interactive(self.action("start")))?;
        if !outcome.success {
            self.log_recent_journal(session)?;
            let message: String = join4(
                "could not start ",
                unit,
                ": ",
                outcome.exit_description().as_str(),
            );
            return Err(Halt::Failed(Failure { message }));
        }
        let last: ServiceState = self.state(session)?;
        match last {
            ServiceState::Active => {
                session.note(self.event(Level::Info, "service started"))?;
                Ok(true)
            },
            other => {
                self.log_recent_journal(session)?;
                let message: String = join4(
                    unit,
                    " did not become active after start (state: ",
                    other.name().as_str(),
                    ")",
                );
                Err(Halt::Failed(Failure { message }))
            },
        }
    }

    /// Stops the unit unless it is already inactive.
    pub fn stop(&self, session: &mut Session) -> (stopped: Result<bool, Halt>)
        ensures
            final(session)@ == stop_run(old(session)@, self.unit@, self.run_as_root).after,
            stop_run(old(session)@, self.unit@, self.run_as_root).end == (match stopped {
                Ok(changed) => End::Done(changed),
                Err(halt) => halt.end(),
            }),
    {
        let unit: &str = self.unit.as_str();
        let initial: ServiceState = self.state(session)?;
        match &initial {
            ServiceState::Inactive => {
                session.note(self.event(Level::Info, "service is already inactive"))?;
                return Ok(false);
            },
            ServiceState::Missing => {
                return Err(self.not_found());
            },
            _ => {},
        }
        session.note(
            self.event(Level::Info, "stopping service").shown("state", initial.name().as_str()),
        )?;
        let description: String = join2("stopping ", unit);
        let _outcome: CommandOutcome = session.required(
            Request::Interactive(self.action("stop")),
            description.as_str(),
        )?;
        let last: ServiceState = self.state(session)?;
        match last {
            ServiceState::Inactive => {
                session.note(self.event(Level::Info, "service stopped"))?;
                Ok(true)
            },
            other => {
                let message: String = join4(
                    unit,
                    " did not become inactive after stop (state: ",
                    other.name().as_str(),
                    ")",
                );
                Err(Halt::Failed(Failure { message }))
            },
        }
    }

    /// An event that is about the unit.
    fn event(&self, level: Level, message: &str) -> (event: LogEvent)
        ensures
            event@ == service_event(level, message@, self.unit@),
    {
        LogEvent::new(level, "val::service", message).text("service", self.unit.as_str())
    }

    /// The failure for a unit that systemd does not know.
    fn not_found(&self) -> (halt: Halt)
        ensures
            halt matches Halt::Failed(failure) && failure@ == "systemd unit "@ + self.unit@
                + " was not found"@,
    {
        Halt::Failed(
            Failure { message: join3("systemd unit ", self.unit.as_str(), " was not found") },
        )
    }

    /// Builds an optionally elevated systemctl command.
    pub fn action(&self, action: &str) -> (command: CommandSpec)
        ensures
            command@ == action_command(self.unit@, self.run_as_root, action@),
    {
        if self.run_as_root {
            CommandSpec::new("systemctl").arg(action).arg("--").arg(self.unit.as_str())
        } else {
            CommandSpec::new("sudo").arg("--").arg("systemctl").arg(action).arg("--").arg(
                self.unit.as_str(),
            )
        }
    }

    /// Logs recent journal entries after a start failure.
    pub fn log_recent_journal(&self, session: &mut Session) -> (logged: Result<(), Halt>)
        ensures
            final(session)@ == journal_run(old(session)@, self.unit@, self.run_as_root).after,
            journal_run(old(session)@, self.unit@, self.run_as_root).end == (match logged {
                Ok(_) => End::Done(()),
                Err(halt) => halt.end(),
            }),
    {
        let unit: &str = self.unit.as_str();
        let command: CommandSpec = if self.run_as_root {
            CommandSpec::new("journalctl").arg("--unit").arg(unit).arg("--lines").arg("20").arg(
                "--no-pager",
            )
        } else {
            CommandSpec::new("sudo").arg("--").arg("journalctl").arg("--unit").arg(unit).arg(
                "--lines",
            ).arg("20").arg("--no-pager")
        };
        assert(command@ == journal_command(unit@, self.run_as_root));
        let unreadable: LogEvent = self.event(
            Level::Error,
            "could not read recent service journal",
        );
        let event: LogEvent = match session.ask(Request::Capture(command)) {
            None => {
                return Err(Halt::Waiting);
            },
            Some(Reply::Outcome(outcome)) => if outcome.success {
                let journal: String = trim(outcome.stdout.as_str());
                if journal.as_str().is_empty() {
                    self.event(Level::Error, "recent service journal was empty")
                } else {
                    self.event(Level::Error, "recent service journal").shown(
                        "journal",
                        journal.as_str(),
                    )
                }
            } else {
                unreadable.shown("result", outcome.exit_description().as_str()).shown(
                    "stderr",
                    trim(outcome.stderr.as_str()).as_str(),
                )
            },
            Some(Reply::Error(text)) => unreadable.shown("error", text.as_str()),
            Some(Reply::Caused(reason, _)) => unreadable.shown("error", reason.as_str()),
            Some(_) => unreadable.shown("error", "the reply does not answer the request"),
        };
        session.note(event)
    }
}

/// A state that systemd names is called by that name again. Five names are known, every other one is
/// kept as it is, and no name stands for a unit that does not exist.
pub proof fn law_states_keep_their_names(name: Seq<char>)
    ensures
        named_state(name).name() == name,
        named_state(name) is Active <==> name == "active"@,
        named_state(name) is Activating <==> name == "activating"@,
        named_state(name) is Deactivating <==> name == "deactivating"@,
        named_state(name) is Inactive <==> name == "inactive"@,
        named_state(name) is Failed <==> name == "failed"@,
        !(named_state(name) is Missing),
        ServiceStateView::Missing.name() == "not-found"@,
{
    reveal_strlit("active");
    reveal_strlit("activating");
    reveal_strlit("deactivating");
    reveal_strlit("inactive");
    reveal_strlit("failed");
    assert("active"@.len() == 6 && "activating"@.len() == 10 && "deactivating"@.len() == 12
        && "inactive"@.len() == 8 && "failed"@.len() == 6);
    assert("active"@[0] == 'a' && "failed"@[0] == 'f');
}

/// A line that assigns a property begins with the property's name.
proof fn lemma_property_line(property: Seq<char>, value: Seq<char>)
    ensures
        property.is_prefix_of(property + value),
        (property + value).skip(property.len() as int) == value,
{
    assert((property + value).subrange(0, property.len() as int) == property);
    assert((property + value).skip(property.len() as int) == value);
}

/// The state of a unit is read off the two properties that systemctl prints, in either order: a unit
/// that cannot be found does not exist, whatever its active state, and any other one is in the state
/// that is named.
pub proof fn law_properties_describe_the_state(load: Seq<char>, active: Seq<char>)
    requires
        !load.contains('\n'),
        !active.contains('\n'),
        !load.contains('\r'),
        !active.contains('\r'),
    ensures
        ({
            let loaded = "LoadState="@ + load;
            let named = "ActiveState="@ + active;
            let state = if load == "not-found"@ {
                ServiceStateView::Missing
            } else {
                named_state(active)
            };
            &&& described_state(loaded + seq!['\n'] + named + seq!['\n']) == Some(state)
            &&& described_state(named + seq!['\n'] + loaded + seq!['\n']) == Some(state)
            &&& described_state(named + seq!['\n']) == Some(named_state(active))
            &&& load != "not-found"@ ==> described_state(loaded + seq!['\n']) is None
            &&& described_state(Seq::empty()) is None
        }),
{
    reveal_strlit("LoadState=");
    reveal_strlit("ActiveState=");
    let first = "LoadState="@;
    let second = "ActiveState="@;
    let loaded = first + load;
    let named = second + active;
    assert(first[0] == 'L' && second[0] == 'A');
    lemma_property_line(first, load);
    lemma_property_line(second, active);
    assert(!first.is_prefix_of(named)) by {
        if first.is_prefix_of(named) {
            assert(named.subrange(0, first.len() as int)[0] == named[0]);
        }
    }
    assert(!second.is_prefix_of(loaded)) by {
        if second.is_prefix_of(loaded) {
            assert(loaded.subrange(0, second.len() as int)[0] == loaded[0]);
        }
    }
    assert forall|i: int| 0 <= i < loaded.len() implies loaded[i] != '\n' && loaded[i] != '\r' by {
        if i >= first.len() {
            assert(load.contains(load[i - first.len()]));
        }
    }
    assert forall|i: int| 0 <= i < named.len() implies named[i] != '\n' && named[i] != '\r' by {
        if i >= second.len() {
            assert(active.contains(active[i - second.len()]));
        }
    }
    let none = Seq::<char>::empty();
    text::law_lines_are_split_at_line_feeds(loaded, named + seq!['\n']);
    text::law_lines_are_split_at_line_feeds(named, none);
    text::law_lines_are_split_at_line_feeds(named, loaded + seq!['\n']);
    text::law_lines_are_split_at_line_feeds(loaded, none);
    assert(loaded + seq!['\n'] + (named + seq!['\n']) == loaded + seq!['\n'] + named + seq!['\n']);
    assert(named + seq!['\n'] + (loaded + seq!['\n']) == named + seq!['\n'] + loaded + seq!['\n']);
    assert(named + seq!['\n'] + none == named + seq!['\n']);
    assert(loaded + seq!['\n'] + none == loaded + seq!['\n']);
    reveal_with_fuel(last_value, 3);
    let one = seq![loaded] + seq![named];
    let two = seq![named] + seq![loaded];
    assert(one.drop_last() == seq![loaded]);
    assert(two.drop_last() == seq![named]);
    assert(seq![loaded].drop_last() == Seq::<Seq<char>>::empty());
    assert(seq![named].drop_last() == Seq::<Seq<char>>::empty());
    assert(seq![named] + Seq::<Seq<char>>::empty() == seq![named]);
    assert(seq![loaded] + Seq::<Seq<char>>::empty() == seq![loaded]);
    assert(text::lines(loaded + seq!['\n'] + named + seq!['\n']) == one);
    assert(text::lines(named + seq!['\n'] + loaded + seq!['\n']) == two);
}

/// A unit's state is asked of systemctl once. It is known if systemctl succeeded and named one.
pub proof fn law_states_are_asked_of_systemctl(
    t: Transcript,
    unit: Seq<char>,
    outcome: process::CommandOutcomeView,
)
    requires
        t.reply() == Some(ReplyView::Outcome(outcome)),
    ensures
        ({
            let run = state_run(t, unit);
            let command = CommandSpecView {
                program: "systemctl"@,
                args: seq![
                    "show"@,
                    "--property=LoadState"@,
                    "--property=ActiveState"@,
                    "--"@,
                    unit,
                ],
                env: Seq::empty(),
                cwd: None,
            };
            &&& run.after.asked == t.asked.push(RequestView::Capture(command))
            &&& run.done() <==> outcome.success && described_state(outcome.stdout) is Some
            &&& run.done() ==> Some(run.value()) == described_state(outcome.stdout)
            &&& !outcome.success ==> run.end == End::<ServiceStateView>::Failed(
                outcome.failure_message("querying systemd unit "@ + unit),
            )
            &&& outcome.success && !run.done() ==> run.end == End::<ServiceStateView>::Failed(
                "systemctl output did not include ActiveState"@,
            )
        }),
{
    assert(show_state_command(unit).env == Seq::<(Seq<char>, Seq<char>)>::empty());
}

/// The running version is that of the executable of the unit's main process. A unit without a main
/// process runs none, and nothing is asked for it.
pub proof fn law_running_versions_are_those_of_the_main_process(
    t: Transcript,
    unit: Seq<char>,
    root: bool,
    pid: nat,
    shown: process::CommandOutcomeView,
    printed: process::CommandOutcomeView,
)
    requires
        t.asked.len() + 1 < t.replies.len(),
        t.replies[t.asked.len() as int] == ReplyView::Outcome(shown),
        t.replies[t.asked.len() as int + 1] == ReplyView::Outcome(printed),
        shown.success,
        text::trimmed(shown.stdout) == text::decimal(pid),
        pid <= u32::MAX,
    ensures
        ({
            let run = running_version_run(t, unit, root);
            let first = RequestView::Capture(
                CommandSpecView {
                    program: "systemctl"@,
                    args: seq!["show"@, "--property=MainPID"@, "--value"@, "--"@, unit],
                    env: Seq::empty(),
                    cwd: None,
                },
            );
            let executable = "/proc/"@ + text::decimal(pid) + "/exe"@;
            let second = RequestView::Capture(
                CommandSpecView {
                    program: if root {
                        executable
                    } else {
                        "sudo"@
                    },
                    args: if root {
                        seq!["version"@]
                    } else {
                        seq!["--"@, executable, "version"@]
                    },
                    env: Seq::empty(),
                    cwd: None,
                },
            );
            let version = text::trimmed(printed.stdout);
            &&& pid == 0 ==> run.after.asked == t.asked.push(first) && run.end == End::<
                Option<Seq<char>>,
            >::Done(None)
            &&& pid > 0 ==> {
                &&& run.after.asked == t.asked.push(first).push(second)
                &&& run.done() <==> printed.success && version.len() > 0
                &&& run.done() ==> run.value() == Some(version)
            }
        }),
{
    text::law_numbers_are_read_back(pid, u32::MAX as nat);
    let executable = "/proc/"@ + text::decimal(pid) + "/exe"@;
    assert(show_pid_command(unit).env == Seq::<(Seq<char>, Seq<char>)>::empty());
    assert(running_version_command(executable, root).env == Seq::<(Seq<char>, Seq<char>)>::empty());
}

/// When a start fails, the last twenty lines of the unit's journal are read and logged as an error, or
/// it is logged why they could not be. The start's own failure is what is reported.
pub proof fn law_failed_starts_log_the_journal(
    t: Transcript,
    unit: Seq<char>,
    root: bool,
    message: Seq<char>,
    outcome: process::CommandOutcomeView,
)
    requires
        t.asked.len() + 1 < t.replies.len(),
        t.replies[t.asked.len() as int] == ReplyView::Outcome(outcome),
    ensures
        ({
            let run = failed_start_run(t, unit, root, message);
            let place = t.asked.len() as int;
            let read = CommandSpecView {
                program: if root {
                    "journalctl"@
                } else {
                    "sudo"@
                },
                args: if root {
                    seq!["--unit"@, unit, "--lines"@, "20"@, "--no-pager"@]
                } else {
                    seq![
                        "--"@,
                        "journalctl"@,
                        "--unit"@,
                        unit,
                        "--lines"@,
                        "20"@,
                        "--no-pager"@,
                    ]
                },
                env: Seq::empty(),
                cwd: None,
            };
            let journal = text::trimmed(outcome.stdout);
            &&& run.end == End::<bool>::Failed(message)
            &&& run.after.asked.len() == place + 2
            &&& run.after.asked[place] == RequestView::Capture(read)
            &&& run.after.asked[place + 1] matches RequestView::Log(event) && {
                &&& event.level is Error
                &&& event.fields.len() > 0
                &&& event.fields[0].value == FieldValueView::Text(unit)
                &&& outcome.success && journal.len() > 0 ==> event.message
                    == "recent service journal"@ && event.fields.last().value
                    == FieldValueView::Shown(journal)
                &&& outcome.success && journal.len() == 0 ==> event.message
                    == "recent service journal was empty"@
                &&& !outcome.success ==> event.message == "could not read recent service journal"@
                    && event.fields[1].value == FieldValueView::Shown(outcome.exit_description())
                    && event.fields[2].value == FieldValueView::Shown(
                    text::trimmed(outcome.stderr),
                )
            }
        }),
{
    assert(journal_command(unit, root).env == Seq::<(Seq<char>, Seq<char>)>::empty());
}

/// A start that systemctl refuses, and one after which the unit is not active, fail with what was
/// found. So does a stop that systemctl refuses, and one after which the unit is not inactive.
pub proof fn law_failed_actions_say_what_was_found(
    t: Transcript,
    unit: Seq<char>,
    root: bool,
    outcome: process::CommandOutcomeView,
    shown: process::CommandOutcomeView,
    state: ServiceStateView,
)
    requires
        t.asked.len() + 1 < t.replies.len(),
        t.replies[t.asked.len() as int] == ReplyView::Outcome(outcome),
        t.replies[t.asked.len() as int + 1] == ReplyView::Outcome(shown),
        shown.success,
        described_state(shown.stdout) == Some(state),
    ensures
        ({
            let start = commanded_start_run(t, unit, root);
            let stop = commanded_stop_run(t, unit, root);
            &&& !outcome.success && !(start.end is Waiting) ==> start.end == End::<bool>::Failed(
                "could not start "@ + unit + ": "@ + outcome.exit_description(),
            )
            &&& outcome.success && !(state is Active) && !(start.end is Waiting) ==> start.end
                == End::<bool>::Failed(
                unit + " did not become active after start (state: "@ + state.name() + ")"@,
            )
            &&& outcome.success && state is Active && !(start.end is Waiting) ==> start.end
                == End::Done(true)
            &&& !outcome.success ==> stop.end == End::<bool>::Failed(
                outcome.failure_message("stopping "@ + unit),
            )
            &&& outcome.success && !(state is Inactive) ==> stop.end == End::<bool>::Failed(
                unit + " did not become inactive after stop (state: "@ + state.name() + ")"@,
            )
            &&& outcome.success && state is Inactive && !(stop.end is Waiting) ==> stop.end
                == End::Done(true)
        }),
{
}

/// What is logged before a unit is acted on names the unit and the state that it was found in, and
/// what is logged afterwards names the unit.
pub proof fn law_actions_are_logged(
    t: Transcript,
    unit: Seq<char>,
    root: bool,
    outcome: process::CommandOutcomeView,
    state: ServiceStateView,
)
    requires
        t.reply() == Some(ReplyView::Outcome(outcome)),
        outcome.success,
        described_state(outcome.stdout) == Some(state),
        !(state is Missing),
    ensures
        ({
            let start = start_run(t, unit, root).after.asked;
            let stop = stop_run(t, unit, root).after.asked;
            let place = t.asked.len() as int + 1;
            let named = FieldView { name: "service"@, value: FieldValueView::Text(unit) };
            let found = FieldView { name: "state"@, value: FieldValueView::Shown(state.name()) };
            &&& start[place] matches RequestView::Log(event) && {
                &&& event.level is Info
                &&& event.target == "val::service"@
                &&& state is Active ==> event.message == "service is already active"@
                    && event.fields == seq![named]
                &&& !(state is Active) ==> event.message == "starting service"@ && event.fields
                    == seq![named, found]
            }
            &&& stop[place] matches RequestView::Log(event) && {
                &&& event.level is Info
                &&& event.target == "val::service"@
                &&& state is Inactive ==> event.message == "service is already inactive"@
                    && event.fields == seq![named]
                &&& !(state is Inactive) ==> event.message == "stopping service"@ && event.fields
                    == seq![named, found]
            }
        }),
{
}

/// A unit that does not exist is named in the error.
pub proof fn law_missing_units_are_named(
    t: Transcript,
    unit: Seq<char>,
    root: bool,
    outcome: process::CommandOutcomeView,
)
    requires
        t.reply() == Some(ReplyView::Outcome(outcome)),
        outcome.success,
        described_state(outcome.stdout) == Some(ServiceStateView::Missing),
    ensures
        start_run(t, unit, root).end == End::<bool>::Failed(
            "systemd unit "@ + unit + " was not found"@,
        ),
        stop_run(t, unit, root).end == End::<bool>::Failed(
            "systemd unit "@ + unit + " was not found"@,
        ),
{
}

/// An action that succeeded is logged last, once the state that it led to was seen.
pub proof fn law_completed_actions_are_logged(t: Transcript, unit: Seq<char>, root: bool)
    ensures
        commanded_start_run(t, unit, root).done() ==> (commanded_start_run(
            t,
            unit,
            root,
        ).after.asked.last() matches RequestView::Log(event) && event.level is Info && event.message
            == "service started"@ && event.fields == seq![
            FieldView { name: "service"@, value: FieldValueView::Text(unit) },
        ]),
        commanded_stop_run(t, unit, root).done() ==> (commanded_stop_run(
            t,
            unit,
            root,
        ).after.asked.last() matches RequestView::Log(event) && event.level is Info && event.message
            == "service stopped"@ && event.fields == seq![
            FieldView { name: "service"@, value: FieldValueView::Text(unit) },
        ]),
{
}

/// Where systemctl prints a property twice, the last line counts.
pub proof fn law_the_last_property_counts(first: Seq<char>, last: Seq<char>)
    requires
        !first.contains('\n'),
        !last.contains('\n'),
        !first.contains('\r'),
        !last.contains('\r'),
    ensures
        described_state(
            "ActiveState="@ + first + seq!['\n'] + ("ActiveState="@ + last) + seq!['\n'],
        ) == Some(named_state(last)),
        last_value(seq!["ActiveState="@ + first, "ActiveState="@ + last], "ActiveState="@) == Some(
            last,
        ),
{
    reveal_strlit("LoadState=");
    reveal_strlit("ActiveState=");
    let key = "ActiveState="@;
    let one = key + first;
    let two = key + last;
    assert("LoadState="@[0] == 'L' && key[0] == 'A');
    lemma_property_line(key, first);
    lemma_property_line(key, last);
    assert(!"LoadState="@.is_prefix_of(one)) by {
        if "LoadState="@.is_prefix_of(one) {
            assert(one.subrange(0, "LoadState="@.len() as int)[0] == one[0]);
        }
    }
    assert(!"LoadState="@.is_prefix_of(two)) by {
        if "LoadState="@.is_prefix_of(two) {
            assert(two.subrange(0, "LoadState="@.len() as int)[0] == two[0]);
        }
    }
    assert forall|i: int| 0 <= i < one.len() implies one[i] != '\n' && one[i] != '\r' by {
        if i >= key.len() {
            assert(first.contains(first[i - key.len()]));
        }
    }
    assert forall|i: int| 0 <= i < two.len() implies two[i] != '\n' && two[i] != '\r' by {
        if i >= key.len() {
            assert(last.contains(last[i - key.len()]));
        }
    }
    let none = Seq::<char>::empty();
    text::law_lines_are_split_at_line_feeds(one, two + seq!['\n']);
    text::law_lines_are_split_at_line_feeds(two, none);
    assert(one + seq!['\n'] + (two + seq!['\n']) == one + seq!['\n'] + two + seq!['\n']);
    assert(two + seq!['\n'] + none == two + seq!['\n']);
    reveal_with_fuel(last_value, 3);
    let both = seq![one, two];
    assert(seq![one] + seq![two] == both);
    assert(seq![two] + Seq::<Seq<char>>::empty() == seq![two]);
    assert(both.drop_last() == seq![one]);
    assert(seq![one].drop_last() == Seq::<Seq<char>>::empty());
    assert(text::lines(one + seq!['\n'] + two + seq!['\n']) == both);
}

} // verus!
