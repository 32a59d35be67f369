//! Full Firedancer update orchestration.

use vstd::prelude::*;

use crate::monitor;
use crate::monitor::{validate_config, wait_until_running};
use crate::paths::{AppPaths, AppPathsView};
use crate::process;
use crate::process::executable_in;
use crate::progress;
use crate::progress::{format_duration, NANOS_PER_SECOND};
use crate::repository;
use crate::repository::{make_firedancer, update_firedancer};
use crate::restart;
use crate::restart::{
    restart_firedancer_with_reporter, ReportLog, RestartPhase, RestartReport,
    RestartTarget,
};
use crate::service;
use crate::service::{ServiceManager, ServiceState, ServiceStateView};
use crate::session;
use crate::session::{
    End, Failure, Halt, ReplyView, Request, RequestView, Run, Session, Transcript,
};
use crate::text;
use crate::text::{join2, join3, join4, join5};

verus! {

/// What a full update acts on.
#[verifier::ext_equal]
pub struct UpdatePlan {
    pub paths: AppPathsView,
    pub unit: Seq<char>,
    pub as_root: bool,
    pub git_ref: Seq<char>,
    pub service_name: Seq<char>,
    pub compact: bool,
}

/// What a full update of a service's checkout acts on.
pub open spec fn update_plan(
    service: ServiceManager,
    paths: AppPathsView,
    git_ref: Seq<char>,
    service_name: Seq<char>,
    compact: bool,
) -> UpdatePlan {
    UpdatePlan {
        paths,
        unit: service.unit@,
        as_root: service.run_as_root,
        git_ref,
        service_name,
        compact,
    }
}

/// What a failed update did to the service.
#[derive(Debug, Clone, Copy, PartialEq, Eq, Structural)]
pub enum ServiceImpact {
    Unchanged,
    Stopped,
    FailedToRestart,
    ReadinessUnknown,
}

/// What a failed restart did to a service, by how reading its state ended.
pub open spec fn restart_impact(read: End<ServiceStateView>) -> ServiceImpact {
    match read {
        End::Done(ServiceStateView::Active) => ServiceImpact::Unchanged,
        End::Done(ServiceStateView::Activating)
        | End::Done(ServiceStateView::Deactivating)
        | End::Done(ServiceStateView::Failed) => ServiceImpact::FailedToRestart,
        _ => ServiceImpact::Stopped,
    }
}

/// Reading a unit's state where a failure to read it is an answer too.
pub open spec fn tried_state_run(t: Transcript, unit: Seq<char>) -> Run<End<ServiceStateView>> {
    let read = service::state_run(t, unit);
    Run {
        after: read.after,
        end: match read.end {
            End::Waiting => End::Waiting,
            end => End::Done(end),
        },
    }
}

/// Reads the service's state; a failure to read it is an answer too.
fn try_state(session: &mut Session, service: &ServiceManager) -> (state: Result<
    Result<ServiceState, Failure>,
    Halt,
>)
    ensures
        final(session)@ == tried_state_run(old(session)@, service.unit@).after,
        tried_state_run(old(session)@, service.unit@).end == (match state {
            Ok(Ok(s)) => End::Done(End::Done(s@)),
            Ok(Err(failure)) => End::Done(End::Failed(failure@)),
            Err(halt) => halt.end(),
        }),
{
    match service.state(session) {
        Ok(state) => Ok(Ok(state)),
        Err(Halt::Waiting) => Err(Halt::Waiting),
        Err(Halt::Failed(failure)) => Ok(Err(failure)),
    }
}

/// Tells what a failed restart did to a service.
pub fn classify_restart_failure(session: &mut Session, service: &ServiceManager) -> (impact: Result<
    ServiceImpact,
    Halt,
>)
    ensures
        final(session)@ == tried_state_run(old(session)@, service.unit@).after,
        (match impact {
            Ok(i) => tried_state_run(old(session)@, service.unit@).done() && i == restart_impact(
                tried_state_run(old(session)@, service.unit@).value(),
            ),
            Err(halt) => halt is Waiting && tried_state_run(old(session)@, service.unit@).end
                is Waiting,
        }),
{
    match try_state(session, service)? {
        Ok(ServiceState::Active) => Ok(ServiceImpact::Unchanged),
        Ok(ServiceState::Activating)
        | Ok(ServiceState::Deactivating)
        | Ok(ServiceState::Failed) => Ok(ServiceImpact::FailedToRestart),
        Ok(_) => Ok(ServiceImpact::Stopped),
        Err(_) => Ok(ServiceImpact::Stopped),
    }
}

/// How one restart segment stands.
#[derive(Debug, Clone, PartialEq, Eq)]
pub enum StageStatus {
    Pending,
    Done(String),
    Warning(String),
    Failed,
}

/// What a [`StageStatus`] says.
#[verifier::ext_equal]
pub enum StageStatusView {
    Pending,
    Done(Seq<char>),
    Warning(Seq<char>),
    Failed,
}

impl View for StageStatus {
    type V = StageStatusView;

    open spec fn view(&self) -> StageStatusView {
        match *self {
            StageStatus::Pending => StageStatusView::Pending,
            StageStatus::Done(detail) => StageStatusView::Done(detail@),
            StageStatus::Warning(detail) => StageStatusView::Warning(detail@),
            StageStatus::Failed => StageStatusView::Failed,
        }
    }
}

impl StageStatusView {
    /// The status as it is printed.
    pub open spec fn shown(self) -> Seq<char> {
        match self {
            StageStatusView::Pending => "pending"@,
            StageStatusView::Done(detail) => if detail.len() == 0 {
                "done"@
            } else {
                "done ("@ + detail + ")"@
            },
            StageStatusView::Warning(detail) => "warning; "@ + detail,
            StageStatusView::Failed => "failed"@,
        }
    }
}

impl StageStatus {
    /// The status as it is printed.
    pub fn text(&self) -> (text: String)
        ensures
            text@ == self@.shown(),
    {
        match self {
            StageStatus::Pending => "pending".to_owned(),
            StageStatus::Done(detail) => {
                if detail.as_str().is_empty() {
                    "done".to_owned()
                } else {
                    join3("done (", detail.as_str(), ")")
                }
            },
            StageStatus::Warning(detail) => join2("warning; ", detail.as_str()),
            StageStatus::Failed => "failed".to_owned(),
        }
    }

    /// Whether the segment has not been reached.
    fn is_pending(&self) -> (pending: bool)
        ensures
            pending == (self@ is Pending),
    {
        match self {
            StageStatus::Pending => true,
            _ => false,
        }
    }
}

/// How the restart segments stand.
#[derive(Debug, Clone, PartialEq, Eq)]
pub struct RestartProgress {
    pub compact: bool,
    pub stop: StageStatus,
    pub configure_first: StageStatus,
    pub configure_second: StageStatus,
    pub start: StageStatus,
    pub final_state: String,
}

/// What a [`RestartProgress`] says.
#[verifier::ext_equal]
pub struct RestartProgressView {
    pub compact: bool,
    pub stop: StageStatusView,
    pub configure_first: StageStatusView,
    pub configure_second: StageStatusView,
    pub start: StageStatusView,
    pub final_state: Seq<char>,
}

impl View for RestartProgress {
    type V = RestartProgressView;

    open spec fn view(&self) -> RestartProgressView {
        RestartProgressView {
            compact: self.compact,
            stop: self.stop@,
            configure_first: self.configure_first@,
            configure_second: self.configure_second@,
            start: self.start@,
            final_state: self.final_state@,
        }
    }
}

impl RestartProgressView {
    /// No segment has been reached.
    pub open spec fn begun(compact: bool) -> RestartProgressView {
        RestartProgressView {
            compact,
            stop: StageStatusView::Pending,
            configure_first: StageStatusView::Pending,
            configure_second: StageStatusView::Pending,
            start: StageStatusView::Pending,
            final_state: Seq::empty(),
        }
    }

    /// A segment is done.
    pub open spec fn completed(self, phase: RestartPhase) -> RestartProgressView {
        match phase {
            RestartPhase::Stop => RestartProgressView {
                stop: StageStatusView::Done("inactive"@),
                ..self
            },
            RestartPhase::ConfigureFirst => RestartProgressView {
                configure_first: StageStatusView::Done(Seq::empty()),
                ..self
            },
            RestartPhase::ConfigureSecond => RestartProgressView {
                configure_second: StageStatusView::Done(Seq::empty()),
                ..self
            },
            RestartPhase::Start => RestartProgressView {
                start: StageStatusView::Done("active"@),
                ..self
            },
        }
    }

    /// The first configure pass failed.
    pub open spec fn retried(self) -> RestartProgressView {
        RestartProgressView { configure_first: StageStatusView::Warning("retrying"@), ..self }
    }

    /// One report of the restart later: a segment that begins shows that the one before it is
    /// done, unless that one is known to have failed.
    pub open spec fn reported(self, report: RestartReport) -> RestartProgressView {
        match report {
            RestartReport::Begun(RestartPhase::Stop) => self,
            RestartReport::Begun(RestartPhase::ConfigureFirst) => self.completed(
                RestartPhase::Stop,
            ),
            RestartReport::Begun(RestartPhase::ConfigureSecond) => if self.configure_first
                is Pending {
                self.completed(RestartPhase::ConfigureFirst)
            } else {
                self
            },
            RestartReport::Begun(RestartPhase::Start) => self.completed(
                RestartPhase::ConfigureSecond,
            ),
            RestartReport::ConfigureFirstFailed => self.retried(),
        }
    }

    /// Every report of a restart later.
    pub open spec fn after_reports(self, reports: Seq<RestartReport>) -> RestartProgressView
        decreases reports.len(),
    {
        if reports.len() == 0 {
            self
        } else {
            self.after_reports(reports.drop_last()).reported(reports.last())
        }
    }

    /// The first segment that has to succeed and did not is the one that failed.
    pub open spec fn marked_failed(self) -> RestartProgressView {
        if self.stop is Pending {
            RestartProgressView { stop: StageStatusView::Failed, ..self }
        } else if self.configure_second is Pending {
            RestartProgressView { configure_second: StageStatusView::Failed, ..self }
        } else if self.start is Pending {
            RestartProgressView { start: StageStatusView::Failed, ..self }
        } else {
            self
        }
    }

    /// The start segment and the final state, by how reading the service's state ended.
    pub open spec fn finalized(self, read: End<ServiceStateView>) -> RestartProgressView {
        let active = read == End::<ServiceStateView>::Done(ServiceStateView::Active);
        RestartProgressView {
            start: if self.start is Pending {
                if active {
                    StageStatusView::Done("active"@)
                } else {
                    StageStatusView::Failed
                }
            } else {
                self.start
            },
            final_state: match read {
                End::Done(state) => state.name(),
                _ => if self.final_state.len() == 0 {
                    "unknown"@
                } else {
                    self.final_state
                },
            },
            ..self
        }
    }

    /// The printed lines: one for each segment.
    pub open spec fn lines(self) -> Seq<Seq<char>> {
        if self.compact {
            seq![
                "      stop ................................. "@ + self.stop.shown(),
                "      configure 1/2 ........................ "@ + self.configure_first.shown(),
                "      configure 2/2 ........................ "@ + self.configure_second.shown(),
                "      start ................................ "@ + self.start.shown(),
            ]
        } else {
            Seq::empty()
        }
    }
}

impl RestartProgress {
    /// No segment has been reached.
    pub fn new(compact: bool) -> (progress: RestartProgress)
        ensures
            progress@ == RestartProgressView::begun(compact),
    {
        RestartProgress {
            compact,
            stop: StageStatus::Pending,
            configure_first: StageStatus::Pending,
            configure_second: StageStatus::Pending,
            start: StageStatus::Pending,
            final_state: String::new(),
        }
    }

    /// Marks a segment as done.
    pub fn on_phase(&mut self, phase: RestartPhase)
        ensures
            final(self)@ == old(self)@.completed(phase),
    {
        match phase {
            RestartPhase::Stop => {
                self.stop = StageStatus::Done("inactive".to_owned());
            },
            RestartPhase::ConfigureFirst => {
                self.configure_first = StageStatus::Done(String::new());
            },
            RestartPhase::ConfigureSecond => {
                self.configure_second = StageStatus::Done(String::new());
            },
            RestartPhase::Start => {
                self.start = StageStatus::Done("active".to_owned());
            },
        }
    }

    /// Marks the first configure pass as failed.
    pub fn on_configure_first_failed(&mut self)
        ensures
            final(self)@ == old(self)@.retried(),
    {
        self.configure_first = StageStatus::Warning("retrying".to_owned());
    }

    /// Takes every report of a restart, in order.
    pub fn on_reports(&mut self, reports: &Vec<RestartReport>)
        ensures
            final(self)@ == old(self)@.after_reports(reports@),
    {
        let mut at: usize = 0;
        while at < reports.len()
            invariant
                at <= reports@.len(),
                self@ == old(self)@.after_reports(reports@.take(at as int)),
            decreases reports.len() - at,
        {
            match reports[at] {
                RestartReport::Begun(RestartPhase::Stop) => {},
                RestartReport::Begun(RestartPhase::ConfigureFirst) => {
                    self.on_phase(RestartPhase::Stop);
                },
                RestartReport::Begun(RestartPhase::ConfigureSecond) => {
                    if self.configure_first.is_pending() {
                        self.on_phase(RestartPhase::ConfigureFirst);
                    }
                },
                RestartReport::Begun(RestartPhase::Start) => {
                    self.on_phase(RestartPhase::ConfigureSecond);
                },
                RestartReport::ConfigureFirstFailed => self.on_configure_first_failed(),
            }
            at = at + 1;
            assert(reports@.take(at as int).drop_last() == reports@.take(at - 1));
        }
        assert(reports@.take(at as int) == reports@);
    }

    /// Marks the segment at which a restart failed.
    pub fn mark_restart_failed(&mut self)
        ensures
            final(self)@ == old(self)@.marked_failed(),
    {
        if self.stop.is_pending() {
            self.stop = StageStatus::Failed;
        } else if self.configure_second.is_pending() {
            self.configure_second = StageStatus::Failed;
        } else if self.start.is_pending() {
            self.start = StageStatus::Failed;
        }
    }

    /// Takes the start segment and the final state from the service.
    pub fn finalize_start_from_service(
        &mut self,
        session: &mut Session,
        service: &ServiceManager,
    ) -> (finalized: Result<(), Halt>)
        ensures
            final(session)@ == tried_state_run(old(session)@, service.unit@).after,
            (match finalized {
                Ok(_) => tried_state_run(old(session)@, service.unit@).done() && final(self)@
                    == old(self)@.finalized(tried_state_run(old(session)@, service.unit@).value()),
                Err(halt) => halt is Waiting && tried_state_run(old(session)@, service.unit@).end
                    is Waiting && final(self)@ == old(self)@,
            }),
    {
        match try_state(session, service)? {
            Ok(state) => {
                let active: bool = match &state {
                    ServiceState::Active => true,
                    _ => false,
                };
                if self.start.is_pending() {
                    self.start = if active {
                        StageStatus::Done("active".to_owned())
                    } else {
                        StageStatus::Failed
                    };
                }
                self.final_state = state.name();
            },
            Err(_) => {
                if self.start.is_pending() {
                    self.start = StageStatus::Failed;
                }
                if self.final_state.as_str().is_empty() {
                    self.final_state = "unknown".to_owned();
                }
            },
        }
        Ok(())
    }

    /// The printed lines, one for each segment.
    pub fn lines(&self) -> (lines: Vec<String>)
        ensures
            text::texts(lines@) == self@.lines(),
    {
        let mut lines: Vec<String> = Vec::new();
        if self.compact {
            lines.push(
                join2("      stop ................................. ", self.stop.text().as_str()),
            );
            lines.push(
                join2(
                    "      configure 1/2 ........................ ",
                    self.configure_first.text().as_str(),
                ),
            );
            lines.push(
                join2(
                    "      configure 2/2 ........................ ",
                    self.configure_second.text().as_str(),
                ),
            );
            lines.push(
                join2("      start ................................ ", self.start.text().as_str()),
            );
        }
        lines
    }

    /// The printed lines, each with its line end.
    pub fn write_lines(&self) -> (written: String)
        ensures
            written@ == ended_lines(self@.lines()),
    {
        let lines: Vec<String> = self.lines();
        let ghost all = text::texts(lines@);
        let mut written: String = String::new();
        let mut at: usize = 0;
        while at < lines.len()
            invariant
                at <= lines@.len(),
                all == text::texts(lines@),
                written@ == ended_lines(all.take(at as int)),
            decreases lines.len() - at,
        {
            written = join3(written.as_str(), lines[at].as_str(), "\n");
            at = at + 1;
            assert(all.take(at as int).drop_last() == all.take(at - 1));
        }
        assert(all.take(at as int) == all);
        written
    }
}

/// Lines, each with its line end.
pub open spec fn ended_lines(lines: Seq<Seq<char>>) -> Seq<char>
    decreases lines.len(),
{
    if lines.len() == 0 {
        Seq::empty()
    } else {
        ended_lines(lines.drop_last()) + lines.last() + "\n"@
    }
}

/// Making requests in order, whatever their replies say.
pub open spec fn told_run(t: Transcript, requests: Seq<RequestView>) -> Run<()>
    decreases requests.len(),
{
    if requests.len() == 0 {
        Run { after: t, end: End::Done(()) }
    } else {
        let first = t.tell(requests[0]);
        if !first.done() {
            first
        } else {
            told_run(first.after, requests.drop_first())
        }
    }
}

/// Makes requests in order, whatever their replies say.
fn tell_all(session: &mut Session, requests: Vec<Request>) -> (told: Result<(), Halt>)
    ensures
        final(session)@ == told_run(old(session)@, session::requests_said(requests@)).after,
        told_run(old(session)@, session::requests_said(requests@)).end == (match told {
            Ok(_) => End::Done(()),
            Err(halt) => halt.end(),
        }),
{
    let mut rest: Vec<Request> = requests;
    let ghost all = session::requests_said(requests@);
    let ghost whole = told_run(session@, all);
    while rest.len() > 0
        invariant
            whole == told_run(old(session)@, all),
            all == session::requests_said(requests@),
            whole == told_run(session@, session::requests_said(rest@)),
        decreases rest.len(),
    {
        let ghost before = session::requests_said(rest@);
        let request: Request = rest.remove(0);
        assert(session::requests_said(rest@) == before.drop_first());
        session.tell(request)?;
    }
    Ok(())
}

/// A failure that is reported before it ends the run.
pub open spec fn reported_failure_run<T>(
    t: Transcript,
    requests: Seq<RequestView>,
    message: Seq<char>,
) -> Run<T> {
    let told = told_run(t, requests);
    if !told.done() {
        told.stop()
    } else {
        Run { after: told.after, end: End::Failed(message) }
    }
}

/// Reports a failure before it ends the run.
fn report_failure(session: &mut Session, requests: Vec<Request>, failure: Failure) -> (halt: Halt)
    ensures
        final(session)@ == reported_failure_run::<()>(
            old(session)@,
            session::requests_said(requests@),
            failure@,
        ).after,
        halt.end::<()>() == reported_failure_run::<()>(
            old(session)@,
            session::requests_said(requests@),
            failure@,
        ).end,
{
    match tell_all(session, requests) {
        Ok(_) => Halt::Failed(failure),
        Err(halt) => halt,
    }
}

/// What compact progress prints of one thing: nothing, unless progress is compact.
pub open spec fn if_compact(compact: bool, requests: Seq<RequestView>) -> Seq<RequestView> {
    if compact {
        requests
    } else {
        Seq::empty()
    }
}

/// Printing lines.
pub open spec fn printed(lines: Seq<Seq<char>>) -> Seq<RequestView> {
    Seq::new(lines.len(), |i: int| RequestView::PrintLine(lines[i]))
}

impl UpdatePlan {
    /// What the restart acts on.
    pub open spec fn restart_target(self) -> RestartTarget {
        RestartTarget {
            unit: self.unit,
            as_root: self.as_root,
            repository: self.paths.repository,
            config: self.paths.config,
        }
    }

    /// What the update is reported by.
    pub open spec fn reporter(self) -> ProgressReporterView {
        ProgressReporterView {
            compact: self.compact,
            git_ref: self.git_ref,
            service: self.service_name,
            log_path: process::path_in(self.paths.log_dir, "val.log"@),
        }
    }
}

/// Reports what a full update is doing, when progress is compact.
#[derive(Debug, Clone, PartialEq, Eq)]
pub struct ProgressReporter {
    pub compact: bool,
    pub git_ref: String,
    pub service: String,
    pub log_path: String,
}

/// What a [`ProgressReporter`] says.
#[verifier::ext_equal]
pub struct ProgressReporterView {
    pub compact: bool,
    pub git_ref: Seq<char>,
    pub service: Seq<char>,
    pub log_path: Seq<char>,
}

impl View for ProgressReporter {
    type V = ProgressReporterView;

    open spec fn view(&self) -> ProgressReporterView {
        ProgressReporterView {
            compact: self.compact,
            git_ref: self.git_ref@,
            service: self.service@,
            log_path: self.log_path@,
        }
    }
}

impl ServiceImpact {
    /// What is printed of what became of a service.
    pub open spec fn shown(self, service: Seq<char>) -> Seq<char> {
        match self {
            ServiceImpact::Unchanged => "Service was not stopped."@,
            ServiceImpact::Stopped => "Service remains stopped ("@ + service + ")."@,
            ServiceImpact::FailedToRestart => "Service did not become active ("@ + service + ")."@,
            ServiceImpact::ReadinessUnknown =>
                "Service restart completed, but validator readiness is unknown ("@ + service
                + ")."@,
        }
    }

    /// Says what became of a service.
    pub fn text(&self, service: &str) -> (text: String)
        ensures
            text@ == self.shown(service@),
    {
        match self {
            ServiceImpact::Unchanged => "Service was not stopped.".to_owned(),
            ServiceImpact::Stopped => join3("Service remains stopped (", service, ")."),
            ServiceImpact::FailedToRestart => join3(
                "Service did not become active (",
                service,
                ").",
            ),
            ServiceImpact::ReadinessUnknown => join3(
                "Service restart completed, but validator readiness is unknown (",
                service,
                ").",
            ),
        }
    }
}

impl ProgressReporterView {
    /// Announcing the update stage.
    pub open spec fn begin(self) -> Seq<RequestView> {
        if_compact(
            self.compact,
            seq![
                RequestView::PrintLine("[1/3] Update Firedancer ("@ + self.git_ref + ")"@),
                RequestView::BeginStage("      checkout and dependencies"@),
            ],
        )
    }

    /// Starting a stage.
    pub open spec fn stage(self, label: Seq<char>) -> Seq<RequestView> {
        if_compact(self.compact, seq![RequestView::BeginStage(label)])
    }

    /// Ending the running stage.
    pub open spec fn finish(self, status: Seq<char>) -> Seq<RequestView> {
        if_compact(self.compact, seq![RequestView::FinishStage(status)])
    }

    /// Printing lines.
    pub open spec fn print(self, lines: Seq<Seq<char>>) -> Seq<RequestView> {
        if_compact(self.compact, printed(lines))
    }

    /// What is printed of a failure: the stage, the error, how the restart segments stand, what
    /// became of the service, and where the details are.
    pub open spec fn failure_lines(
        self,
        stage: Seq<char>,
        message: Seq<char>,
        impact: ServiceImpact,
        restart_lines: Seq<Seq<char>>,
    ) -> Seq<Seq<char>> {
        seq![""@, "Update failed during "@ + stage + "."@, "Error: "@ + message] + restart_lines
            + seq![impact.shown(self.service), "Detailed log: "@ + self.log_path]
    }

    /// What is printed of a completed update.
    pub open spec fn success_lines(
        self,
        total_nanos: u64,
        build_nanos: u64,
        final_state: Seq<char>,
    ) -> Seq<Seq<char>> {
        seq![
            ""@,
            "Update complete: "@ + self.git_ref,
            "Service: "@ + self.service + " ("@ + final_state + ")"@,
            "Build: "@ + progress::duration_text((build_nanos / 1_000_000_000) as u64)
                + " | Total: "@ + progress::duration_text((total_nanos / 1_000_000_000) as u64),
            "Detailed log: "@ + self.log_path,
        ]
    }
}

impl ProgressReporter {
    /// Creates a reporter for one update.
    pub fn new(compact: bool, git_ref: &str, service: &str, log_path: &str) -> (reporter:
        ProgressReporter)
        ensures
            reporter@ == (ProgressReporterView {
                compact,
                git_ref: git_ref@,
                service: service@,
                log_path: log_path@,
            }),
    {
        ProgressReporter {
            compact,
            git_ref: git_ref.to_owned(),
            service: service.to_owned(),
            log_path: log_path.to_owned(),
        }
    }

    /// Announces the update stage.
    pub fn begin(&self) -> (requests: Vec<Request>)
        ensures
            session::requests_said(requests@) == self@.begin(),
    {
        let mut requests: Vec<Request> = Vec::new();
        if self.compact {
            requests.push(
                Request::PrintLine(
                    join3("[1/3] Update Firedancer (", self.git_ref.as_str(), ")"),
                ),
            );
            requests.push(Request::BeginStage("      checkout and dependencies".to_owned()));
        }
        requests
    }

    /// Starts a stage.
    pub fn stage(&self, label: &str) -> (requests: Vec<Request>)
        ensures
            session::requests_said(requests@) == self@.stage(label@),
    {
        let mut requests: Vec<Request> = Vec::new();
        if self.compact {
            requests.push(Request::BeginStage(label.to_owned()));
        }
        requests
    }

    /// Ends the running stage.
    pub fn finish(&self, status: &str) -> (requests: Vec<Request>)
        ensures
            session::requests_said(requests@) == self@.finish(status@),
    {
        let mut requests: Vec<Request> = Vec::new();
        if self.compact {
            requests.push(Request::FinishStage(status.to_owned()));
        }
        requests
    }

    /// Prints lines.
    pub fn print(&self, lines: &Vec<String>) -> (requests: Vec<Request>)
        ensures
            session::requests_said(requests@) == self@.print(text::texts(lines@)),
    {
        let mut requests: Vec<Request> = Vec::new();
        if self.compact {
            let mut at: usize = 0;
            while at < lines.len()
                invariant
                    at <= lines@.len(),
                    session::requests_said(requests@) == printed(
                        text::texts(lines@).take(at as int),
                    ),
                decreases lines.len() - at,
            {
                let ghost before = session::requests_said(requests@);
                let ghost line = RequestView::PrintLine(lines@[at as int]@);
                requests.push(Request::PrintLine(lines[at].clone()));
                at = at + 1;
                assert(session::requests_said(requests@) == before.push(line));
                assert(printed(text::texts(lines@).take(at as int)) == before.push(line));
            }
            assert(text::texts(lines@).take(at as int) == text::texts(lines@));
        }
        requests
    }

    /// Says what is printed of a failure.
    pub fn failure_lines(
        &self,
        stage: &str,
        message: &str,
        impact: ServiceImpact,
        restart_lines: Vec<String>,
    ) -> (lines: Vec<String>)
        ensures
            text::texts(lines@) == self@.failure_lines(
                stage@,
                message@,
                impact,
                text::texts(restart_lines@),
            ),
    {
        let mut lines: Vec<String> = Vec::new();
        lines.push(String::new());
        lines.push(join3("Update failed during ", stage, "."));
        lines.push(join2("Error: ", message));
        let mut rest: Vec<String> = restart_lines;
        lines.append(&mut rest);
        lines.push(impact.text(self.service.as_str()));
        lines.push(join2("Detailed log: ", self.log_path.as_str()));
        proof {
            reveal_strlit("");
            let said = text::texts(lines@);
            let wanted = self@.failure_lines(
                stage@,
                message@,
                impact,
                text::texts(restart_lines@),
            );
            assert(said[0] == wanted[0]);
            assert(said == wanted);
        }
        lines
    }

    /// Says what is printed of a completed update.
    pub fn success_lines(&self, total_nanos: u64, build_nanos: u64, final_state: &str) -> (lines:
        Vec<String>)
        ensures
            text::texts(lines@) == self@.success_lines(total_nanos, build_nanos, final_state@),
    {
        let mut lines: Vec<String> = Vec::new();
        lines.push(String::new());
        lines.push(join2("Update complete: ", self.git_ref.as_str()));
        lines.push(join5("Service: ", self.service.as_str(), " (", final_state, ")"));
        lines.push(
            join4(
                "Build: ",
                format_duration(build_nanos / NANOS_PER_SECOND).as_str(),
                " | Total: ",
                format_duration(total_nanos / NANOS_PER_SECOND).as_str(),
            ),
        );
        lines.push(join2("Detailed log: ", self.log_path.as_str()));
        proof {
            reveal_strlit("");
            let said = text::texts(lines@);
            let wanted = self@.success_lines(total_nanos, build_nanos, final_state@);
            assert(said[0] == wanted[0]);
            assert(said == wanted);
        }
        lines
    }
}

/// The last segment: wait until the validator is running, and report the completed update.
pub open spec fn readiness_run(
    t: Transcript,
    plan: UpdatePlan,
    started: u64,
    build_nanos: u64,
    final_state: Seq<char>,
) -> Run<()> {
    let ready = monitor::wait_run(t, plan.paths.config);
    match ready.end {
        End::Waiting => ready,
        End::Failed(message) => reported_failure_run(
            ready.after,
            plan.reporter().print(
                plan.reporter().failure_lines(
                    "validator readiness"@,
                    message,
                    ServiceImpact::ReadinessUnknown,
                    Seq::empty(),
                ),
            ),
            message,
        ),
        End::Done(_) => {
            let ended = ready.after.now();
            if !ended.done() {
                ended.stop()
            } else {
                told_run(
                    ended.after,
                    plan.reporter().print(
                        plan.reporter().success_lines(
                            repository::elapsed(started, ended.value()),
                            build_nanos,
                            final_state,
                        ),
                    ),
                )
            }
        },
    }
}

/// Finding out what a failed restart left behind, and reporting it.
pub open spec fn failed_restart_run(
    t: Transcript,
    plan: UpdatePlan,
    reports: Seq<RestartReport>,
    message: Seq<char>,
) -> Run<()> {
    let first = tried_state_run(t, plan.unit);
    if !first.done() {
        first.stop()
    } else {
        let second = tried_state_run(first.after, plan.unit);
        if !second.done() {
            second.stop()
        } else {
            let segments = RestartProgressView::begun(plan.compact).after_reports(
                reports,
            ).marked_failed().finalized(second.value());
            reported_failure_run(
                second.after,
                plan.reporter().finish("failed"@) + plan.reporter().print(
                    plan.reporter().failure_lines(
                        "restart"@,
                        message,
                        restart_impact(first.value()),
                        segments.lines(),
                    ),
                ),
                message,
            )
        }
    }
}

/// Restarting the service, and what follows.
pub open spec fn restart_stage_run(
    t: Transcript,
    plan: UpdatePlan,
    started: u64,
    build_nanos: u64,
) -> Run<()> {
    let begun = told_run(t, plan.reporter().stage("[3/3] Restart service"@));
    if !begun.done() {
        begun
    } else {
        let restarted = restart::restart_run(begun.after, plan.restart_target());
        match restarted.run.end {
            End::Waiting => restarted.run,
            End::Failed(message) => failed_restart_run(
                restarted.run.after,
                plan,
                restarted.reports,
                message,
            ),
            End::Done(_) => {
                let read = tried_state_run(restarted.run.after, plan.unit);
                if !read.done() {
                    read.stop()
                } else {
                    let segments = RestartProgressView::begun(plan.compact).after_reports(
                        restarted.reports,
                    ).completed(RestartPhase::Start).finalized(read.value());
                    let told = told_run(
                        read.after,
                        plan.reporter().finish("done"@) + plan.reporter().print(
                            segments.lines() + seq!["Wait for validator"@],
                        ),
                    );
                    if !told.done() {
                        told
                    } else {
                        readiness_run(
                            told.after,
                            plan,
                            started,
                            build_nanos,
                            segments.final_state,
                        )
                    }
                }
            },
        }
    }
}

/// Reporting that a stage failed before the service was touched.
pub open spec fn failed_stage_run(
    t: Transcript,
    reporter: ProgressReporterView,
    stage: Seq<char>,
    message: Seq<char>,
) -> Run<()> {
    reported_failure_run(
        t,
        reporter.finish("failed"@) + reporter.print(
            reporter.failure_lines(stage, message, ServiceImpact::Unchanged, Seq::empty()),
        ),
        message,
    )
}

/// Building: the result is the time that the build took, in nanoseconds.
pub open spec fn build_stage_run(t: Transcript, plan: UpdatePlan) -> Run<u64> {
    let begun = told_run(t, plan.reporter().stage("[2/3] Build Firedancer"@));
    if !begun.done() {
        begun.stop()
    } else {
        let built = repository::make_run(begun.after, plan.paths.repository);
        match built.end {
            End::Waiting => built,
            End::Failed(message) => failed_stage_run(
                built.after,
                plan.reporter(),
                "build"@,
                message,
            ).stop(),
            End::Done(build_nanos) => told_run(
                built.after,
                plan.reporter().finish(
                    "done ("@ + progress::duration_text((build_nanos / 1_000_000_000) as u64)
                        + ")"@,
                ),
            ).with(build_nanos),
        }
    }
}

/// Updating the checkout.
pub open spec fn checkout_stage_run(t: Transcript, plan: UpdatePlan) -> Run<()> {
    let begun = told_run(t, plan.reporter().begin());
    if !begun.done() {
        begun
    } else {
        let updated = repository::update_run(begun.after, plan.paths.repository, plan.git_ref);
        match updated.end {
            End::Waiting => updated,
            End::Failed(message) => failed_stage_run(
                updated.after,
                plan.reporter(),
                "update"@,
                message,
            ),
            End::Done(_) => told_run(updated.after, plan.reporter().finish("done"@)),
        }
    }
}

/// Everything before the restart: update and build. The result is when the update started and how
/// long the build took.
pub open spec fn prepared_run(t: Transcript, plan: UpdatePlan) -> Run<(u64, u64)> {
    let started = t.now();
    if !started.done() {
        started.stop()
    } else {
        let updated = checkout_stage_run(started.after, plan);
        if !updated.done() {
            updated.stop()
        } else {
            let built = build_stage_run(updated.after, plan);
            built.with((started.value(), built.value()))
        }
    }
}

/// Updating, building, restarting, and waiting until the validator is running.
pub open spec fn update_stage_run(t: Transcript, plan: UpdatePlan) -> Run<()> {
    let prepared = prepared_run(t, plan);
    if !prepared.done() {
        prepared.stop()
    } else {
        restart_stage_run(prepared.after, plan, prepared.value().0, prepared.value().1)
    }
}

/// Updating with the output of child processes kept off the terminal until the end.
pub open spec fn quiet_run(t: Transcript, plan: UpdatePlan) -> Run<()> {
    let quiet = t.tell(RequestView::CompactOutput(true));
    if !quiet.done() {
        quiet
    } else {
        let updated = update_stage_run(quiet.after, plan);
        if updated.end is Waiting {
            updated
        } else {
            let restored = updated.after.tell(RequestView::CompactOutput(false));
            if !restored.done() {
                restored
            } else {
                Run { after: restored.after, end: updated.end }
            }
        }
    }
}

/// A full update: check that readiness can be read, update, build, restart, and wait.
pub open spec fn update_full_run(t: Transcript, plan: UpdatePlan) -> Run<()> {
    let checked = monitor::validate_run(t, plan.paths.config);
    if !checked.done() {
        checked
    } else if plan.compact {
        quiet_run(checked.after, plan)
    } else {
        update_stage_run(checked.after, plan)
    }
}

/// Waits until the validator is running, and reports the completed update.
fn await_readiness(
    session: &mut Session,
    paths: &AppPaths,
    reporter: &ProgressReporter,
    started: u64,
    build_nanos: u64,
    final_state: &str,
    Ghost(plan): Ghost<UpdatePlan>,
) -> (ready: Result<(), Halt>)
    requires
        paths@ == plan.paths,
        reporter@ == plan.reporter(),
    ensures
        final(session)@ == readiness_run(
            old(session)@,
            plan,
            started,
            build_nanos,
            final_state@,
        ).after,
        readiness_run(old(session)@, plan, started, build_nanos, final_state@).end == (
        match ready {
            Ok(_) => End::Done(()),
            Err(halt) => halt.end(),
        }),
{
    match wait_until_running(session, paths.config.as_str()) {
        Ok(_) => {},
        Err(Halt::Waiting) => {
            return Err(Halt::Waiting);
        },
        Err(Halt::Failed(failure)) => {
            let lines: Vec<String> = reporter.failure_lines(
                "validator readiness",
                failure.message.as_str(),
                ServiceImpact::ReadinessUnknown,
                Vec::new(),
            );
            return Err(report_failure(session, reporter.print(&lines), failure));
        },
    }
    let ended: u64 = session.now()?;
    let total: u64 = if ended >= started {
        ended - started
    } else {
        0
    };
    let lines: Vec<String> = reporter.success_lines(total, build_nanos, final_state);
    tell_all(session, reporter.print(&lines))
}

/// Finds out what a failed restart left behind, and reports it.
fn report_failed_restart(
    session: &mut Session,
    service: &ServiceManager,
    reporter: &ProgressReporter,
    reports: &Vec<RestartReport>,
    failure: Failure,
    Ghost(plan): Ghost<UpdatePlan>,
) -> (halt: Halt)
    requires
        service.unit@ == plan.unit,
        reporter@ == plan.reporter(),
    ensures
        final(session)@ == failed_restart_run(old(session)@, plan, reports@, failure@).after,
        failed_restart_run(old(session)@, plan, reports@, failure@).end == halt.end::<()>(),
{
    let mut segments: RestartProgress = RestartProgress::new(reporter.compact);
    segments.on_reports(reports);
    segments.mark_restart_failed();
    let impact: ServiceImpact = match classify_restart_failure(session, service) {
        Ok(impact) => impact,
        Err(halt) => {
            return halt;
        },
    };
    match segments.finalize_start_from_service(session, service) {
        Ok(_) => {},
        Err(halt) => {
            return halt;
        },
    }
    let lines: Vec<String> = reporter.failure_lines(
        "restart",
        failure.message.as_str(),
        impact,
        segments.lines(),
    );
    let requests: Vec<Request> = both(reporter.finish("failed"), reporter.print(&lines));
    report_failure(session, requests, failure)
}

/// Puts requests behind others.
fn both(first: Vec<Request>, second: Vec<Request>) -> (requests: Vec<Request>)
    ensures
        session::requests_said(requests@) == session::requests_said(first@)
            + session::requests_said(second@),
{
    let mut requests: Vec<Request> = first;
    let mut rest: Vec<Request> = second;
    requests.append(&mut rest);
    assert(session::requests_said(requests@) == session::requests_said(first@)
        + session::requests_said(second@));
    requests
}

/// Restarts the service, and does what follows.
fn run_restart_stage(
    session: &mut Session,
    service: &ServiceManager,
    paths: &AppPaths,
    reporter: &ProgressReporter,
    started: u64,
    build_nanos: u64,
    Ghost(plan): Ghost<UpdatePlan>,
) -> (restarted: Result<(), Halt>)
    requires
        service.unit@ == plan.unit,
        service.run_as_root == plan.as_root,
        paths@ == plan.paths,
        reporter@ == plan.reporter(),
    ensures
        final(session)@ == restart_stage_run(old(session)@, plan, started, build_nanos).after,
        restart_stage_run(old(session)@, plan, started, build_nanos).end == (match restarted {
            Ok(_) => End::Done(()),
            Err(halt) => halt.end(),
        }),
{
    tell_all(session, reporter.stage("[3/3] Restart service"))?;
    let mut log: ReportLog = ReportLog::new();
    let ghost before = session@;
    let restarted: Result<(), Halt> = restart_firedancer_with_reporter(
        session,
        service,
        paths.repository.as_str(),
        paths.config.as_str(),
        &mut log,
    );
    assert(restart::restart_target(*service, paths.repository@, paths.config@)
        == plan.restart_target());
    assert(log.reports@ == restart::restart_run(before, plan.restart_target()).reports);
    match restarted {
        Ok(_) => {},
        Err(Halt::Waiting) => {
            return Err(Halt::Waiting);
        },
        Err(Halt::Failed(failure)) => {
            return Err(
                report_failed_restart(
                    session,
                    service,
                    reporter,
                    &log.reports,
                    failure,
                    Ghost(plan),
                ),
            );
        },
    }
    let mut segments: RestartProgress = RestartProgress::new(reporter.compact);
    segments.on_reports(&log.reports);
    segments.on_phase(RestartPhase::Start);
    segments.finalize_start_from_service(session, service)?;
    let mut lines: Vec<String> = segments.lines();
    let ghost segment_lines = text::texts(lines@);
    lines.push("Wait for validator".to_owned());
    assert(text::texts(lines@) == segment_lines + seq!["Wait for validator"@]);
    let requests: Vec<Request> = both(reporter.finish("done"), reporter.print(&lines));
    tell_all(session, requests)?;
    await_readiness(
        session,
        paths,
        reporter,
        started,
        build_nanos,
        segments.final_state.as_str(),
        Ghost(plan),
    )
}

/// Reports that a stage failed before the service was touched.
fn fail_stage(
    session: &mut Session,
    reporter: &ProgressReporter,
    stage: &str,
    failure: Failure,
) -> (halt: Halt)
    ensures
        final(session)@ == failed_stage_run(old(session)@, reporter@, stage@, failure@).after,
        failed_stage_run(old(session)@, reporter@, stage@, failure@).end == halt.end::<()>(),
{
    let none: Vec<String> = Vec::new();
    assert(text::texts(none@) == Seq::<Seq<char>>::empty());
    let lines: Vec<String> = reporter.failure_lines(
        stage,
        failure.message.as_str(),
        ServiceImpact::Unchanged,
        none,
    );
    let requests: Vec<Request> = both(reporter.finish("failed"), reporter.print(&lines));
    report_failure(session, requests, failure)
}

/// Builds; returns the time that the build took, in nanoseconds.
fn run_build_stage(
    session: &mut Session,
    paths: &AppPaths,
    reporter: &ProgressReporter,
    Ghost(plan): Ghost<UpdatePlan>,
) -> (built: Result<u64, Halt>)
    requires
        paths@ == plan.paths,
        reporter@ == plan.reporter(),
    ensures
        final(session)@ == build_stage_run(old(session)@, plan).after,
        build_stage_run(old(session)@, plan).end == (match built {
            Ok(nanos) => End::Done(nanos),
            Err(halt) => halt.end(),
        }),
{
    tell_all(session, reporter.stage("[2/3] Build Firedancer"))?;
    let build_nanos: u64 = match make_firedancer(session, paths.repository.as_str()) {
        Ok(nanos) => nanos,
        Err(Halt::Waiting) => {
            return Err(Halt::Waiting);
        },
        Err(Halt::Failed(failure)) => {
            return Err(fail_stage(session, reporter, "build", failure));
        },
    };
    let status: String = join3(
        "done (",
        format_duration(build_nanos / NANOS_PER_SECOND).as_str(),
        ")",
    );
    tell_all(session, reporter.finish(status.as_str()))?;
    Ok(build_nanos)
}

/// Updates the checkout.
fn run_checkout_stage(
    session: &mut Session,
    paths: &AppPaths,
    reporter: &ProgressReporter,
    git_ref: &str,
    Ghost(plan): Ghost<UpdatePlan>,
) -> (updated: Result<(), Halt>)
    requires
        paths@ == plan.paths,
        git_ref@ == plan.git_ref,
        reporter@ == plan.reporter(),
    ensures
        final(session)@ == checkout_stage_run(old(session)@, plan).after,
        checkout_stage_run(old(session)@, plan).end == (match updated {
            Ok(_) => End::Done(()),
            Err(halt) => halt.end(),
        }),
{
    tell_all(session, reporter.begin())?;
    match update_firedancer(session, paths.repository.as_str(), git_ref) {
        Ok(_) => tell_all(session, reporter.finish("done")),
        Err(Halt::Waiting) => Err(Halt::Waiting),
        Err(Halt::Failed(failure)) => Err(fail_stage(session, reporter, "update", failure)),
    }
}

/// Updates, builds, restarts, and waits until the validator is running.
pub fn run_update_full(
    session: &mut Session,
    service: &ServiceManager,
    paths: &AppPaths,
    git_ref: &str,
    service_name: &str,
    compact: bool,
) -> (updated: Result<(), Halt>)
    ensures
        final(session)@ == update_stage_run(
            old(session)@,
            update_plan(*service, paths@, git_ref@, service_name@, compact),
        ).after,
        update_stage_run(
            old(session)@,
            update_plan(*service, paths@, git_ref@, service_name@, compact),
        ).end == (match updated {
            Ok(_) => End::Done(()),
            Err(halt) => halt.end(),
        }),
{
    let ghost plan = update_plan(*service, paths@, git_ref@, service_name@, compact);
    let log_path: String = executable_in(paths.log_dir.as_str(), "val.log");
    let reporter: ProgressReporter = ProgressReporter::new(
        compact,
        git_ref,
        service_name,
        log_path.as_str(),
    );
    let started: u64 = session.now()?;
    run_checkout_stage(session, paths, &reporter, git_ref, Ghost(plan))?;
    let build_nanos: u64 = run_build_stage(session, paths, &reporter, Ghost(plan))?;
    run_restart_stage(session, service, paths, &reporter, started, build_nanos, Ghost(plan))
}

/// Runs checkout, dependency install, build, restart, and readiness monitoring.
pub fn update_full(
    session: &mut Session,
    service: &ServiceManager,
    paths: &AppPaths,
    git_ref: &str,
    service_name: &str,
    compact: bool,
) -> (updated: Result<(), Halt>)
    ensures
        final(session)@ == update_full_run(
            old(session)@,
            update_plan(*service, paths@, git_ref@, service_name@, compact),
        ).after,
        update_full_run(
            old(session)@,
            update_plan(*service, paths@, git_ref@, service_name@, compact),
        ).end == (match updated {
            Ok(_) => End::Done(()),
            Err(halt) => halt.end(),
        }),
{
    validate_config(session, paths.config.as_str())?;
    if !compact {
        return run_update_full(session, service, paths, git_ref, service_name, compact);
    }
    session.tell(Request::CompactOutput(true))?;
    let updated: Result<(), Halt> = run_update_full(
        session,
        service,
        paths,
        git_ref,
        service_name,
        compact,
    );
    if let Err(Halt::Waiting) = updated {
        return Err(Halt::Waiting);
    }
    session.tell(Request::CompactOutput(false))?;
    updated
}

/// Requests that are all answered are all made, in order, whatever the answers are.
proof fn lemma_told_requests(t: Transcript, requests: Seq<RequestView>)
    requires
        t.asked.len() + requests.len() <= t.replies.len(),
    ensures
        told_run(t, requests).after.asked == t.asked + requests,
        told_run(t, requests).after.replies == t.replies,
        told_run(t, requests).done(),
    decreases requests.len(),
{
    if requests.len() > 0 {
        let first = t.tell(requests[0]);
        lemma_told_requests(first.after, requests.drop_first());
        assert(t.asked.push(requests[0]) + requests.drop_first() == t.asked + requests);
    } else {
        assert(t.asked + requests == t.asked);
    }
}

/// What became of the service is read off its state: an active one was not stopped, one that is neither
/// up nor down did not become active, and any other one, or one that cannot be looked at, is down.
pub proof fn law_impacts_follow_the_state(read: End<ServiceStateView>)
    ensures
        restart_impact(read) is Unchanged <==> read == End::Done(ServiceStateView::Active),
        restart_impact(read) is FailedToRestart <==> read == End::Done(
            ServiceStateView::Activating,
        ) || read == End::Done(ServiceStateView::Deactivating) || read == End::Done(
            ServiceStateView::Failed,
        ),
        !(restart_impact(read) is Unchanged) && !(restart_impact(read) is FailedToRestart)
            ==> restart_impact(read) is Stopped,
{
}

/// What became of the service is said with its name, unless nothing did.
pub proof fn law_impacts_name_the_service(service: Seq<char>)
    ensures
        ServiceImpact::Unchanged.shown(service) == "Service was not stopped."@,
        ServiceImpact::Stopped.shown(service) == "Service remains stopped ("@ + service + seq![
            ')',
            '.',
        ],
        ServiceImpact::FailedToRestart.shown(service) == "Service did not become active ("@
            + service + seq![')', '.'],
        ServiceImpact::ReadinessUnknown.shown(service)
            == "Service restart completed, but validator readiness is unknown ("@ + service + seq![
            ')',
            '.',
        ],
{
    reveal_strlit(").");
    assert(")."@ == seq![')', '.']);
}

/// A status is shown in one word, with what is known of it.
pub proof fn law_statuses_are_shown(detail: Seq<char>)
    ensures
        StageStatusView::Pending.shown() == "pending"@,
        StageStatusView::Failed.shown() == "failed"@,
        StageStatusView::Warning(detail).shown() == "warning; "@ + detail,
        detail.len() == 0 ==> StageStatusView::Done(detail).shown() == "done"@,
        detail.len() > 0 ==> StageStatusView::Done(detail).shown() == "done ("@ + detail + ")"@,
{
}

/// A failed restart is shown to have failed in the first segment that has to succeed and did not. The
/// start is shown as done only if the service was seen active or the start was known to be done.
pub proof fn law_failures_are_shown_where_they_happened(
    progress: RestartProgressView,
    read: End<ServiceStateView>,
)
    ensures
        ({
            let marked = progress.marked_failed();
            &&& marked.compact == progress.compact
            &&& marked.configure_first == progress.configure_first
            &&& progress.stop is Pending ==> marked.stop is Failed && marked.configure_second
                == progress.configure_second && marked.start == progress.start
            &&& !(progress.stop is Pending) ==> marked.stop == progress.stop
            &&& !(progress.stop is Pending) && progress.configure_second is Pending
                ==> marked.configure_second is Failed && marked.start == progress.start
            &&& !(progress.stop is Pending) && !(progress.configure_second is Pending)
                ==> marked.configure_second == progress.configure_second && (progress.start
                is Pending ==> marked.start is Failed)
        }),
        ({
            let last = progress.finalized(read);
            let active = read == End::<ServiceStateView>::Done(ServiceStateView::Active);
            &&& last.stop == progress.stop
            &&& last.configure_first == progress.configure_first
            &&& last.configure_second == progress.configure_second
            &&& progress.start is Pending && active ==> last.start == StageStatusView::Done(
                "active"@,
            )
            &&& progress.start is Pending && !active ==> last.start is Failed
            &&& !(progress.start is Pending) ==> last.start == progress.start
            &&& read matches End::Done(state) ==> last.final_state == state.name()
            &&& !(read is Done) && progress.final_state.len() == 0 ==> last.final_state
                == "unknown"@
            &&& !(read is Done) && progress.final_state.len() > 0 ==> last.final_state
                == progress.final_state
        }),
{
}

/// The segments of a restart are printed on a line each, in their order and with their statuses in one
/// column, and only in compact progress.
pub proof fn law_segments_have_a_line_each(progress: RestartProgressView)
    ensures
        !progress.compact ==> progress.lines().len() == 0,
        progress.compact ==> {
            let lines = progress.lines();
            &&& lines.len() == 4
            &&& lines[0] == "      stop ................................. "@
                + progress.stop.shown()
            &&& lines[1] == "      configure 1/2 ........................ "@
                + progress.configure_first.shown()
            &&& lines[2] == "      configure 2/2 ........................ "@
                + progress.configure_second.shown()
            &&& lines[3] == "      start ................................ "@
                + progress.start.shown()
            &&& lines[0].len() - progress.stop.shown().len() == 45
            &&& lines[1].len() - progress.configure_first.shown().len() == 45
            &&& lines[2].len() - progress.configure_second.shown().len() == 45
            &&& lines[3].len() - progress.start.shown().len() == 45
        },
{
    reveal_strlit("      stop ................................. ");
    reveal_strlit("      configure 1/2 ........................ ");
    reveal_strlit("      configure 2/2 ........................ ");
    reveal_strlit("      start ................................ ");
}

/// A stage that fails before the service was touched is said to have failed, with the error, that the
/// service was not stopped, and where the log is. Without compact progress nothing is printed. Either
/// way the error ends the update.
pub proof fn law_early_failures_leave_the_service(
    t: Transcript,
    reporter: ProgressReporterView,
    stage: Seq<char>,
    message: Seq<char>,
)
    requires
        t.asked.len() + 6 <= t.replies.len(),
    ensures
        ({
            let run = failed_stage_run(t, reporter, stage, message);
            &&& run.end == End::<()>::Failed(message)
            &&& reporter.compact ==> run.after.asked == t.asked + seq![
                RequestView::FinishStage("failed"@),
                RequestView::PrintLine(Seq::empty()),
                RequestView::PrintLine("Update failed during "@ + stage + "."@),
                RequestView::PrintLine("Error: "@ + message),
                RequestView::PrintLine("Service was not stopped."@),
                RequestView::PrintLine("Detailed log: "@ + reporter.log_path),
            ]
            &&& !reporter.compact ==> run.after == t
        }),
{
    reveal_strlit("");
    assert(""@ == Seq::<char>::empty());
    let lines = reporter.failure_lines(stage, message, ServiceImpact::Unchanged, Seq::empty());
    assert(lines == seq![
        ""@,
        "Update failed during "@ + stage + "."@,
        "Error: "@ + message,
        "Service was not stopped."@,
        "Detailed log: "@ + reporter.log_path,
    ]);
    let requests = reporter.finish("failed"@) + reporter.print(lines);
    if reporter.compact {
        assert(requests == seq![
            RequestView::FinishStage("failed"@),
            RequestView::PrintLine(Seq::empty()),
            RequestView::PrintLine("Update failed during "@ + stage + "."@),
            RequestView::PrintLine("Error: "@ + message),
            RequestView::PrintLine("Service was not stopped."@),
            RequestView::PrintLine("Detailed log: "@ + reporter.log_path),
        ]);
        lemma_told_requests(t, requests);
    } else {
        assert(requests == Seq::<RequestView>::empty());
    }
}

/// A failure is printed with its stage, the error, how the segments of the restart stand, what became
/// of the service, and where the log is, in this order.
pub proof fn law_failures_are_printed_in_order(
    reporter: ProgressReporterView,
    stage: Seq<char>,
    message: Seq<char>,
    impact: ServiceImpact,
    segments: Seq<Seq<char>>,
)
    ensures
        ({
            let lines = reporter.failure_lines(stage, message, impact, segments);
            &&& lines.len() == segments.len() + 5
            &&& lines[0].len() == 0
            &&& lines[1] == "Update failed during "@ + stage + "."@
            &&& lines[2] == "Error: "@ + message
            &&& lines.subrange(3, 3 + segments.len() as int) == segments
            &&& lines[3 + segments.len() as int] == impact.shown(reporter.service)
            &&& lines.last() == "Detailed log: "@ + reporter.log_path
        }),
{
    reveal_strlit("");
    let lines = reporter.failure_lines(stage, message, impact, segments);
    assert(lines.subrange(3, 3 + segments.len() as int) == segments);
}

/// An update that completes is said to be complete with its ref, the service and its state, how long the
/// build and the whole took, and where the log is.
pub proof fn law_completed_updates_are_printed(
    reporter: ProgressReporterView,
    total_seconds: u64,
    build_seconds: u64,
    state: Seq<char>,
)
    requires
        total_seconds * 1_000_000_000 <= u64::MAX,
        build_seconds * 1_000_000_000 <= u64::MAX,
    ensures
        ({
            let lines = reporter.success_lines(
                (total_seconds * 1_000_000_000) as u64,
                (build_seconds * 1_000_000_000) as u64,
                state,
            );
            &&& lines.len() == 5
            &&& lines[0].len() == 0
            &&& lines[1] == "Update complete: "@ + reporter.git_ref
            &&& lines[2] == "Service: "@ + reporter.service + " ("@ + state + ")"@
            &&& lines[3] == "Build: "@ + progress::duration_text(build_seconds) + " | Total: "@
                + progress::duration_text(total_seconds)
            &&& lines[4] == "Detailed log: "@ + reporter.log_path
        }),
{
    reveal_strlit("");
    let total = (total_seconds * 1_000_000_000) as u64;
    let build = (build_seconds * 1_000_000_000) as u64;
    assert(total / 1_000_000_000 == total_seconds) by (nonlinear_arith)
        requires
            total == total_seconds * 1_000_000_000,
    ;
    assert(build / 1_000_000_000 == build_seconds) by (nonlinear_arith)
        requires
            build == build_seconds * 1_000_000_000,
    ;
}

/// Compact progress begins with the ref, names each stage when it begins, and shows how it ended.
/// Without compact progress none of this is printed. The log that is named is the program's.
pub proof fn law_only_compact_progress_is_printed(
    plan: UpdatePlan,
    label: Seq<char>,
    lines: Seq<Seq<char>>,
)
    ensures
        ({
            let reporter = plan.reporter();
            &&& reporter.log_path == process::path_in(plan.paths.log_dir, "val.log"@)
            &&& reporter.service == plan.service_name
            &&& reporter.git_ref == plan.git_ref
            &&& reporter.compact == plan.compact
            &&& !plan.compact ==> reporter.begin().len() == 0 && reporter.stage(label).len() == 0
                && reporter.finish(label).len() == 0 && reporter.print(lines).len() == 0
            &&& plan.compact ==> {
                &&& reporter.begin() == seq![
                    RequestView::PrintLine("[1/3] Update Firedancer ("@ + plan.git_ref + ")"@),
                    RequestView::BeginStage("      checkout and dependencies"@),
                ]
                &&& reporter.stage(label) == seq![RequestView::BeginStage(label)]
                &&& reporter.finish(label) == seq![RequestView::FinishStage(label)]
                &&& reporter.print(lines).len() == lines.len()
                &&& forall|i: int|
                    0 <= i < lines.len() ==> #[trigger] reporter.print(lines)[i]
                        == RequestView::PrintLine(lines[i])
            }
        }),
        plan.restart_target().unit == plan.unit,
        plan.restart_target().as_root == plan.as_root,
        plan.restart_target().repository == plan.paths.repository,
        plan.restart_target().config == plan.paths.config,
{
}

/// Whether the validator runs is not known if waiting for it fails: this is said, with the error, and the
/// service is not said to be down. If it runs, the update is said to be complete.
pub proof fn law_readiness_decides_what_is_printed(
    t: Transcript,
    plan: UpdatePlan,
    started: u64,
    build_nanos: u64,
    state: Seq<char>,
)
    requires
        plan.compact,
        monitor::wait_run(t, plan.paths.config).after.asked.len() + 6 <= t.replies.len(),
        monitor::wait_run(t, plan.paths.config).after.replies == t.replies,
    ensures
        ({
            let run = readiness_run(t, plan, started, build_nanos, state);
            let waited = monitor::wait_run(t, plan.paths.config);
            let service = plan.service_name;
            let log = process::path_in(plan.paths.log_dir, "val.log"@);
            &&& waited.end matches End::Failed(message) ==> {
                &&& run.end == End::<()>::Failed(message)
                &&& run.after.asked == waited.after.asked + seq![
                    RequestView::PrintLine(Seq::empty()),
                    RequestView::PrintLine("Update failed during validator readiness."@),
                    RequestView::PrintLine("Error: "@ + message),
                    RequestView::PrintLine(
                        "Service restart completed, but validator readiness is unknown ("@
                            + service + ")."@,
                    ),
                    RequestView::PrintLine("Detailed log: "@ + log),
                ]
            }
            &&& waited.done() ==> (waited.after.reply() matches Some(ReplyView::Moment(ended)) ==> {
                &&& run.done()
                &&& run.after.asked.len() == waited.after.asked.len() + 6
                &&& run.after.asked[waited.after.asked.len() as int] is Now
                &&& run.after.asked[waited.after.asked.len() as int + 2] == RequestView::PrintLine(
                    "Update complete: "@ + plan.git_ref,
                )
                &&& run.after.asked[waited.after.asked.len() as int + 3] == RequestView::PrintLine(
                    "Service: "@ + service + " ("@ + state + ")"@,
                )
                &&& started <= ended ==> run.after.asked[waited.after.asked.len() as int + 4]
                    == RequestView::PrintLine(
                    "Build: "@ + progress::duration_text((build_nanos / 1_000_000_000) as u64)
                        + " | Total: "@ + progress::duration_text(
                        ((ended - started) as u64 / 1_000_000_000) as u64,
                    ),
                )
            })
        }),
{
    reveal_strlit("");
    reveal_strlit("Update failed during ");
    reveal_strlit("validator readiness");
    reveal_strlit(".");
    reveal_strlit("Update failed during validator readiness.");
    assert(""@ == Seq::<char>::empty());
    assert("Update failed during "@ + "validator readiness"@ + "."@
        == "Update failed during validator readiness."@);
    let waited = monitor::wait_run(t, plan.paths.config);
    match waited.end {
        End::Failed(message) => {
            let lines = plan.reporter().failure_lines(
                "validator readiness"@,
                message,
                ServiceImpact::ReadinessUnknown,
                Seq::empty(),
            );
            let requests = plan.reporter().print(lines);
            assert(requests == seq![
                RequestView::PrintLine(Seq::empty()),
                RequestView::PrintLine("Update failed during validator readiness."@),
                RequestView::PrintLine("Error: "@ + message),
                RequestView::PrintLine(
                    "Service restart completed, but validator readiness is unknown ("@
                        + plan.service_name + ")."@,
                ),
                RequestView::PrintLine(
                    "Detailed log: "@ + process::path_in(plan.paths.log_dir, "val.log"@),
                ),
            ]);
            lemma_told_requests(waited.after, requests);
        },
        End::Done(_) => {
            let ended = waited.after.now();
            let requests = plan.reporter().print(
                plan.reporter().success_lines(
                    repository::elapsed(started, ended.value()),
                    build_nanos,
                    state,
                ),
            );
            assert(requests.len() == 5);
            lemma_told_requests(ended.after, requests);
        },
        _ => {},
    }
}

/// Lines that are written each have their line end.
pub proof fn law_written_lines_are_ended(lines: Seq<Seq<char>>, line: Seq<char>)
    ensures
        ended_lines(Seq::empty()) == Seq::<char>::empty(),
        ended_lines(lines.push(line)) == ended_lines(lines) + line + seq!['\n'],
{
    reveal_strlit("\n");
    assert("\n"@ == seq!['\n']);
    assert(lines.push(line).drop_last() == lines);
}

/// A restart that failed is reported with what the service was found in first, and with how its segments
/// stand when it was looked at again. The restart's own error ends the update.
pub proof fn law_failed_restarts_are_reported(
    t: Transcript,
    plan: UpdatePlan,
    reports: Seq<RestartReport>,
    message: Seq<char>,
    first: process::CommandOutcomeView,
    second: process::CommandOutcomeView,
    found: ServiceStateView,
    last: ServiceStateView,
)
    requires
        plan.compact,
        t.asked.len() + 12 <= t.replies.len(),
        t.replies[t.asked.len() as int] == ReplyView::Outcome(first),
        t.replies[t.asked.len() as int + 1] == ReplyView::Outcome(second),
        first.success,
        second.success,
        service::described_state(first.stdout) == Some(found),
        service::described_state(second.stdout) == Some(last),
    ensures
        ({
            let run = failed_restart_run(t, plan, reports, message);
            let place = t.asked.len() as int;
            let segments = RestartProgressView::begun(true).after_reports(
                reports,
            ).marked_failed().finalized(End::Done(last));
            &&& run.end == End::<()>::Failed(message)
            &&& run.after.asked.len() == place + 12
            &&& run.after.asked[place] is Capture
            &&& run.after.asked[place + 1] is Capture
            &&& run.after.asked[place + 2] == RequestView::FinishStage("failed"@)
            &&& run.after.asked[place + 4] == RequestView::PrintLine(
                "Update failed during restart."@,
            )
            &&& run.after.asked[place + 5] == RequestView::PrintLine("Error: "@ + message)
            &&& run.after.asked[place + 6] == RequestView::PrintLine(segments.lines()[0])
            &&& run.after.asked[place + 7] == RequestView::PrintLine(segments.lines()[1])
            &&& run.after.asked[place + 8] == RequestView::PrintLine(segments.lines()[2])
            &&& run.after.asked[place + 9] == RequestView::PrintLine(segments.lines()[3])
            &&& run.after.asked[place + 10] == RequestView::PrintLine(
                restart_impact(End::Done(found)).shown(plan.service_name),
            )
            &&& run.after.asked[place + 11] == RequestView::PrintLine(
                "Detailed log: "@ + process::path_in(plan.paths.log_dir, "val.log"@),
            )
        }),
{
    reveal_strlit("Update failed during ");
    reveal_strlit("restart");
    reveal_strlit(".");
    reveal_strlit("Update failed during restart.");
    assert("Update failed during "@ + "restart"@ + "."@ == "Update failed during restart."@);
    let one = tried_state_run(t, plan.unit);
    assert(one.after.asked.len() == t.asked.len() + 1);
    let two = tried_state_run(one.after, plan.unit);
    assert(two.after.asked.len() == t.asked.len() + 2);
    let segments = RestartProgressView::begun(true).after_reports(
        reports,
    ).marked_failed().finalized(End::Done(last));
    lemma_reports_keep_progress_compact(RestartProgressView::begun(true), reports);
    assert(segments.compact);
    let lines = plan.reporter().failure_lines(
        "restart"@,
        message,
        restart_impact(End::Done(found)),
        segments.lines(),
    );
    assert(lines.len() == 9);
    let requests = plan.reporter().finish("failed"@) + plan.reporter().print(lines);
    assert(requests.len() == 10);
    lemma_told_requests(two.after, requests);
}

/// Reports do not change whether progress is compact.
proof fn lemma_reports_keep_progress_compact(
    progress: RestartProgressView,
    reports: Seq<RestartReport>,
)
    ensures
        progress.after_reports(reports).compact == progress.compact,
    decreases reports.len(),
{
    if reports.len() > 0 {
        lemma_reports_keep_progress_compact(progress, reports.drop_last());
    }
}

/// Each stage is named when it begins and shown with its outcome when it ends: the update with its ref,
/// the build with how long it took. An error of either is reported as that stage's.
pub proof fn law_stages_are_named(t: Transcript, plan: UpdatePlan)
    requires
        t.asked.len() + 2 <= t.replies.len(),
    ensures
        ({
            let begun = if plan.compact {
                t.ask(
                    RequestView::PrintLine("[1/3] Update Firedancer ("@ + plan.git_ref + ")"@),
                ).ask(RequestView::BeginStage("      checkout and dependencies"@))
            } else {
                t
            };
            let updated = repository::update_run(begun, plan.paths.repository, plan.git_ref);
            let run = checkout_stage_run(t, plan);
            &&& updated.done() && plan.compact ==> run.after.asked == updated.after.asked.push(
                RequestView::FinishStage("done"@),
            )
            &&& updated.done() && !plan.compact ==> run == updated
            &&& updated.end matches End::Failed(message) ==> run == failed_stage_run(
                updated.after,
                plan.reporter(),
                "update"@,
                message,
            )
            &&& run.done() ==> updated.done()
        }),
        ({
            let begun = if plan.compact {
                t.ask(RequestView::BeginStage("[2/3] Build Firedancer"@))
            } else {
                t
            };
            let built = repository::make_run(begun, plan.paths.repository);
            let run = build_stage_run(t, plan);
            let seconds = (built.value() / 1_000_000_000) as u64;
            &&& built.done() && plan.compact ==> run.after.asked == built.after.asked.push(
                RequestView::FinishStage("done ("@ + progress::duration_text(seconds) + ")"@),
            )
            &&& built.done() && !plan.compact ==> run == built
            &&& run.done() ==> built.done() && run.value() == built.value()
            &&& built.end matches End::Failed(message) ==> run == failed_stage_run(
                built.after,
                plan.reporter(),
                "build"@,
                message,
            ).stop::<u64>()
        }),
{
    let begin = plan.reporter().begin();
    let stage = plan.reporter().stage("[2/3] Build Firedancer"@);
    if plan.compact {
        lemma_told_twice(t, begin);
        assert(begin[0] == RequestView::PrintLine(
            "[1/3] Update Firedancer ("@ + plan.git_ref + ")"@,
        ));
        lemma_told_once(t, stage);
    } else {
        assert(begin == Seq::<RequestView>::empty());
        assert(stage == Seq::<RequestView>::empty());
    }
    lemma_finished_stages(plan);
}

/// One request is made by itself.
proof fn lemma_told_once(t: Transcript, requests: Seq<RequestView>)
    requires
        requests.len() == 1,
    ensures
        told_run(t, requests).after == t.ask(requests[0]),
        told_run(t, requests).done() <==> t.reply() is Some,
{
    reveal_with_fuel(told_run, 2);
    assert(requests.drop_first() == Seq::<RequestView>::empty());
}

/// Two requests are made one after the other.
proof fn lemma_told_twice(t: Transcript, requests: Seq<RequestView>)
    requires
        requests.len() == 2,
        t.asked.len() + 2 <= t.replies.len(),
    ensures
        told_run(t, requests).after == t.ask(requests[0]).ask(requests[1]),
        told_run(t, requests).done(),
{
    lemma_told_once(t.ask(requests[0]), requests.drop_first());
    assert(requests.drop_first()[0] == requests[1]);
}

/// A stage that ends says so once.
proof fn lemma_finished_stages(plan: UpdatePlan)
    ensures
        forall|later: Transcript, status: Seq<char>|
            {
                let run = #[trigger] told_run(later, plan.reporter().finish(status));
                &&& plan.compact ==> run.after == later.ask(RequestView::FinishStage(status))
                &&& !plan.compact ==> run.after == later && run.done()
            },
{
    assert forall|later: Transcript, status: Seq<char>|
        {
            let run = #[trigger] told_run(later, plan.reporter().finish(status));
            &&& plan.compact ==> run.after == later.ask(RequestView::FinishStage(status))
            &&& !plan.compact ==> run.after == later && run.done()
        } by {
        let requests = plan.reporter().finish(status);
        if plan.compact {
            lemma_told_once(later, requests);
            assert(requests[0] == RequestView::FinishStage(status));
        } else {
            assert(requests == Seq::<RequestView>::empty());
        }
    }
}

/// Progress of a restart begins with every segment pending, and a segment that is done says what it led
/// to.
pub proof fn law_done_segments_say_what_they_led_to(progress: RestartProgressView, compact: bool)
    ensures
        ({
            let begun = RestartProgressView::begun(compact);
            &&& begun.compact == compact
            &&& begun.stop is Pending && begun.configure_first is Pending && begun.configure_second
                is Pending && begun.start is Pending
            &&& begun.final_state.len() == 0
        }),
        progress.completed(RestartPhase::Stop) == (RestartProgressView {
            stop: StageStatusView::Done("inactive"@),
            ..progress
        }),
        progress.completed(RestartPhase::ConfigureFirst) == (RestartProgressView {
            configure_first: StageStatusView::Done(Seq::empty()),
            ..progress
        }),
        progress.completed(RestartPhase::ConfigureSecond) == (RestartProgressView {
            configure_second: StageStatusView::Done(Seq::empty()),
            ..progress
        }),
        progress.completed(RestartPhase::Start) == (RestartProgressView {
            start: StageStatusView::Done("active"@),
            ..progress
        }),
        progress.retried() == (RestartProgressView {
            configure_first: StageStatusView::Warning("retrying"@),
            ..progress
        }),
{
}

/// A full update fails only if its configuration cannot be used or if a stage fails, and then with that
/// error: nothing else makes it fail, and a stage's failure is never passed over.
pub proof fn law_full_updates_fail_only_with_a_stage(
    t: Transcript,
    plan: UpdatePlan,
    started: u64,
    build_nanos: u64,
    message: Seq<char>,
)
    ensures
        ({
            let checked = monitor::validate_run(t, plan.paths.config);
            let quiet = if plan.compact {
                checked.after.ask(RequestView::CompactOutput(true))
            } else {
                checked.after
            };
            let staged = update_stage_run(quiet, plan);
            &&& update_full_run(t, plan).end == End::<()>::Failed(message) ==> checked.end == End::<
                (),
            >::Failed(message) || staged.end == End::<()>::Failed(message)
            &&& update_full_run(t, plan).done() ==> checked.done() && staged.done()
        }),
        ({
            let prepared = prepared_run(t, plan);
            let restarted = restart_stage_run(
                prepared.after,
                plan,
                prepared.value().0,
                prepared.value().1,
            );
            &&& prepared.done() ==> update_stage_run(t, plan) == restarted
            &&& !prepared.done() ==> update_stage_run(t, plan) == prepared.stop::<()>()
        }),
        ({
            let begun = t.now();
            let updated = checkout_stage_run(begun.after, plan);
            let built = build_stage_run(updated.after, plan);
            let run = prepared_run(t, plan);
            &&& run.end == End::<(u64, u64)>::Failed(message) ==> updated.end == End::<
                (),
            >::Failed(message) || built.end == End::<u64>::Failed(message)
            &&& run.done() ==> run.value().0 == begun.value() && run.value().1 == built.value()
        }),
        ({
            let begun = told_run(t, plan.reporter().stage("[3/3] Restart service"@));
            let restarted = restart::restart_run(begun.after, plan.restart_target());
            let run = restart_stage_run(t, plan, started, build_nanos);
            &&& begun.done() ==> (restarted.run.end matches End::Failed(reason) ==> run
                == failed_restart_run(restarted.run.after, plan, restarted.reports, reason))
            &&& begun.done() && restarted.run.done() ==> {
                let read = tried_state_run(restarted.run.after, plan.unit);
                let segments = RestartProgressView::begun(plan.compact).after_reports(
                    restarted.reports,
                ).completed(RestartPhase::Start).finalized(read.value());
                let told = told_run(
                    read.after,
                    plan.reporter().finish("done"@) + plan.reporter().print(
                        segments.lines() + seq!["Wait for validator"@],
                    ),
                );
                read.done() && told.done() ==> run == readiness_run(
                    told.after,
                    plan,
                    started,
                    build_nanos,
                    segments.final_state,
                )
            }
        }),
{
}

/// A full update acts on what it was given: the service's unit and rights, the paths, the ref, and the
/// name under which the service is reported.
pub proof fn law_plans_hold_what_was_given(
    service: ServiceManager,
    paths: AppPathsView,
    git_ref: Seq<char>,
    service_name: Seq<char>,
    compact: bool,
)
    ensures
        ({
            let plan = update_plan(service, paths, git_ref, service_name, compact);
            &&& plan.paths == paths
            &&& plan.unit == service.unit@
            &&& plan.as_root == service.run_as_root
            &&& plan.git_ref == git_ref
            &&& plan.service_name == service_name
            &&& plan.compact == compact
        }),
{
}

} // verus!
