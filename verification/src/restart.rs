//! Stop, configure twice, and start Firedancer.

use vstd::prelude::*;

use crate::configure;
use crate::configure::{configure_firedancer, validate_prerequisites};
use crate::logging::{FieldValueView, FieldView, Level, LogEvent, LogEventView};
use crate::service;
use crate::service::ServiceManager;
use crate::session::{End, Halt, ReplyView, RequestView, Run, Session, Transcript};
use crate::text::join2;

verus! {

/// One restart segment surfaced to progress reporters.
#[derive(Debug, Clone, Copy, PartialEq, Eq, Structural)]
pub enum RestartPhase {
    Stop,
    ConfigureFirst,
    ConfigureSecond,
    Start,
}

/// What a progress reporter learns of a restart.
#[derive(Debug, Clone, Copy, PartialEq, Eq, Structural)]
pub enum RestartReport {
    /// A segment is about to begin.
    Begun(RestartPhase),
    /// The first configure pass failed; the second one follows.
    ConfigureFirstFailed,
}

/// Receives restart segment transitions for compact progress output.
pub trait RestartReporter {
    /// What has been reported so far.
    spec fn reported(&self) -> Seq<RestartReport>;

    /// Called immediately before a restart segment begins.
    fn on_phase(&mut self, phase: RestartPhase)
        ensures
            final(self).reported() == old(self).reported().push(RestartReport::Begun(phase)),
    ;

    /// Called when the first configure pass fails but the second pass will run.
    fn on_configure_first_failed(&mut self)
        ensures
            final(self).reported() == old(self).reported().push(
                RestartReport::ConfigureFirstFailed,
            ),
    ;
}

/// A reporter that keeps everything in order.
pub struct ReportLog {
    pub reports: Vec<RestartReport>,
}

impl ReportLog {
    /// A reporter that has learned nothing yet.
    pub fn new() -> (log: ReportLog)
        ensures
            log.reported() == Seq::<RestartReport>::empty(),
    {
        ReportLog { reports: Vec::new() }
    }
}

impl RestartReporter for ReportLog {
    open spec fn reported(&self) -> Seq<RestartReport> {
        self.reports@
    }

    fn on_phase(&mut self, phase: RestartPhase) {
        self.reports.push(RestartReport::Begun(phase));
    }

    fn on_configure_first_failed(&mut self) {
        self.reports.push(RestartReport::ConfigureFirstFailed);
    }
}

/// What a restart acts on.
#[verifier::ext_equal]
pub struct RestartTarget {
    pub unit: Seq<char>,
    pub as_root: bool,
    pub repository: Seq<char>,
    pub config: Seq<char>,
}

/// A run of a restart and what it has reported.
#[verifier::ext_equal]
pub struct RestartRun {
    pub run: Run<()>,
    pub reports: Seq<RestartReport>,
}

impl RestartRun {
    /// Whether another run, over more replies, takes this one up, with the same reports.
    pub open spec fn resumed_by(self, later: RestartRun, more: Seq<ReplyView>) -> bool {
        &&& self.run.resumed_by(later.run, more)
        &&& !(self.run.end is Waiting) ==> later.reports == self.reports
    }
}

/// An event of this module.
pub open spec fn restart_event(level: Level, message: Seq<char>) -> LogEventView {
    LogEventView::new(level, "val::restart"@, message)
}

/// What is logged before the first segment.
pub open spec fn restarting_event() -> LogEventView {
    restart_event(Level::Info, "restarting Firedancer (stop, configure, configure, start)"@)
}

/// What is logged of a first configure pass that failed.
pub open spec fn retry_event(message: Seq<char>) -> LogEventView {
    restart_event(Level::Warn, "first configure pass failed; continuing to second pass"@).shown(
        "error"@,
        message,
    )
}

/// Announcing a segment in the log.
pub open spec fn announced(t: Transcript, segment: Seq<char>) -> Run<()> {
    t.note(restart_event(Level::Info, "starting restart segment: "@ + segment))
}

/// The last segment, after earlier reports: start the service.
pub open spec fn start_segment(
    t: Transcript,
    target: RestartTarget,
    earlier: Seq<RestartReport>,
) -> RestartRun {
    let reports = earlier.push(RestartReport::Begun(RestartPhase::Start));
    let entered = announced(t, "start"@);
    if !entered.done() {
        RestartRun { run: entered, reports }
    } else {
        let started = service::start_run(entered.after, target.unit, target.as_root);
        RestartRun {
            run: started.with(()).noting(
                restart_event(Level::Info, "Firedancer restart completed"@),
            ),
            reports,
        }
    }
}

/// The second configure pass, after earlier reports, which has to succeed, and what follows.
pub open spec fn second_configure_segment(
    t: Transcript,
    target: RestartTarget,
    earlier: Seq<RestartReport>,
) -> RestartRun {
    let reports = earlier.push(RestartReport::Begun(RestartPhase::ConfigureSecond));
    let entered = announced(t, "configure 2/2"@);
    if !entered.done() {
        RestartRun { run: entered, reports }
    } else {
        let configured = configure::configure_run(
            entered.after,
            target.repository,
            target.config,
        );
        if !configured.done() {
            RestartRun { run: configured, reports }
        } else {
            start_segment(configured.after, target, reports)
        }
    }
}

/// The first configure pass, after earlier reports, which may fail, and what follows.
pub open spec fn first_configure_segment(
    t: Transcript,
    target: RestartTarget,
    earlier: Seq<RestartReport>,
) -> RestartRun {
    let reports = earlier.push(RestartReport::Begun(RestartPhase::ConfigureFirst));
    let entered = announced(t, "configure 1/2"@);
    if !entered.done() {
        RestartRun { run: entered, reports }
    } else {
        let configured = configure::configure_run(
            entered.after,
            target.repository,
            target.config,
        );
        match configured.end {
            End::Waiting => RestartRun { run: configured, reports },
            End::Done(_) => second_configure_segment(configured.after, target, reports),
            End::Failed(message) => {
                let warned = configured.after.note(retry_event(message));
                if !warned.done() {
                    RestartRun { run: warned, reports }
                } else {
                    second_configure_segment(
                        warned.after,
                        target,
                        reports.push(RestartReport::ConfigureFirstFailed),
                    )
                }
            },
        }
    }
}

/// Stopping the service and what follows.
pub open spec fn stop_segment(t: Transcript, target: RestartTarget) -> RestartRun {
    let reports = seq![RestartReport::Begun(RestartPhase::Stop)];
    let entered = announced(t, "stop"@);
    if !entered.done() {
        RestartRun { run: entered, reports }
    } else {
        let stopped = service::stop_run(entered.after, target.unit, target.as_root);
        if !stopped.done() {
            RestartRun { run: stopped.stop(), reports }
        } else {
            first_configure_segment(stopped.after, target, reports)
        }
    }
}

/// Restarting: check the prerequisites, stop, configure twice, and start.
pub open spec fn restart_run(t: Transcript, target: RestartTarget) -> RestartRun {
    let checked = configure::prerequisites_run(t, target.repository, target.config);
    if !checked.done() {
        RestartRun { run: checked, reports: Seq::empty() }
    } else {
        let begun = checked.after.note(restarting_event());
        if !begun.done() {
            RestartRun { run: begun, reports: Seq::empty() }
        } else {
            stop_segment(begun.after, target)
        }
    }
}

/// What restarting a service of a checkout acts on.
pub open spec fn restart_target(
    service: ServiceManager,
    repository: Seq<char>,
    config: Seq<char>,
) -> RestartTarget {
    RestartTarget {
        unit: service.unit@,
        as_root: service.run_as_root,
        repository,
        config,
    }
}

/// Announces a segment in the log.
fn announce(session: &mut Session, segment: &str) -> (entered: Result<(), Halt>)
    ensures
        final(session)@ == announced(old(session)@, segment@).after,
        announced(old(session)@, segment@).end == (match entered {
            Ok(_) => End::Done(()),
            Err(halt) => halt.end(),
        }),
{
    session.note(
        LogEvent::new(
            Level::Info,
            "val::restart",
            join2("starting restart segment: ", segment).as_str(),
        ),
    )
}

/// Stops the service, runs configure-firedancer twice, then starts it.
///
/// Host configuration is applied twice because some Firedancer stages only finish after an
/// earlier pass has taken effect. A first-pass configure failure is logged, but the second pass
/// still runs. Failure after stop leaves the service stopped.
pub fn restart_firedancer(
    session: &mut Session,
    service: &ServiceManager,
    repository: &str,
    config: &str,
) -> (restarted: Result<(), Halt>)
    ensures
        final(session)@ == restart_run(
            old(session)@,
            restart_target(*service, repository@, config@),
        ).run.after,
        restart_run(old(session)@, restart_target(*service, repository@, config@)).run.end == (
        match restarted {
            Ok(_) => End::Done(()),
            Err(halt) => halt.end(),
        }),
{
    let mut log: ReportLog = ReportLog::new();
    restart_firedancer_with_reporter(session, service, repository, config, &mut log)
}

/// Stops the service, configures twice, and starts it, and reports each segment before it begins.
pub fn restart_firedancer_with_reporter<R: RestartReporter>(
    session: &mut Session,
    service: &ServiceManager,
    repository: &str,
    config: &str,
    reporter: &mut R,
) -> (restarted: Result<(), Halt>)
    ensures
        final(session)@ == restart_run(
            old(session)@,
            restart_target(*service, repository@, config@),
        ).run.after,
        restart_run(old(session)@, restart_target(*service, repository@, config@)).run.end == (
        match restarted {
            Ok(_) => End::Done(()),
            Err(halt) => halt.end(),
        }),
        final(reporter).reported() == old(reporter).reported() + restart_run(
            old(session)@,
            restart_target(*service, repository@, config@),
        ).reports,
{
    validate_prerequisites(session, repository, config)?;
    session.note(
        LogEvent::new(
            Level::Info,
            "val::restart",
            "restarting Firedancer (stop, configure, configure, start)",
        ),
    )?;
    reporter.on_phase(RestartPhase::Stop);
    announce(session, "stop")?;
    let _stopped: bool = service.stop(session)?;
    reporter.on_phase(RestartPhase::ConfigureFirst);
    announce(session, "configure 1/2")?;
    match configure_firedancer(session, repository, config) {
        Ok(_) => {},
        Err(Halt::Waiting) => {
            return Err(Halt::Waiting);
        },
        Err(Halt::Failed(first_error)) => {
            session.note(
                LogEvent::new(
                    Level::Warn,
                    "val::restart",
                    "first configure pass failed; continuing to second pass",
                ).shown("error", first_error.message.as_str()),
            )?;
            reporter.on_configure_first_failed();
        },
    }
    reporter.on_phase(RestartPhase::ConfigureSecond);
    announce(session, "configure 2/2")?;
    configure_firedancer(session, repository, config)?;
    reporter.on_phase(RestartPhase::Start);
    announce(session, "start")?;
    let _started: bool = service.start(session)?;
    session.note(LogEvent::new(Level::Info, "val::restart", "Firedancer restart completed"))
}

/// What a restart logs: what it is about to do, each segment before it begins, a first configure pass
/// that failed with its error, and its completion last.
pub proof fn law_restarts_are_logged(t: Transcript, target: RestartTarget, reason: Seq<char>)
    ensures
        restarting_event().level is Info,
        restarting_event().target == "val::restart"@,
        restarting_event().message == "restarting Firedancer (stop, configure, configure, start)"@,
        retry_event(reason).level is Warn,
        retry_event(reason).message == "first configure pass failed; continuing to second pass"@,
        retry_event(reason).fields == seq![
            FieldView { name: "error"@, value: FieldValueView::Shown(reason) },
        ],
        announced(t, reason).after == t.ask(
            RequestView::Log(
                LogEventView {
                    level: Level::Info,
                    target: "val::restart"@,
                    message: "starting restart segment: "@ + reason,
                    fields: Seq::empty(),
                },
            ),
        ),
        restart_run(t, target).run.done() ==> (restart_run(t, target).run.after.asked.last() matches
            RequestView::Log(event) && event.level is Info && event.message
            == "Firedancer restart completed"@),
        ({
            let checked = configure::prerequisites_run(t, target.repository, target.config);
            let begun = checked.after.note(restarting_event());
            checked.done() && begun.done() ==> restart_run(t, target) == stop_segment(
                begun.after,
                target,
            )
        }),
{
}

/// Each segment begins by announcing itself under its own name.
pub proof fn law_segments_announce_themselves(
    t: Transcript,
    target: RestartTarget,
    earlier: Seq<RestartReport>,
)
    requires
        t.asked.len() >= t.replies.len(),
    ensures
        ({
            let said = |segment: Seq<char>|
                t.ask(
                    RequestView::Log(
                        LogEventView {
                            level: Level::Info,
                            target: "val::restart"@,
                            message: "starting restart segment: "@ + segment,
                            fields: Seq::empty(),
                        },
                    ),
                );
            &&& stop_segment(t, target).run.after == said("stop"@)
            &&& first_configure_segment(t, target, earlier).run.after == said("configure 1/2"@)
            &&& second_configure_segment(t, target, earlier).run.after == said("configure 2/2"@)
            &&& start_segment(t, target, earlier).run.after == said("start"@)
            &&& stop_segment(t, target).reports == seq![RestartReport::Begun(RestartPhase::Stop)]
            &&& first_configure_segment(t, target, earlier).reports == earlier.push(
                RestartReport::Begun(RestartPhase::ConfigureFirst),
            )
            &&& second_configure_segment(t, target, earlier).reports == earlier.push(
                RestartReport::Begun(RestartPhase::ConfigureSecond),
            )
            &&& start_segment(t, target, earlier).reports == earlier.push(
                RestartReport::Begun(RestartPhase::Start),
            )
        }),
{
}

/// A restart fails only if a prerequisite is missing or if a segment that has to succeed fails, and then
/// with that segment's error. A first configure pass that fails does not make it fail.
pub proof fn law_restarts_fail_only_with_a_segment(
    t: Transcript,
    target: RestartTarget,
    earlier: Seq<RestartReport>,
    message: Seq<char>,
)
    ensures
        ({
            let checked = configure::prerequisites_run(t, target.repository, target.config);
            let begun = checked.after.note(restarting_event());
            restart_run(t, target).run.end == End::<()>::Failed(message) ==> checked.end == End::<
                (),
            >::Failed(message) || stop_segment(begun.after, target).run.end == End::<()>::Failed(
                message,
            )
        }),
        ({
            let entered = announced(t, "stop"@);
            let stopped = service::stop_run(entered.after, target.unit, target.as_root);
            let next = first_configure_segment(
                stopped.after,
                target,
                seq![RestartReport::Begun(RestartPhase::Stop)],
            );
            stop_segment(t, target).run.end == End::<()>::Failed(message) ==> stopped.end == End::<
                bool,
            >::Failed(message) || next.run.end == End::<()>::Failed(message)
        }),
        ({
            let entered = announced(t, "configure 1/2"@);
            let passed = configure::configure_run(entered.after, target.repository, target.config);
            let begun = earlier.push(RestartReport::Begun(RestartPhase::ConfigureFirst));
            let run = first_configure_segment(t, target, earlier).run;
            &&& entered.done() && passed.done() ==> run == second_configure_segment(
                passed.after,
                target,
                begun,
            ).run
            &&& entered.done() ==> (passed.end matches End::Failed(reason) ==> {
                let warned = passed.after.note(retry_event(reason));
                warned.done() ==> run == second_configure_segment(
                    warned.after,
                    target,
                    begun.push(RestartReport::ConfigureFirstFailed),
                ).run
            })
            &&& run.end is Failed ==> entered.done() && !(passed.end is Waiting)
        }),
        ({
            let entered = announced(t, "configure 2/2"@);
            let passed = configure::configure_run(entered.after, target.repository, target.config);
            let next = start_segment(
                passed.after,
                target,
                earlier.push(RestartReport::Begun(RestartPhase::ConfigureSecond)),
            );
            second_configure_segment(t, target, earlier).run.end == End::<()>::Failed(message)
                ==> passed.end == End::<()>::Failed(message) || next.run.end == End::<()>::Failed(
                message,
            )
        }),
        ({
            let entered = announced(t, "start"@);
            let started = service::start_run(entered.after, target.unit, target.as_root);
            start_segment(t, target, earlier).run.end == End::<()>::Failed(message)
                ==> started.end == End::<bool>::Failed(message)
        }),
{
}

/// A restart acts on what it was given: the service's unit and rights, the checkout, and the
/// configuration.
pub proof fn law_targets_hold_what_was_given(
    service: ServiceManager,
    repository: Seq<char>,
    config: Seq<char>,
)
    ensures
        restart_target(service, repository, config).unit == service.unit@,
        restart_target(service, repository, config).as_root == service.run_as_root,
        restart_target(service, repository, config).repository == repository,
        restart_target(service, repository, config).config == config,
{
}

} // verus!
