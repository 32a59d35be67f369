use std::collections::VecDeque;

use val::logging::{FieldValue, Level, LogEvent};
use val::monitor::GuiConfig;
use val::process::{CommandOutcome, CommandSpec};
use val::session::{FileFacts, Halt, Reply, Request, Session};
use val::paths::AppPaths;
use val::restart::{RestartPhase, RestartReport};
use val::service::ServiceManager;
use val::update_full::{
    classify_restart_failure, run_update_full, update_full, ProgressReporter, RestartProgress,
    ServiceImpact, StageStatus,
};

#[allow(dead_code)]
/// A host that answers requests from prepared outcomes and files.
struct Host {
    captures: VecDeque<CommandOutcome>,
    streaming: VecDeque<CommandOutcome>,
    interactive: VecDeque<CommandOutcome>,
    files: Vec<(String, FileFacts)>,
    texts: Vec<(String, String)>,
    clock: u64,
    asked: Vec<Request>,
}

#[allow(dead_code)]
impl Host {
    fn new(
        captures: Vec<CommandOutcome>,
        streaming: Vec<CommandOutcome>,
        interactive: Vec<CommandOutcome>,
    ) -> Host {
        Host {
            captures: VecDeque::from(captures),
            streaming: VecDeque::from(streaming),
            interactive: VecDeque::from(interactive),
            files: Vec::new(),
            texts: Vec::new(),
            clock: 0,
            asked: Vec::new(),
        }
    }

    fn file(mut self, path: &str, mode: u32) -> Host {
        self.files.push((path.to_owned(), FileFacts { is_file: true, is_dir: false, mode }));
        self
    }

    fn directory(mut self, path: &str) -> Host {
        self.files.push((path.to_owned(), FileFacts { is_file: false, is_dir: true, mode: 0o755 }));
        self
    }

    fn text(mut self, path: &str, text: &str) -> Host {
        self.texts.push((path.to_owned(), text.to_owned()));
        self
    }

    fn next(queue: &mut VecDeque<CommandOutcome>, kind: &str) -> Reply {
        match queue.pop_front() {
            Some(outcome) => Reply::Outcome(outcome),
            None => Reply::Error(format!("unexpected {kind}")),
        }
    }

    fn answer(&mut self, request: &Request) -> Reply {
        match request {
            Request::Capture(_) => Host::next(&mut self.captures, "capture"),
            Request::Streaming(_) => Host::next(&mut self.streaming, "streaming command"),
            Request::Interactive(_) => Host::next(&mut self.interactive, "interactive command"),
            Request::Inspect(path) => match self.files.iter().find(|(known, _)| known == path) {
                Some((_, facts)) => Reply::Facts(*facts),
                None => Reply::NotFound("No such file or directory (os error 2)".to_owned()),
            },
            Request::Now => {
                self.clock += 1_000_000_000;
                Reply::Moment(self.clock)
            }
            Request::ReadText(path) => match self.texts.iter().find(|(known, _)| known == path) {
                Some((_, text)) => Reply::Text(text.clone()),
                None => Reply::Error("No such file or directory (os error 2)".to_owned()),
            },
            Request::ParseGui(text) => Reply::Gui(gui_config(text)),
            _ => Reply::Done,
        }
    }

    fn streamed(&self) -> Vec<CommandSpec> {
        self.asked
            .iter()
            .filter_map(|request| match request {
                Request::Streaming(command) => Some(command.clone()),
                _ => None,
            })
            .collect()
    }

    fn interacted(&self) -> Vec<CommandSpec> {
        self.asked
            .iter()
            .filter_map(|request| match request {
                Request::Interactive(command) => Some(command.clone()),
                _ => None,
            })
            .collect()
    }

    fn printed(&self) -> Vec<String> {
        self.asked
            .iter()
            .filter_map(|request| match request {
                Request::PrintLine(line) => Some(line.clone()),
                _ => None,
            })
            .collect()
    }

    fn logged(&self) -> Vec<(Level, String)> {
        self.asked
            .iter()
            .filter_map(|request| match request {
                Request::Log(event) => Some((event.level, line(event))),
                _ => None,
            })
            .collect()
    }
}

/// An event as the log shows it: the message, and the fields with their names.
#[allow(dead_code)]
fn line(event: &LogEvent) -> String {
    let mut line = event.message.clone();
    for field in &event.fields {
        let value = match &field.value {
            FieldValue::Text(text) => format!("{text:?}"),
            FieldValue::Shown(text) => text.clone(),
            FieldValue::Number(number) => number.to_string(),
            FieldValue::Flag(flag) => flag.to_string(),
        };
        line = format!("{line} {}={value}", field.name);
    }
    line
}

/// Runs a procedure to its end: performs the pending request, and repeats.
fn drive<T>(
    host: &mut Host,
    procedure: impl Fn(&mut Session) -> Result<T, Halt>,
) -> Result<T, String> {
    let mut replies: Vec<Reply> = Vec::new();
    loop {
        let mut session = Session::new(replies.clone());
        match procedure(&mut session) {
            Ok(value) => return Ok(value),
            Err(Halt::Failed(failure)) => return Err(failure.message),
            Err(Halt::Waiting) => {
                let request = session.pending().expect("a pending request").clone();
                host.asked.push(request.clone());
                replies.push(host.answer(&request));
            }
        }
    }
}

fn gui_config(text: &str) -> GuiConfig {
    let table: toml::Table = text.parse().expect("TOML");
    let gui = table.get("tiles").and_then(|tiles| tiles.get("gui"));
    GuiConfig {
        enabled: gui.and_then(|gui| gui.get("enabled")).and_then(|value| value.as_bool()),
        gui_listen_address: gui
            .and_then(|gui| gui.get("gui_listen_address"))
            .and_then(|value| value.as_str())
            .map(|value| value.to_owned()),
        gui_listen_port: gui
            .and_then(|gui| gui.get("gui_listen_port"))
            .and_then(|value| value.as_integer())
            .map(|value| value as u16),
    }
}

const COMMIT: &str = "aaaaaaaaaaaaaaaaaaaaaaaaaaaaaaaaaaaaaaaa\n";

fn prepared_paths() -> AppPaths {
    AppPaths {
        base: "/base".to_owned(),
        repository: "/base/firedancer".to_owned(),
        config: "/base/active-fd-config.toml".to_owned(),
        log_dir: "/base/logs".to_owned(),
        username: "validator".to_owned(),
    }
}

fn service() -> ServiceManager {
    ServiceManager::new("frankendancer.service", false)
}

fn show(state: &str) -> CommandOutcome {
    CommandOutcome::success(&format!("LoadState=loaded\nActiveState={state}\n"))
}

fn done() -> CommandOutcome {
    CommandOutcome::success("")
}

fn prepared(
    captures: Vec<CommandOutcome>,
    streaming: Vec<CommandOutcome>,
    interactive: Vec<CommandOutcome>,
) -> Host {
    Host::new(captures, streaming, interactive)
        .directory("/base/firedancer")
        .file("/base/firedancer/deps.sh", 0o755)
        .file("/base/firedancer/build/native/gcc/bin/fdctl", 0o755)
        .file("/base/active-fd-config.toml", 0o644)
        .text("/base/active-fd-config.toml", "")
}

fn update_captures() -> Vec<CommandOutcome> {
    let repository = CommandOutcome::success("/base/firedancer");
    vec![
        repository.clone(),
        CommandOutcome::failure(128, "tag not found"),
        CommandOutcome::failure(128, "branch not found"),
        CommandOutcome::success(COMMIT),
        CommandOutcome::success(COMMIT),
        CommandOutcome::success(""),
        repository,
    ]
}

fn run(host: &mut Host, compact: bool) -> Result<(), String> {
    drive(host, |session| {
        run_update_full(
            session,
            &service(),
            &prepared_paths(),
            "v1.2.3",
            "frankendancer.service",
            compact,
        )
    })
}

fn awaited(host: &Host) -> bool {
    host.asked.contains(&Request::AwaitRunning("ws://127.0.0.1:80/websocket".to_owned()))
}

#[test]
fn update_full_runs_monitor_after_restart() {
    let mut captures = update_captures();
    captures.extend([show("active"), show("inactive"), show("inactive"), show("active")]);
    let mut host = prepared(captures, vec![done(); 6], vec![done(); 4]);
    run(&mut host, false).expect("updated");
    assert!(
        host.asked.contains(&Request::ReadText(prepared_paths().config)),
        "the configuration names what is monitored"
    );
    assert!(awaited(&host), "monitor should run after restart");
    assert!(host.streaming.is_empty());
    assert!(host.interactive.is_empty());
    assert!(host.printed().is_empty());
}

#[test]
fn update_full_does_not_restart_when_build_fails() {
    let mut host = prepared(
        update_captures(),
        vec![
            done(),
            done(),
            done(),
            done(),
            done(),
            CommandOutcome::failure(2, "make failed"),
        ],
        vec![],
    );
    let error = run(&mut host, false).expect_err("build failure should abort");
    assert!(error.contains("Firedancer build failed"), "{error}");
    assert!(!awaited(&host), "monitor must not run after build failure");
    assert!(host.interacted().is_empty());
}

#[test]
fn update_full_rejects_disabled_gui_before_making_changes() {
    let mut host = Host::new(vec![], vec![], vec![]).text(
        "/base/active-fd-config.toml",
        "[tiles.gui]\nenabled = false\n",
    );
    let error = drive(&mut host, |session| {
        update_full(
            session,
            &service(),
            &prepared_paths(),
            "v1.2.3",
            "frankendancer.service",
            false,
        )
    })
    .expect_err("disabled GUI should stop update-full before checkout");
    assert!(error.contains("GUI is disabled"), "{error}");
    assert_eq!(
        host.asked,
        [
            Request::ReadText("/base/active-fd-config.toml".to_owned()),
            Request::ParseGui("[tiles.gui]\nenabled = false\n".to_owned()),
        ]
    );
}

#[test]
fn classify_restart_failure_when_service_still_active() {
    let mut host = Host::new(vec![show("active")], vec![], vec![]);
    assert_eq!(
        drive(&mut host, |session| classify_restart_failure(session, &service())),
        Ok(ServiceImpact::Unchanged)
    );
}

#[test]
fn classify_restart_failure_when_service_is_inactive() {
    let mut host = Host::new(vec![show("inactive")], vec![], vec![]);
    assert_eq!(
        drive(&mut host, |session| classify_restart_failure(session, &service())),
        Ok(ServiceImpact::Stopped)
    );
}

#[test]
fn restart_failures_are_told_apart() {
    for (state, impact) in [
        ("activating", ServiceImpact::FailedToRestart),
        ("deactivating", ServiceImpact::FailedToRestart),
        ("failed", ServiceImpact::FailedToRestart),
        ("maintenance", ServiceImpact::Stopped),
    ] {
        let mut host = Host::new(vec![show(state)], vec![], vec![]);
        assert_eq!(
            drive(&mut host, |session| classify_restart_failure(session, &service())),
            Ok(impact)
        );
    }
    let mut host = Host::new(vec![], vec![], vec![]);
    assert_eq!(
        drive(&mut host, |session| classify_restart_failure(session, &service())),
        Ok(ServiceImpact::Stopped)
    );
}

#[test]
fn mark_restart_failed_marks_configure_second_after_stop() {
    let mut progress = RestartProgress::new(true);
    progress.on_phase(RestartPhase::Stop);
    progress.on_configure_first_failed();
    progress.mark_restart_failed();
    let lines = progress.write_lines();
    assert!(lines.contains("configure 2/2 ........................ failed"));
    assert_eq!(
        lines,
        "      stop ................................. done (inactive)\n      configure 1/2 ........................ warning; retrying\n      configure 2/2 ........................ failed\n      start ................................ pending\n"
    );
}

#[test]
fn restart_progress_follows_the_reports() {
    let mut progress = RestartProgress::new(false);
    progress.on_reports(&vec![
        RestartReport::Begun(RestartPhase::Stop),
        RestartReport::Begun(RestartPhase::ConfigureFirst),
        RestartReport::Begun(RestartPhase::ConfigureSecond),
        RestartReport::Begun(RestartPhase::Start),
    ]);
    assert_eq!(progress.stop, StageStatus::Done("inactive".to_owned()));
    assert_eq!(progress.configure_first.text(), "done");
    assert_eq!(progress.configure_second.text(), "done");
    progress.mark_restart_failed();
    assert_eq!(progress.start, StageStatus::Failed);
    assert!(progress.lines().is_empty());
    let mut second = RestartProgress::new(true);
    second.on_reports(&vec![
        RestartReport::Begun(RestartPhase::Stop),
        RestartReport::Begun(RestartPhase::ConfigureFirst),
        RestartReport::ConfigureFirstFailed,
        RestartReport::Begun(RestartPhase::ConfigureSecond),
    ]);
    assert_eq!(second.configure_first.text(), "warning; retrying");
    assert_eq!(second.configure_second, StageStatus::Pending);
    second.mark_restart_failed();
    assert_eq!(second.configure_second, StageStatus::Failed);
    assert_eq!(second.start, StageStatus::Pending);
    let mut first = RestartProgress::new(true);
    first.on_reports(&vec![RestartReport::Begun(RestartPhase::Stop)]);
    first.mark_restart_failed();
    assert_eq!(first.stop, StageStatus::Failed);
    assert_eq!(first.start, StageStatus::Pending);
}

#[test]
fn start_segment_is_taken_from_the_service() {
    let finalized = |captures: Vec<CommandOutcome>| {
        let mut replies: Vec<Reply> = captures.into_iter().map(Reply::Outcome).collect();
        if replies.is_empty() {
            replies.push(Reply::Error("no systemctl".to_owned()));
        }
        let mut progress = RestartProgress::new(true);
        let mut session = Session::new(replies);
        progress.finalize_start_from_service(&mut session, &service()).expect("finalized");
        (progress.start.text(), progress.final_state.clone())
    };
    assert_eq!(
        finalized(vec![show("active")]),
        ("done (active)".to_owned(), "active".to_owned())
    );
    assert_eq!(
        finalized(vec![show("failed")]),
        ("failed".to_owned(), "failed".to_owned())
    );
    assert_eq!(finalized(vec![]), ("failed".to_owned(), "unknown".to_owned()));
}

#[test]
fn compact_update_prints_every_stage() {
    let mut captures = update_captures();
    captures.extend([show("active"), show("inactive"), show("inactive"), show("active"), show("active")]);
    let mut host = prepared(captures, vec![done(); 6], vec![done(); 4]);
    drive(&mut host, |session| {
        update_full(
            session,
            &service(),
            &prepared_paths(),
            "vTEST",
            "frankendancer.service",
            true,
        )
    })
    .expect("updated");
    assert_eq!(
        host.printed(),
        [
            "[1/3] Update Firedancer (vTEST)",
            "      stop ................................. done (inactive)",
            "      configure 1/2 ........................ done",
            "      configure 2/2 ........................ done",
            "      start ................................ done (active)",
            "Wait for validator",
            "",
            "Update complete: vTEST",
            "Service: frankendancer.service (active)",
            "Build: 1s | Total: 3s",
            "Detailed log: /base/logs/val.log",
        ]
    );
    let stages: Vec<Request> = host
        .asked
        .iter()
        .filter(|request| matches!(request, Request::BeginStage(_) | Request::FinishStage(_)))
        .cloned()
        .collect();
    assert_eq!(
        stages,
        [
            Request::BeginStage("      checkout and dependencies".to_owned()),
            Request::FinishStage("done".to_owned()),
            Request::BeginStage("[2/3] Build Firedancer".to_owned()),
            Request::FinishStage("done (1s)".to_owned()),
            Request::BeginStage("[3/3] Restart service".to_owned()),
            Request::FinishStage("done".to_owned()),
        ]
    );
    assert_eq!(host.asked.last(), Some(&Request::CompactOutput(false)));
    let switched: Vec<&Request> = host
        .asked
        .iter()
        .filter(|request| matches!(request, Request::CompactOutput(_)))
        .collect();
    assert_eq!(switched.len(), 2);
}

#[test]
fn compact_failure_of_the_update_is_explained() {
    let mut host = prepared(vec![CommandOutcome::success("true")], vec![CommandOutcome::failure(1, "no route")], vec![]);
    let error = run(&mut host, true).expect_err("fetch fails");
    assert_eq!(error, "git fetch failed with exit code 1: no route");
    assert_eq!(
        host.printed(),
        [
            "[1/3] Update Firedancer (v1.2.3)",
            "",
            "Update failed during update.",
            "Error: git fetch failed with exit code 1: no route",
            "Service was not stopped.",
            "Detailed log: /base/logs/val.log",
        ]
    );
    assert!(host.asked.contains(&Request::FinishStage("failed".to_owned())));
}

#[test]
fn compact_failure_of_the_restart_shows_the_segments() {
    let mut captures = update_captures();
    captures.extend([show("active"), show("inactive"), show("inactive"), show("inactive")]);
    let mut host = prepared(
        captures,
        vec![done(); 6],
        vec![done(), done(), CommandOutcome::failure(1, "configure failed")],
    );
    let error = run(&mut host, true).expect_err("configure fails");
    assert_eq!(error, "Firedancer host configuration failed with exit code 1: configure failed");
    assert_eq!(
        host.printed()[1..],
        [
            "",
            "Update failed during restart.",
            "Error: Firedancer host configuration failed with exit code 1: configure failed",
            "      stop ................................. done (inactive)",
            "      configure 1/2 ........................ done",
            "      configure 2/2 ........................ failed",
            "      start ................................ failed",
            "Service remains stopped (frankendancer.service).",
            "Detailed log: /base/logs/val.log",
        ]
    );
}

#[test]
fn unknown_readiness_is_explained() {
    let reporter = ProgressReporter::new(true, "v1", "unit", "/l/val.log");
    assert_eq!(
        reporter.failure_lines("validator readiness", "gone", ServiceImpact::ReadinessUnknown, vec![]),
        [
            "",
            "Update failed during validator readiness.",
            "Error: gone",
            "Service restart completed, but validator readiness is unknown (unit).",
            "Detailed log: /l/val.log",
        ]
    );
    assert_eq!(
        ServiceImpact::FailedToRestart.text("unit"),
        "Service did not become active (unit)."
    );
    assert_eq!(
        reporter.success_lines(200_000_000_000, 61_999_999_999, "active")[3],
        "Build: 1m 1s | Total: 3m 20s"
    );
}
