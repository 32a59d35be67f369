use std::collections::VecDeque;

use val::logging::{FieldValue, Level, LogEvent};
use val::monitor::GuiConfig;
use val::process::{CommandOutcome, CommandSpec};
use val::session::{FileFacts, Halt, Reply, Request, Session};
use val::restart::{
    restart_firedancer, restart_firedancer_with_reporter, ReportLog, RestartPhase, RestartReport,
};
use val::service::ServiceManager;

#[allow(dead_code)]
/// A host that answers requests from prepared outcomes and files.
struct Host {
    captures: VecDeque<CommandOutcome>,
    streaming: VecDeque<CommandOutcome>,
    interactive: VecDeque<CommandOutcome>,
    files: Vec<(String, FileFacts)>,
    texts: Vec<(String, String)>,
    clock: u64,
    asked: Vec<Request>,
}

#[allow(dead_code)]
impl Host {
    fn new(
        captures: Vec<CommandOutcome>,
        streaming: Vec<CommandOutcome>,
        interactive: Vec<CommandOutcome>,
    ) -> Host {
        Host {
            captures: VecDeque::from(captures),
            streaming: VecDeque::from(streaming),
            interactive: VecDeque::from(interactive),
            files: Vec::new(),
            texts: Vec::new(),
            clock: 0,
            asked: Vec::new(),
        }
    }

    fn file(mut self, path: &str, mode: u32) -> Host {
        self.files.push((path.to_owned(), FileFacts { is_file: true, is_dir: false, mode }));
        self
    }

    fn directory(mut self, path: &str) -> Host {
        self.files.push((path.to_owned(), FileFacts { is_file: false, is_dir: true, mode: 0o755 }));
        self
    }

    fn text(mut self, path: &str, text: &str) -> Host {
        self.texts.push((path.to_owned(), text.to_owned()));
        self
    }

    fn next(queue: &mut VecDeque<CommandOutcome>, kind: &str) -> Reply {
        match queue.pop_front() {
            Some(outcome) => Reply::Outcome(outcome),
            None => Reply::Error(format!("unexpected {kind}")),
        }
    }

    fn answer(&mut self, request: &Request) -> Reply {
        match request {
            Request::Capture(_) => Host::next(&mut self.captures, "capture"),
            Request::Streaming(_) => Host::next(&mut self.streaming, "streaming command"),
            Request::Interactive(_) => Host::next(&mut self.interactive, "interactive command"),
            Request::Inspect(path) => match self.files.iter().find(|(known, _)| known == path) {
                Some((_, facts)) => Reply::Facts(*facts),
                None => Reply::NotFound("No such file or directory (os error 2)".to_owned()),
            },
            Request::Now => {
                self.clock += 1_000_000_000;
                Reply::Moment(self.clock)
            }
            Request::ReadText(path) => match self.texts.iter().find(|(known, _)| known == path) {
                Some((_, text)) => Reply::Text(text.clone()),
                None => Reply::Error("No such file or directory (os error 2)".to_owned()),
            },
            Request::ParseGui(text) => Reply::Gui(gui_config(text)),
            _ => Reply::Done,
        }
    }

    fn streamed(&self) -> Vec<CommandSpec> {
        self.asked
            .iter()
            .filter_map(|request| match request {
                Request::Streaming(command) => Some(command.clone()),
                _ => None,
            })
            .collect()
    }

    fn interacted(&self) -> Vec<CommandSpec> {
        self.asked
            .iter()
            .filter_map(|request| match request {
                Request::Interactive(command) => Some(command.clone()),
                _ => None,
            })
            .collect()
    }

    fn printed(&self) -> Vec<String> {
        self.asked
            .iter()
            .filter_map(|request| match request {
                Request::PrintLine(line) => Some(line.clone()),
                _ => None,
            })
            .collect()
    }

    fn logged(&self) -> Vec<(Level, String)> {
        self.asked
            .iter()
            .filter_map(|request| match request {
                Request::Log(event) => Some((event.level, line(event))),
                _ => None,
            })
            .collect()
    }
}

/// An event as the log shows it: the message, and the fields with their names.
#[allow(dead_code)]
fn line(event: &LogEvent) -> String {
    let mut line = event.message.clone();
    for field in &event.fields {
        let value = match &field.value {
            FieldValue::Text(text) => format!("{text:?}"),
            FieldValue::Shown(text) => text.clone(),
            FieldValue::Number(number) => number.to_string(),
            FieldValue::Flag(flag) => flag.to_string(),
        };
        line = format!("{line} {}={value}", field.name);
    }
    line
}

/// Runs a procedure to its end: performs the pending request, and repeats.
fn drive<T>(
    host: &mut Host,
    procedure: impl Fn(&mut Session) -> Result<T, Halt>,
) -> Result<T, String> {
    let mut replies: Vec<Reply> = Vec::new();
    loop {
        let mut session = Session::new(replies.clone());
        match procedure(&mut session) {
            Ok(value) => return Ok(value),
            Err(Halt::Failed(failure)) => return Err(failure.message),
            Err(Halt::Waiting) => {
                let request = session.pending().expect("a pending request").clone();
                host.asked.push(request.clone());
                replies.push(host.answer(&request));
            }
        }
    }
}

fn gui_config(text: &str) -> GuiConfig {
    let table: toml::Table = text.parse().expect("TOML");
    let gui = table.get("tiles").and_then(|tiles| tiles.get("gui"));
    GuiConfig {
        enabled: gui.and_then(|gui| gui.get("enabled")).and_then(|value| value.as_bool()),
        gui_listen_address: gui
            .and_then(|gui| gui.get("gui_listen_address"))
            .and_then(|value| value.as_str())
            .map(|value| value.to_owned()),
        gui_listen_port: gui
            .and_then(|gui| gui.get("gui_listen_port"))
            .and_then(|value| value.as_integer())
            .map(|value| value as u16),
    }
}

const REPOSITORY: &str = "/srv/firedancer";
const FDCTL: &str = "/srv/firedancer/build/native/gcc/bin/fdctl";
const CONFIG: &str = "/srv/firedancer/active-fd-config.toml";

fn service() -> ServiceManager {
    ServiceManager::new("frankendancer.service", false)
}

fn prepared(captures: Vec<CommandOutcome>, interactive: Vec<CommandOutcome>) -> Host {
    Host::new(captures, vec![], interactive)
        .directory(REPOSITORY)
        .file(FDCTL, 0o755)
        .file(CONFIG, 0o644)
}

fn restart(host: &mut Host) -> Result<(), String> {
    drive(host, |session| restart_firedancer(session, &service(), REPOSITORY, CONFIG))
}

fn show(state: &str) -> CommandOutcome {
    CommandOutcome::success(&format!("LoadState=loaded\nActiveState={state}\n"))
}

fn done() -> CommandOutcome {
    CommandOutcome::success("")
}

fn configure_spec() -> CommandSpec {
    CommandSpec::new("sudo")
        .arg("--")
        .arg(FDCTL)
        .args(&["configure", "init", "all", "--config"])
        .arg(CONFIG)
        .cwd(REPOSITORY)
}

fn systemctl_spec(action: &str) -> CommandSpec {
    CommandSpec::new("sudo").args(&["--", "systemctl", action, "--", "frankendancer.service"])
}

#[test]
fn invalid_prerequisites_leave_the_service_untouched() {
    for case in [
        "missing binary",
        "nonexecutable binary",
        "missing config",
        "config directory",
    ] {
        let mut host = Host::new(vec![show("active")], vec![], vec![done()])
            .directory(REPOSITORY)
            .file(FDCTL, if case == "nonexecutable binary" { 0o644 } else { 0o755 })
            .file(CONFIG, 0o644);
        let (repository, config, expected_error) = match case {
            "missing binary" => (
                "/srv/firedancer/missing",
                CONFIG,
                "fdctl binary not found",
            ),
            "nonexecutable binary" => (REPOSITORY, CONFIG, "fdctl is not executable"),
            "missing config" => (
                REPOSITORY,
                "/srv/firedancer/missing.toml",
                "Firedancer config not found",
            ),
            _ => (REPOSITORY, REPOSITORY, "Firedancer config is not a file"),
        };
        let error = drive(&mut host, |session| {
            restart_firedancer(session, &service(), repository, config)
        })
        .expect_err(case);
        assert!(error.contains(expected_error), "{case}: {error}");
        assert_eq!(host.captures.len(), 1, "{case}: service should not be queried");
        assert!(
            host.interacted().is_empty(),
            "{case}: service should not be stopped"
        );
    }
}

#[test]
fn runs_stop_configure_configure_start() {
    let mut host = prepared(
        vec![show("active"), show("inactive"), show("inactive"), show("active")],
        vec![done(), done(), done(), done()],
    );
    restart(&mut host).expect("restarted");
    assert_eq!(host.captures.len(), 0);
    assert_eq!(
        host.interacted(),
        [
            systemctl_spec("stop"),
            configure_spec(),
            configure_spec(),
            systemctl_spec("start"),
        ]
    );
    let log: Vec<String> = host.logged().into_iter().map(|(_, text)| text).collect();
    assert_eq!(
        log,
        [
            "restarting Firedancer (stop, configure, configure, start)",
            "starting restart segment: stop",
            "stopping service service=\"frankendancer.service\" state=active",
            "service stopped service=\"frankendancer.service\"",
            "starting restart segment: configure 1/2",
            "configuring Firedancer host config=/srv/firedancer/active-fd-config.toml",
            "Firedancer host configuration completed",
            "starting restart segment: configure 2/2",
            "configuring Firedancer host config=/srv/firedancer/active-fd-config.toml",
            "Firedancer host configuration completed",
            "starting restart segment: start",
            "starting service service=\"frankendancer.service\" state=inactive",
            "service started service=\"frankendancer.service\"",
            "Firedancer restart completed",
        ]
    );
}

#[test]
fn skips_stop_when_already_inactive() {
    let mut host = prepared(
        vec![show("inactive"), show("inactive"), show("active")],
        vec![done(), done(), done()],
    );
    restart(&mut host).expect("restarted");
    assert_eq!(host.captures.len(), 0);
    assert_eq!(
        host.interacted(),
        [configure_spec(), configure_spec(), systemctl_spec("start")]
    );
}

#[test]
fn continues_to_second_configure_when_the_first_fails() {
    let mut host = prepared(
        vec![show("active"), show("inactive"), show("inactive"), show("active")],
        vec![
            done(),
            CommandOutcome::failure(1, "configure failed"),
            done(),
            done(),
        ],
    );
    restart(&mut host).expect("restarted");
    assert_eq!(
        host.interacted(),
        [
            systemctl_spec("stop"),
            configure_spec(),
            configure_spec(),
            systemctl_spec("start"),
        ]
    );
    assert!(host.logged().contains(&(
        Level::Warn,
        "first configure pass failed; continuing to second pass error=Firedancer host configuration failed with exit code 1: configure failed"
            .to_owned()
    )));
}

#[test]
fn fails_when_stop_does_not_complete() {
    let mut host = prepared(
        vec![show("active"), show("activating")],
        vec![CommandOutcome::failure(1, "stop failed")],
    );
    let error = restart(&mut host).expect_err("stop should fail");
    assert!(
        error.contains("stopping frankendancer.service failed"),
        "{error}"
    );
    assert_eq!(host.interacted(), [systemctl_spec("stop")]);
}

#[test]
fn does_not_start_when_the_second_configure_fails() {
    let mut host = prepared(
        vec![show("active"), show("inactive")],
        vec![done(), done(), CommandOutcome::failure(1, "configure failed")],
    );
    let error = restart(&mut host).expect_err("second configure should fail");
    assert!(
        error.contains("Firedancer host configuration failed"),
        "{error}"
    );
    assert_eq!(
        host.interacted(),
        [systemctl_spec("stop"), configure_spec(), configure_spec()]
    );
}

#[test]
fn reports_every_segment_in_order() {
    let replies = || {
        let facts = |is_file: bool| Reply::Facts(FileFacts { is_file, is_dir: !is_file, mode: 0o755 });
        let shown = |state: &str| Reply::Outcome(show(state));
        vec![
            facts(true),
            facts(true),
            Reply::Done,
            Reply::Done,
            shown("inactive"),
            Reply::Done,
            Reply::Done,
            facts(true),
            facts(true),
            Reply::Done,
            Reply::Outcome(CommandOutcome::failure(1, "")),
            Reply::Done,
            Reply::Done,
            facts(true),
            facts(true),
            Reply::Done,
            Reply::Outcome(done()),
            Reply::Done,
            Reply::Done,
            shown("active"),
            Reply::Done,
            Reply::Done,
        ]
    };
    let mut session = Session::new(replies());
    let mut log = ReportLog::new();
    let restarted = restart_firedancer_with_reporter(
        &mut session,
        &service(),
        REPOSITORY,
        CONFIG,
        &mut log,
    );
    assert_eq!(restarted, Ok(()));
    assert_eq!(
        log.reports,
        [
            RestartReport::Begun(RestartPhase::Stop),
            RestartReport::Begun(RestartPhase::ConfigureFirst),
            RestartReport::ConfigureFirstFailed,
            RestartReport::Begun(RestartPhase::ConfigureSecond),
            RestartReport::Begun(RestartPhase::Start),
        ]
    );
    // Cut at the first command of each segment: the segment has been reported, and no later one.
    let cut_at = |count: usize| {
        let mut cut = replies();
        cut.truncate(count);
        let mut session = Session::new(cut);
        let mut log = ReportLog::new();
        let waiting = restart_firedancer_with_reporter(
            &mut session,
            &service(),
            REPOSITORY,
            CONFIG,
            &mut log,
        );
        assert_eq!(waiting, Err(Halt::Waiting));
        (session.pending().expect("a request").clone(), log.reports)
    };
    let (pending, reports) = cut_at(2);
    assert!(matches!(pending, Request::Log(_)));
    assert_eq!(reports, []);
    let (pending, reports) = cut_at(4);
    assert!(matches!(pending, Request::Capture(_)));
    assert_eq!(reports, [RestartReport::Begun(RestartPhase::Stop)]);
    let (pending, reports) = cut_at(7);
    assert_eq!(pending, Request::Inspect(FDCTL.to_owned()));
    assert_eq!(
        reports,
        [
            RestartReport::Begun(RestartPhase::Stop),
            RestartReport::Begun(RestartPhase::ConfigureFirst),
        ]
    );
    let (pending, reports) = cut_at(13);
    assert_eq!(pending, Request::Inspect(FDCTL.to_owned()));
    assert_eq!(reports[2..], [
        RestartReport::ConfigureFirstFailed,
        RestartReport::Begun(RestartPhase::ConfigureSecond),
    ]);
    let (pending, reports) = cut_at(19);
    assert!(matches!(pending, Request::Capture(_)));
    assert_eq!(reports[4..], [RestartReport::Begun(RestartPhase::Start)]);
}
