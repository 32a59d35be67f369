use std::collections::VecDeque;

use val::logging::{FieldValue, Level, LogEvent};
use val::monitor::GuiConfig;
use val::process::{CommandOutcome, CommandSpec};
use val::session::{Failure, FileFacts, Halt, Reply, Request, Session};
use val::service::{parse_state, ServiceManager, ServiceState};

#[allow(dead_code)]
/// A host that answers requests from prepared outcomes and files.
struct Host {
    captures: VecDeque<CommandOutcome>,
    streaming: VecDeque<CommandOutcome>,
    interactive: VecDeque<CommandOutcome>,
    files: Vec<(String, FileFacts)>,
    texts: Vec<(String, String)>,
    clock: u64,
    asked: Vec<Request>,
}

#[allow(dead_code)]
impl Host {
    fn new(
        captures: Vec<CommandOutcome>,
        streaming: Vec<CommandOutcome>,
        interactive: Vec<CommandOutcome>,
    ) -> Host {
        Host {
            captures: VecDeque::from(captures),
            streaming: VecDeque::from(streaming),
            interactive: VecDeque::from(interactive),
            files: Vec::new(),
            texts: Vec::new(),
            clock: 0,
            asked: Vec::new(),
        }
    }

    fn file(mut self, path: &str, mode: u32) -> Host {
        self.files.push((path.to_owned(), FileFacts { is_file: true, is_dir: false, mode }));
        self
    }

    fn directory(mut self, path: &str) -> Host {
        self.files.push((path.to_owned(), FileFacts { is_file: false, is_dir: true, mode: 0o755 }));
        self
    }

    fn text(mut self, path: &str, text: &str) -> Host {
        self.texts.push((path.to_owned(), text.to_owned()));
        self
    }

    fn next(queue: &mut VecDeque<CommandOutcome>, kind: &str) -> Reply {
        match queue.pop_front() {
            Some(outcome) => Reply::Outcome(outcome),
            None => Reply::Error(format!("unexpected {kind}")),
        }
    }

    fn answer(&mut self, request: &Request) -> Reply {
        match request {
            Request::Capture(_) => Host::next(&mut self.captures, "capture"),
            Request::Streaming(_) => Host::next(&mut self.streaming, "streaming command"),
            Request::Interactive(_) => Host::next(&mut self.interactive, "interactive command"),
            Request::Inspect(path) => match self.files.iter().find(|(known, _)| known == path) {
                Some((_, facts)) => Reply::Facts(*facts),
                None => Reply::NotFound("No such file or directory (os error 2)".to_owned()),
            },
            Request::Now => {
                self.clock += 1_000_000_000;
                Reply::Moment(self.clock)
            }
            Request::ReadText(path) => match self.texts.iter().find(|(known, _)| known == path) {
                Some((_, text)) => Reply::Text(text.clone()),
                None => Reply::Error("No such file or directory (os error 2)".to_owned()),
            },
            Request::ParseGui(text) => Reply::Gui(gui_config(text)),
            _ => Reply::Done,
        }
    }

    fn streamed(&self) -> Vec<CommandSpec> {
        self.asked
            .iter()
            .filter_map(|request| match request {
                Request::Streaming(command) => Some(command.clone()),
                _ => None,
            })
            .collect()
    }

    fn interacted(&self) -> Vec<CommandSpec> {
        self.asked
            .iter()
            .filter_map(|request| match request {
                Request::Interactive(command) => Some(command.clone()),
                _ => None,
            })
            .collect()
    }

    fn printed(&self) -> Vec<String> {
        self.asked
            .iter()
            .filter_map(|request| match request {
                Request::PrintLine(line) => Some(line.clone()),
                _ => None,
            })
            .collect()
    }

    fn logged(&self) -> Vec<(Level, String)> {
        self.asked
            .iter()
            .filter_map(|request| match request {
                Request::Log(event) => Some((event.level, line(event))),
                _ => None,
            })
            .collect()
    }
}

/// An event as the log shows it: the message, and the fields with their names.
#[allow(dead_code)]
fn line(event: &LogEvent) -> String {
    let mut line = event.message.clone();
    for field in &event.fields {
        let value = match &field.value {
            FieldValue::Text(text) => format!("{text:?}"),
            FieldValue::Shown(text) => text.clone(),
            FieldValue::Number(number) => number.to_string(),
            FieldValue::Flag(flag) => flag.to_string(),
        };
        line = format!("{line} {}={value}", field.name);
    }
    line
}

/// Runs a procedure to its end: performs the pending request, and repeats.
fn drive<T>(
    host: &mut Host,
    procedure: impl Fn(&mut Session) -> Result<T, Halt>,
) -> Result<T, String> {
    let mut replies: Vec<Reply> = Vec::new();
    loop {
        let mut session = Session::new(replies.clone());
        match procedure(&mut session) {
            Ok(value) => return Ok(value),
            Err(Halt::Failed(failure)) => return Err(failure.message),
            Err(Halt::Waiting) => {
                let request = session.pending().expect("a pending request").clone();
                host.asked.push(request.clone());
                replies.push(host.answer(&request));
            }
        }
    }
}

fn gui_config(text: &str) -> GuiConfig {
    let table: toml::Table = text.parse().expect("TOML");
    let gui = table.get("tiles").and_then(|tiles| tiles.get("gui"));
    GuiConfig {
        enabled: gui.and_then(|gui| gui.get("enabled")).and_then(|value| value.as_bool()),
        gui_listen_address: gui
            .and_then(|gui| gui.get("gui_listen_address"))
            .and_then(|value| value.as_str())
            .map(|value| value.to_owned()),
        gui_listen_port: gui
            .and_then(|gui| gui.get("gui_listen_port"))
            .and_then(|value| value.as_integer())
            .map(|value| value as u16),
    }
}

fn manager(run_as_root: bool) -> ServiceManager {
    ServiceManager::new("frankendancer.service", run_as_root)
}

fn show(state: &str) -> CommandOutcome {
    CommandOutcome::success(&format!("LoadState=loaded\nActiveState={state}\n"))
}

#[test]
fn parses_loaded_and_missing_units() {
    assert_eq!(
        parse_state("LoadState=loaded\nActiveState=active\n"),
        Ok(ServiceState::Active)
    );
    assert_eq!(
        parse_state("LoadState=not-found\nActiveState=inactive\n"),
        Ok(ServiceState::Missing)
    );
}

#[test]
fn parses_every_named_state() {
    let expected = [
        ("active", ServiceState::Active),
        ("activating", ServiceState::Activating),
        ("deactivating", ServiceState::Deactivating),
        ("inactive", ServiceState::Inactive),
        ("failed", ServiceState::Failed),
        ("reloading", ServiceState::Unknown("reloading".to_owned())),
    ];
    for (name, state) in expected {
        let parsed = parse_state(&format!("ActiveState={name}\n")).expect("a state");
        assert_eq!(parsed, state);
        assert_eq!(parsed.name(), name);
    }
    assert_eq!(ServiceState::Missing.name(), "not-found");
}

#[test]
fn last_described_state_counts() {
    assert_eq!(
        parse_state("ActiveState=active\r\nother\nActiveState=failed\r\n"),
        Ok(ServiceState::Failed)
    );
    assert!(parse_state("LoadState=loaded\n").is_err());
    assert!(parse_state("").is_err());
}

#[test]
fn reads_version_from_the_running_process() {
    let mut host = Host::new(
        vec![CommandOutcome::success("4321\n"), CommandOutcome::success("v1.2.3\n")],
        vec![],
        vec![],
    );
    let version = drive(&mut host, |session| manager(false).running_fdctl_version(session));
    assert_eq!(version, Ok(Some("v1.2.3".to_owned())));
    assert_eq!(
        host.asked[1],
        Request::Capture(CommandSpec::new("sudo").args(&["--", "/proc/4321/exe", "version"]))
    );
}

#[test]
fn running_version_is_read_directly_by_root() {
    let mut host = Host::new(
        vec![CommandOutcome::success("7\n"), CommandOutcome::success("v1\n")],
        vec![],
        vec![],
    );
    let version = drive(&mut host, |session| manager(true).running_fdctl_version(session));
    assert_eq!(version, Ok(Some("v1".to_owned())));
    assert_eq!(
        host.asked[1],
        Request::Capture(CommandSpec::new("/proc/7/exe").args(&["version"]))
    );
}

#[test]
fn no_running_process_has_no_version() {
    let mut host = Host::new(vec![CommandOutcome::success("0\n")], vec![], vec![]);
    let version = drive(&mut host, |session| manager(false).running_fdctl_version(session));
    assert_eq!(version, Ok(None));
    assert_eq!(host.asked.len(), 1);
}

#[test]
fn invalid_main_pid_is_refused() {
    let mut host = Host::new(vec![CommandOutcome::success("many\n")], vec![], vec![]);
    let version = drive(&mut host, |session| manager(false).running_fdctl_version(session));
    assert_eq!(
        version,
        Err(
            "systemctl returned an invalid MainPID for frankendancer.service: invalid digit found in string"
                .to_owned()
        )
    );
}

#[test]
fn empty_running_version_is_refused() {
    let mut host = Host::new(
        vec![CommandOutcome::success("5"), CommandOutcome::success(" \n")],
        vec![],
        vec![],
    );
    let version = drive(&mut host, |session| manager(false).running_fdctl_version(session));
    assert_eq!(version, Err("running fdctl returned an empty version".to_owned()));
}

#[test]
fn start_is_a_noop_when_already_active() {
    let mut host = Host::new(vec![show("active")], vec![], vec![]);
    assert_eq!(drive(&mut host, |session| manager(false).start(session)), Ok(false));
    assert!(host.interacted().is_empty());
    assert_eq!(host.asked.len(), 2);
    assert_eq!(
        host.logged(),
        [(Level::Info, "service is already active service=\"frankendancer.service\"".to_owned())]
    );
}

#[test]
fn stop_is_a_noop_when_already_inactive() {
    let mut host = Host::new(vec![show("inactive")], vec![], vec![]);
    assert_eq!(drive(&mut host, |session| manager(false).stop(session)), Ok(false));
    assert!(host.interacted().is_empty());
    assert_eq!(host.asked.len(), 2);
    assert_eq!(
        host.logged(),
        [(Level::Info, "service is already inactive service=\"frankendancer.service\"".to_owned())]
    );
}

#[test]
fn start_verifies_the_final_state() {
    let mut host = Host::new(
        vec![show("inactive"), show("active")],
        vec![],
        vec![CommandOutcome::success("")],
    );
    assert_eq!(drive(&mut host, |session| manager(true).start(session)), Ok(true));
    assert_eq!(
        host.interacted(),
        [CommandSpec::new("systemctl").args(&["start", "--", "frankendancer.service"])]
    );
    assert_eq!(
        host.logged(),
        [
            (
                Level::Info,
                "starting service service=\"frankendancer.service\" state=inactive".to_owned()
            ),
            (Level::Info, "service started service=\"frankendancer.service\"".to_owned()),
        ]
    );
}

#[test]
fn completed_stop_is_logged() {
    let mut host = Host::new(
        vec![show("reloading"), show("inactive")],
        vec![],
        vec![CommandOutcome::success("")],
    );
    assert_eq!(drive(&mut host, |session| manager(false).stop(session)), Ok(true));
    assert_eq!(
        host.logged(),
        [
            (
                Level::Info,
                "stopping service service=\"frankendancer.service\" state=reloading".to_owned()
            ),
            (Level::Info, "service stopped service=\"frankendancer.service\"".to_owned()),
        ]
    );
}

#[test]
fn stop_verifies_the_final_state() {
    let mut host = Host::new(
        vec![show("active"), show("deactivating")],
        vec![],
        vec![CommandOutcome::success("")],
    );
    assert_eq!(
        drive(&mut host, |session| manager(false).stop(session)),
        Err(
            "frankendancer.service did not become inactive after stop (state: deactivating)"
                .to_owned()
        )
    );
}

#[test]
fn missing_units_are_neither_started_nor_stopped() {
    let missing = || CommandOutcome::success("LoadState=not-found\nActiveState=inactive\n");
    let mut host = Host::new(vec![missing()], vec![], vec![]);
    assert_eq!(
        drive(&mut host, |session| manager(false).start(session)),
        Err("systemd unit frankendancer.service was not found".to_owned())
    );
    let mut host = Host::new(vec![missing()], vec![], vec![]);
    assert_eq!(
        drive(&mut host, |session| manager(false).stop(session)),
        Err("systemd unit frankendancer.service was not found".to_owned())
    );
    assert!(host.interacted().is_empty());
}

#[test]
fn failed_start_logs_the_journal() {
    let mut host = Host::new(
        vec![show("inactive"), CommandOutcome::success("line 1\nline 2\n")],
        vec![],
        vec![CommandOutcome::failure(1, "")],
    );
    assert_eq!(
        drive(&mut host, |session| manager(false).start(session)),
        Err("could not start frankendancer.service: exit code 1".to_owned())
    );
    assert_eq!(
        host.asked[3],
        Request::Capture(CommandSpec::new("sudo").args(&[
            "--",
            "journalctl",
            "--unit",
            "frankendancer.service",
            "--lines",
            "20",
            "--no-pager",
        ]))
    );
    assert_eq!(
        host.logged()[1..],
        [(
            Level::Error,
            "recent service journal service=\"frankendancer.service\" journal=line 1\nline 2".to_owned()
        )]
    );
}

#[test]
fn start_that_does_not_become_active_logs_the_journal() {
    let mut host = Host::new(
        vec![show("inactive"), show("failed")],
        vec![],
        vec![CommandOutcome::success("")],
    );
    assert_eq!(
        drive(&mut host, |session| manager(true).start(session)),
        Err("frankendancer.service did not become active after start (state: failed)".to_owned())
    );
    assert_eq!(host.logged().len(), 2);
    assert_eq!(host.logged()[1].0, Level::Error);
    assert_eq!(
        host.logged()[1].1,
        "could not read recent service journal service=\"frankendancer.service\" error=unexpected capture"
    );
}

#[test]
fn unreadable_journal_is_logged_with_its_reason() {
    let event = |journal: Reply| {
        let mut session = Session::new(vec![journal]);
        assert_eq!(manager(true).log_recent_journal(&mut session), Err(Halt::Waiting));
        match session.pending() {
            Some(Request::Log(event)) => line(event),
            other => panic!("unexpected {other:?}"),
        }
    };
    assert_eq!(
        event(Reply::Outcome(CommandOutcome::failure(1, " denied \n"))),
        "could not read recent service journal service=\"frankendancer.service\" result=exit code 1 stderr=denied"
    );
    assert_eq!(
        event(Reply::Caused("could not execute journalctl".to_owned(), "ENOENT".to_owned())),
        "could not read recent service journal service=\"frankendancer.service\" error=could not execute journalctl"
    );
    assert_eq!(
        event(Reply::Outcome(CommandOutcome::success(" \n"))),
        "recent service journal was empty service=\"frankendancer.service\""
    );
    let mut session = Session::new(vec![
        Reply::Caused("could not execute systemctl".to_owned(), "ENOENT".to_owned()),
    ]);
    assert_eq!(
        manager(true).state(&mut session).map(|state| state.name()),
        Err(Halt::Failed(Failure {
            message: "could not execute systemctl: ENOENT".to_owned()
        }))
    );
}

#[test]
fn unreadable_state_is_reported() {
    let mut host = Host::new(vec![CommandOutcome::failure(4, "no bus\n")], vec![], vec![]);
    assert_eq!(
        drive(&mut host, |session| manager(false).state(session)),
        Err("querying systemd unit frankendancer.service failed with exit code 4: no bus".to_owned())
    );
}
