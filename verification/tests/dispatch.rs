use std::collections::VecDeque;

use val::logging::{FieldValue, Level, LogEvent};
use val::monitor::GuiConfig;
use val::process::{CommandOutcome, CommandSpec};
use val::session::{FileFacts, Halt, Reply, Request, Session};
use val::cli::{Cli, Commands};
use val::dispatch::dispatch;
use val::paths::AppPaths;
use val::status::{FiredancerConfig, SnapshotFetchSource};

#[allow(dead_code)]
/// A host that answers requests from prepared outcomes and files.
struct Host {
    captures: VecDeque<CommandOutcome>,
    streaming: VecDeque<CommandOutcome>,
    interactive: VecDeque<CommandOutcome>,
    files: Vec<(String, FileFacts)>,
    texts: Vec<(String, String)>,
    clock: u64,
    asked: Vec<Request>,
}

#[allow(dead_code)]
impl Host {
    fn new(
        captures: Vec<CommandOutcome>,
        streaming: Vec<CommandOutcome>,
        interactive: Vec<CommandOutcome>,
    ) -> Host {
        Host {
            captures: VecDeque::from(captures),
            streaming: VecDeque::from(streaming),
            interactive: VecDeque::from(interactive),
            files: Vec::new(),
            texts: Vec::new(),
            clock: 0,
            asked: Vec::new(),
        }
    }

    fn file(mut self, path: &str, mode: u32) -> Host {
        self.files.push((path.to_owned(), FileFacts { is_file: true, is_dir: false, mode }));
        self
    }

    fn directory(mut self, path: &str) -> Host {
        self.files.push((path.to_owned(), FileFacts { is_file: false, is_dir: true, mode: 0o755 }));
        self
    }

    fn text(mut self, path: &str, text: &str) -> Host {
        self.texts.push((path.to_owned(), text.to_owned()));
        self
    }

    fn next(queue: &mut VecDeque<CommandOutcome>, kind: &str) -> Reply {
        match queue.pop_front() {
            Some(outcome) => Reply::Outcome(outcome),
            None => Reply::Error(format!("unexpected {kind}")),
        }
    }

    fn answer(&mut self, request: &Request) -> Reply {
        match request {
            Request::Capture(_) => Host::next(&mut self.captures, "capture"),
            Request::Streaming(_) => Host::next(&mut self.streaming, "streaming command"),
            Request::Interactive(_) => Host::next(&mut self.interactive, "interactive command"),
            Request::Inspect(path) => match self.files.iter().find(|(known, _)| known == path) {
                Some((_, facts)) => Reply::Facts(*facts),
                None => Reply::NotFound("No such file or directory (os error 2)".to_owned()),
            },
            Request::Now => {
                self.clock += 1_000_000_000;
                Reply::Moment(self.clock)
            }
            Request::ReadText(path) => match self.texts.iter().find(|(known, _)| known == path) {
                Some((_, text)) => Reply::Text(text.clone()),
                None => Reply::Error("No such file or directory (os error 2)".to_owned()),
            },
            Request::ParseGui(text) => Reply::Gui(gui_config(text)),
            _ => Reply::Done,
        }
    }

    fn streamed(&self) -> Vec<CommandSpec> {
        self.asked
            .iter()
            .filter_map(|request| match request {
                Request::Streaming(command) => Some(command.clone()),
                _ => None,
            })
            .collect()
    }

    fn interacted(&self) -> Vec<CommandSpec> {
        self.asked
            .iter()
            .filter_map(|request| match request {
                Request::Interactive(command) => Some(command.clone()),
                _ => None,
            })
            .collect()
    }

    fn printed(&self) -> Vec<String> {
        self.asked
            .iter()
            .filter_map(|request| match request {
                Request::PrintLine(line) => Some(line.clone()),
                _ => None,
            })
            .collect()
    }

    fn logged(&self) -> Vec<(Level, String)> {
        self.asked
            .iter()
            .filter_map(|request| match request {
                Request::Log(event) => Some((event.level, line(event))),
                _ => None,
            })
            .collect()
    }
}

/// An event as the log shows it: the message, and the fields with their names.
#[allow(dead_code)]
fn line(event: &LogEvent) -> String {
    let mut line = event.message.clone();
    for field in &event.fields {
        let value = match &field.value {
            FieldValue::Text(text) => format!("{text:?}"),
            FieldValue::Shown(text) => text.clone(),
            FieldValue::Number(number) => number.to_string(),
            FieldValue::Flag(flag) => flag.to_string(),
        };
        line = format!("{line} {}={value}", field.name);
    }
    line
}

/// Runs a procedure to its end: performs the pending request, and repeats.
fn drive<T>(
    host: &mut Host,
    procedure: impl Fn(&mut Session) -> Result<T, Halt>,
) -> Result<T, String> {
    let mut replies: Vec<Reply> = Vec::new();
    loop {
        let mut session = Session::new(replies.clone());
        match procedure(&mut session) {
            Ok(value) => return Ok(value),
            Err(Halt::Failed(failure)) => return Err(failure.message),
            Err(Halt::Waiting) => {
                let request = session.pending().expect("a pending request").clone();
                host.asked.push(request.clone());
                replies.push(host.answer(&request));
            }
        }
    }
}

fn gui_config(text: &str) -> GuiConfig {
    let table: toml::Table = text.parse().expect("TOML");
    let gui = table.get("tiles").and_then(|tiles| tiles.get("gui"));
    GuiConfig {
        enabled: gui.and_then(|gui| gui.get("enabled")).and_then(|value| value.as_bool()),
        gui_listen_address: gui
            .and_then(|gui| gui.get("gui_listen_address"))
            .and_then(|value| value.as_str())
            .map(|value| value.to_owned()),
        gui_listen_port: gui
            .and_then(|gui| gui.get("gui_listen_port"))
            .and_then(|value| value.as_integer())
            .map(|value| value as u16),
    }
}

fn cli(command: Commands, verbose: u8) -> Cli {
    Cli {
        base_path: None,
        repo_path: None,
        config: None,
        log_dir: None,
        service: "frankendancer.service".to_owned(),
        verbose,
        command,
    }
}

fn paths() -> AppPaths {
    AppPaths {
        base: "/b".to_owned(),
        repository: "/b/r".to_owned(),
        config: "/b/c".to_owned(),
        log_dir: "/b/l".to_owned(),
        username: "u".to_owned(),
    }
}

fn first_request(command: Commands, verbose: u8, root: bool) -> Request {
    let mut session = Session::new(vec![]);
    let ran = dispatch(&mut session, &cli(command, verbose), &paths(), root);
    assert_eq!(ran, Err(Halt::Waiting));
    session.pending().expect("a request").clone()
}

#[test]
fn every_command_reaches_its_procedure() {
    let git_ref = || "v1".to_owned();
    assert_eq!(
        first_request(Commands::UpdateFiredancer { git_ref: git_ref() }, 0, false),
        Request::Inspect("/b/r".to_owned())
    );
    assert_eq!(
        first_request(Commands::UpdateFull { git_ref: git_ref() }, 0, false),
        Request::ReadText("/b/c".to_owned())
    );
    assert_eq!(
        first_request(Commands::MakeFiredancer, 0, false),
        Request::Inspect("/b/r".to_owned())
    );
    assert_eq!(
        first_request(Commands::ConfigureFiredancer, 0, false),
        Request::Inspect("/b/r/build/native/gcc/bin/fdctl".to_owned())
    );
    let show = Request::Capture(CommandSpec::new("systemctl").args(&[
        "show",
        "--property=LoadState",
        "--property=ActiveState",
        "--",
        "frankendancer.service",
    ]));
    assert_eq!(first_request(Commands::StartFiredancer, 0, false), show);
    assert_eq!(first_request(Commands::StopFiredancer, 0, true), show);
    assert_eq!(first_request(Commands::Status { json: true }, 0, false), show);
    assert_eq!(
        first_request(Commands::RestartFiredancer, 0, false),
        Request::Inspect("/b/r/build/native/gcc/bin/fdctl".to_owned())
    );
    assert_eq!(
        first_request(Commands::Monitor { all: true, url: Some("ws://u".to_owned()) }, 0, false),
        Request::Log(
            LogEvent::new(Level::Info, "val::monitor", "connecting to Firedancer GUI websocket")
                .shown("url", "ws://u")
                .flag("all", true)
        )
    );
}

#[test]
fn verbose_updates_are_not_compact() {
    let second = |verbose: u8| {
        let mut session = Session::new(vec![
            Reply::Text(String::new()),
            Reply::Gui(gui_config("")),
        ]);
        let command = Commands::UpdateFull { git_ref: "v1".to_owned() };
        let _ = dispatch(&mut session, &cli(command, verbose), &paths(), false);
        session.pending().expect("a request").clone()
    };
    assert_eq!(second(0), Request::CompactOutput(true));
    assert_eq!(second(1), Request::Now);
}

#[test]
fn status_shows_the_collected_report() {
    let mut session = Session::new(vec![
        Reply::Outcome(CommandOutcome::success("ActiveState=active\n")),
        Reply::Outcome(CommandOutcome::success("0\n")),
        Reply::NotFound("missing".to_owned()),
        Reply::Text(String::new()),
        Reply::Config(FiredancerConfig {
            name: None,
            user: None,
            scratch_directory: Some("/s".to_owned()),
            consensus: None,
        }),
        Reply::Facts(FileFacts { is_file: true, is_dir: false, mode: 0o600 }),
        Reply::Text("KEY".to_owned()),
        Reply::Text(String::new()),
        Reply::Gui(gui_config("")),
        Reply::MaybeText(Some("running".to_owned())),
    ]);
    let ran = dispatch(&mut session, &cli(Commands::Status { json: true }, 0), &paths(), false);
    assert_eq!(ran, Err(Halt::Waiting));
    match session.pending() {
        Some(Request::ShowStatus(report, json)) => {
            assert!(*json);
            assert_eq!(report.service, "active");
            assert_eq!(report.validator_state.as_deref(), Some("running"));
            assert_eq!(report.running_fdctl_version, None);
            assert_eq!(report.built_fdctl_version, None);
            assert_eq!(report.active_id_key, "KEY");
            assert_eq!(report.identity_path, "/s/identity.json");
            assert!(report.snapshot_fetch);
            assert_eq!(report.snapshot_fetch_source, SnapshotFetchSource::FiredancerDefault);
            assert_eq!(report.config_path, "/b/c");
        }
        other => panic!("unexpected {other:?}"),
    }
}
