use std::collections::VecDeque;

use val::logging::{FieldValue, Level, LogEvent};
use val::monitor::GuiConfig;
use val::process::{CommandOutcome, CommandSpec};
use val::session::{FileFacts, Halt, Reply, Request, Session};
use val::configure::{configure_firedancer, validate_prerequisites};

#[allow(dead_code)]
/// A host that answers requests from prepared outcomes and files.
struct Host {
    captures: VecDeque<CommandOutcome>,
    streaming: VecDeque<CommandOutcome>,
    interactive: VecDeque<CommandOutcome>,
    files: Vec<(String, FileFacts)>,
    texts: Vec<(String, String)>,
    clock: u64,
    asked: Vec<Request>,
}

#[allow(dead_code)]
impl Host {
    fn new(
        captures: Vec<CommandOutcome>,
        streaming: Vec<CommandOutcome>,
        interactive: Vec<CommandOutcome>,
    ) -> Host {
        Host {
            captures: VecDeque::from(captures),
            streaming: VecDeque::from(streaming),
            interactive: VecDeque::from(interactive),
            files: Vec::new(),
            texts: Vec::new(),
            clock: 0,
            asked: Vec::new(),
        }
    }

    fn file(mut self, path: &str, mode: u32) -> Host {
        self.files.push((path.to_owned(), FileFacts { is_file: true, is_dir: false, mode }));
        self
    }

    fn directory(mut self, path: &str) -> Host {
        self.files.push((path.to_owned(), FileFacts { is_file: false, is_dir: true, mode: 0o755 }));
        self
    }

    fn text(mut self, path: &str, text: &str) -> Host {
        self.texts.push((path.to_owned(), text.to_owned()));
        self
    }

    fn next(queue: &mut VecDeque<CommandOutcome>, kind: &str) -> Reply {
        match queue.pop_front() {
            Some(outcome) => Reply::Outcome(outcome),
            None => Reply::Error(format!("unexpected {kind}")),
        }
    }

    fn answer(&mut self, request: &Request) -> Reply {
        match request {
            Request::Capture(_) => Host::next(&mut self.captures, "capture"),
            Request::Streaming(_) => Host::next(&mut self.streaming, "streaming command"),
            Request::Interactive(_) => Host::next(&mut self.interactive, "interactive command"),
            Request::Inspect(path) => match self.files.iter().find(|(known, _)| known == path) {
                Some((_, facts)) => Reply::Facts(*facts),
                None => Reply::NotFound("No such file or directory (os error 2)".to_owned()),
            },
            Request::Now => {
                self.clock += 1_000_000_000;
                Reply::Moment(self.clock)
            }
            Request::ReadText(path) => match self.texts.iter().find(|(known, _)| known == path) {
                Some((_, text)) => Reply::Text(text.clone()),
                None => Reply::Error("No such file or directory (os error 2)".to_owned()),
            },
            Request::ParseGui(text) => Reply::Gui(gui_config(text)),
            _ => Reply::Done,
        }
    }

    fn streamed(&self) -> Vec<CommandSpec> {
        self.asked
            .iter()
            .filter_map(|request| match request {
                Request::Streaming(command) => Some(command.clone()),
                _ => None,
            })
            .collect()
    }

    fn interacted(&self) -> Vec<CommandSpec> {
        self.asked
            .iter()
            .filter_map(|request| match request {
                Request::Interactive(command) => Some(command.clone()),
                _ => None,
            })
            .collect()
    }

    fn printed(&self) -> Vec<String> {
        self.asked
            .iter()
            .filter_map(|request| match request {
                Request::PrintLine(line) => Some(line.clone()),
                _ => None,
            })
            .collect()
    }

    fn logged(&self) -> Vec<(Level, String)> {
        self.asked
            .iter()
            .filter_map(|request| match request {
                Request::Log(event) => Some((event.level, line(event))),
                _ => None,
            })
            .collect()
    }
}

/// An event as the log shows it: the message, and the fields with their names.
#[allow(dead_code)]
fn line(event: &LogEvent) -> String {
    let mut line = event.message.clone();
    for field in &event.fields {
        let value = match &field.value {
            FieldValue::Text(text) => format!("{text:?}"),
            FieldValue::Shown(text) => text.clone(),
            FieldValue::Number(number) => number.to_string(),
            FieldValue::Flag(flag) => flag.to_string(),
        };
        line = format!("{line} {}={value}", field.name);
    }
    line
}

/// Runs a procedure to its end: performs the pending request, and repeats.
fn drive<T>(
    host: &mut Host,
    procedure: impl Fn(&mut Session) -> Result<T, Halt>,
) -> Result<T, String> {
    let mut replies: Vec<Reply> = Vec::new();
    loop {
        let mut session = Session::new(replies.clone());
        match procedure(&mut session) {
            Ok(value) => return Ok(value),
            Err(Halt::Failed(failure)) => return Err(failure.message),
            Err(Halt::Waiting) => {
                let request = session.pending().expect("a pending request").clone();
                host.asked.push(request.clone());
                replies.push(host.answer(&request));
            }
        }
    }
}

fn gui_config(text: &str) -> GuiConfig {
    let table: toml::Table = text.parse().expect("TOML");
    let gui = table.get("tiles").and_then(|tiles| tiles.get("gui"));
    GuiConfig {
        enabled: gui.and_then(|gui| gui.get("enabled")).and_then(|value| value.as_bool()),
        gui_listen_address: gui
            .and_then(|gui| gui.get("gui_listen_address"))
            .and_then(|value| value.as_str())
            .map(|value| value.to_owned()),
        gui_listen_port: gui
            .and_then(|gui| gui.get("gui_listen_port"))
            .and_then(|value| value.as_integer())
            .map(|value| value as u16),
    }
}

#[test]
fn invokes_fdctl_with_the_active_config() {
    let repository = "/home/val/firedancer";
    let fdctl = "/home/val/firedancer/build/native/gcc/bin/fdctl";
    let config = "/home/val/firedancer/active-fd-config.toml";
    let mut host = Host::new(vec![], vec![], vec![CommandOutcome::success("")])
        .file(fdctl, 0o755)
        .file(config, 0o644);
    drive(&mut host, |session| configure_firedancer(session, repository, config))
        .expect("configured");

    let command = host.interacted()[0].clone();
    assert_eq!(command.program, "sudo");
    assert_eq!(command.cwd.as_deref(), Some(repository));
    assert_eq!(
        command.args,
        ["--", fdctl, "configure", "init", "all", "--config", config]
    );
}

#[test]
fn failed_configuration_is_reported() {
    let mut host = Host::new(vec![], vec![], vec![CommandOutcome::failure(3, "denied")])
        .file("/r/build/native/gcc/bin/fdctl", 0o700)
        .file("/c", 0o600);
    assert_eq!(
        drive(&mut host, |session| configure_firedancer(session, "/r", "/c")),
        Err("Firedancer host configuration failed with exit code 3: denied".to_owned())
    );
}

#[test]
fn prerequisites_name_what_is_wrong() {
    let fdctl = "/r/build/native/gcc/bin/fdctl";
    let check = |mut host: Host| {
        drive(&mut host, |session| validate_prerequisites(session, "/r", "/c"))
    };
    assert_eq!(
        check(Host::new(vec![], vec![], vec![])),
        Err(
            "fdctl binary not found: /r/build/native/gcc/bin/fdctl: No such file or directory (os error 2)"
                .to_owned()
        )
    );
    assert_eq!(
        check(Host::new(vec![], vec![], vec![]).file(fdctl, 0o644)),
        Err("fdctl is not executable: /r/build/native/gcc/bin/fdctl".to_owned())
    );
    assert_eq!(
        check(Host::new(vec![], vec![], vec![]).directory(fdctl)),
        Err("fdctl is not executable: /r/build/native/gcc/bin/fdctl".to_owned())
    );
    assert_eq!(
        check(Host::new(vec![], vec![], vec![]).file(fdctl, 0o100)),
        Err(
            "Firedancer config not found: /c: No such file or directory (os error 2)".to_owned()
        )
    );
    assert_eq!(
        check(Host::new(vec![], vec![], vec![]).file(fdctl, 0o100).directory("/c")),
        Err("Firedancer config is not a file: /c".to_owned())
    );
    assert_eq!(
        check(Host::new(vec![], vec![], vec![]).file(fdctl, 0o001).file("/c", 0o000)),
        Ok(())
    );
}

#[test]
fn configuration_is_logged() {
    let mut host = Host::new(vec![], vec![], vec![CommandOutcome::success("")])
        .file("/r/build/native/gcc/bin/fdctl", 0o700)
        .file("/c", 0o600);
    assert_eq!(drive(&mut host, |session| configure_firedancer(session, "/r", "/c")), Ok(()));
    assert_eq!(
        host.logged(),
        [
            (Level::Info, "configuring Firedancer host config=/c".to_owned()),
            (Level::Info, "Firedancer host configuration completed".to_owned()),
        ]
    );
}
