use val::cli::{Cli, Commands};
use val::dispatch::run_program;
use val::logging::{FieldValue, Level, LogEvent};
use val::monitor::GuiConfig;
use val::process::{CommandOutcome, CommandSpec};
use val::session::{FileFacts, Halt, Reply, Request, Session, Variable};
use val::status::{ConsensusConfig, FiredancerConfig};

/// A machine with a systemd unit, a checkout, and its tools.
struct Machine {
    state: String,
    asked: Vec<Request>,
    commands: Vec<String>,
    built: bool,
    locked: bool,
}

impl Machine {
    fn new() -> Machine {
        Machine {
            state: "active".to_owned(),
            asked: Vec::new(),
            commands: Vec::new(),
            built: false,
            locked: false,
        }
    }

    fn execute(&mut self, command: &CommandSpec) -> CommandOutcome {
        let line = format!("{} {}", command.program, command.args.join(" "));
        self.commands.push(line.clone());
        let ok = CommandOutcome::success;
        if line.contains("--property=MainPID") {
            ok("0\n")
        } else if line.contains("systemctl show") {
            ok(&format!("LoadState=loaded\nActiveState={}\n", self.state))
        } else if line.contains("systemctl stop") {
            self.state = "inactive".to_owned();
            ok("")
        } else if line.contains("systemctl start") {
            self.state = "active".to_owned();
            ok("")
        } else if line.contains("--is-inside-work-tree") {
            ok("true\n")
        } else if line.ends_with("HEAD") {
            ok("bbbbbbbbbbbbbbbbbbbbbbbbbbbbbbbbbbbbbbbb\n")
        } else if line.contains("--end-of-options") {
            if line.contains("vTEST") {
                ok("aaaaaaaaaaaaaaaaaaaaaaaaaaaaaaaaaaaaaaaa\n")
            } else {
                CommandOutcome::failure(1, "")
            }
        } else if line.starts_with("make") {
            self.built = true;
            ok("")
        } else if line.ends_with("fdctl version") {
            ok("v2.0.0\n")
        } else {
            ok("")
        }
    }

    fn answer(&mut self, request: &Request) -> Reply {
        let facts = |is_file: bool, mode: u32| Reply::Facts(FileFacts { is_file, is_dir: !is_file, mode });
        match request {
            Request::Capture(command) | Request::Streaming(command) | Request::Interactive(command) => {
                Reply::Outcome(self.execute(command))
            }
            Request::Variable(Variable::SudoUser) => Reply::MaybeText(None),
            Request::Variable(Variable::User) => Reply::MaybeText(Some("validator".to_owned())),
            Request::Variable(Variable::Home) => Reply::MaybeText(Some("/home/validator".to_owned())),
            Request::Inspect(path) if path == "/t" || path == "/t/firedancer" => facts(false, 0o755),
            Request::Inspect(path) if path.ends_with("fdctl") && !self.built => {
                Reply::NotFound("No such file or directory (os error 2)".to_owned())
            }
            Request::Inspect(_) => facts(true, 0o100700),
            Request::RemoveTree(_) => {
                self.built = false;
                Reply::Done
            }
            Request::Now => Reply::Moment(0),
            Request::ReadText(_) => Reply::Text(String::new()),
            Request::ParseGui(_) => Reply::Gui(GuiConfig {
                enabled: None,
                gui_listen_address: None,
                gui_listen_port: None,
            }),
            Request::ParseConfig(_) => Reply::Config(FiredancerConfig {
                name: None,
                user: None,
                scratch_directory: None,
                consensus: Some(ConsensusConfig {
                    identity_path: Some("/t/active-id.json".to_owned()),
                    snapshot_fetch: Some(true),
                }),
            }),
            Request::IdentityKey(_) => Reply::Text("KEY".to_owned()),
            Request::CurrentPhase(_) => Reply::MaybeText(None),
            Request::TryLock(_) if self.locked => Reply::Busy,
            _ => Reply::Done,
        }
    }

    fn run(&mut self, command: Commands, root: bool) -> Result<(), String> {
        let cli = Cli {
            base_path: Some("/t".to_owned()),
            repo_path: Some("/t/firedancer".to_owned()),
            config: Some("/t/active-fd-config.toml".to_owned()),
            log_dir: Some("/t/logs".to_owned()),
            service: "frankendancer.service".to_owned(),
            verbose: 0,
            command,
        };
        let mut replies: Vec<Reply> = Vec::new();
        loop {
            let mut session = Session::new(replies.clone());
            match run_program(&mut session, &cli, &vec![], root) {
                Ok(()) => return Ok(()),
                Err(Halt::Failed(failure)) => return Err(failure.message),
                Err(Halt::Waiting) => {
                    let request = session.pending().expect("a pending request").clone();
                    self.asked.push(request.clone());
                    replies.push(self.answer(&request));
                }
            }
        }
    }

    fn position(&self, word: &str) -> usize {
        self.commands
            .iter()
            .position(|line| line.split_whitespace().any(|token| token == word))
            .expect(word)
    }

    fn log(&self) -> Vec<String> {
        self.asked
            .iter()
            .filter_map(|request| match request {
                Request::Log(event) => Some(line(event)),
                _ => None,
            })
            .collect()
    }
}

/// An event as the log shows it: the message, and the fields with their names.
fn line(event: &LogEvent) -> String {
    let mut line = event.message.clone();
    for field in &event.fields {
        let value = match &field.value {
            FieldValue::Text(text) => format!("{text:?}"),
            FieldValue::Shown(text) => text.clone(),
            FieldValue::Number(number) => number.to_string(),
            FieldValue::Flag(flag) => flag.to_string(),
        };
        line = format!("{line} {}={value}", field.name);
    }
    line
}

#[test]
fn program_reports_the_status() {
    let mut machine = Machine::new();
    machine.built = true;
    machine.run(Commands::Status { json: true }, false).expect("status");
    let report = machine
        .asked
        .iter()
        .find_map(|request| match request {
            Request::ShowStatus(report, json) => Some((report.clone(), *json)),
            _ => None,
        })
        .expect("a report");
    assert!(report.1);
    assert_eq!(report.0.service, "active");
    assert_eq!(report.0.running_fdctl_version, None);
    assert_eq!(report.0.built_fdctl_version.as_deref(), Some("v2.0.0"));
    assert_eq!(report.0.active_id_key, "KEY");
    assert!(report.0.snapshot_fetch);
    assert_eq!(report.0.validator_state, None);
    assert_eq!(machine.log().last().map(String::as_str), Some("val command completed command=\"status\""));
}

#[test]
fn program_restarts_in_order() {
    let mut machine = Machine::new();
    machine.built = true;
    machine.run(Commands::RestartFiredancer, false).expect("restarted");
    assert_eq!(machine.state, "active");
    assert!(machine.position("stop") < machine.position("start"));
    let configured = machine
        .commands
        .iter()
        .filter(|line| line.contains("configure init all --config /t/active-fd-config.toml"))
        .count();
    assert_eq!(configured, 2);
    let log = machine.log();
    assert_eq!(
        log,
        [
            "val command started command=\"restart-firedancer\" base_path=/t",
            "restarting Firedancer (stop, configure, configure, start)",
            "starting restart segment: stop",
            "stopping service service=\"frankendancer.service\" state=active",
            "service stopped service=\"frankendancer.service\"",
            "starting restart segment: configure 1/2",
            "configuring Firedancer host config=/t/active-fd-config.toml",
            "Firedancer host configuration completed",
            "starting restart segment: configure 2/2",
            "configuring Firedancer host config=/t/active-fd-config.toml",
            "Firedancer host configuration completed",
            "starting restart segment: start",
            "starting service service=\"frankendancer.service\" state=inactive",
            "service started service=\"frankendancer.service\"",
            "Firedancer restart completed",
            "val command completed command=\"restart-firedancer\"",
        ]
    );
}

#[test]
fn program_updates_with_compact_progress() {
    let mut machine = Machine::new();
    let command = Commands::UpdateFull { git_ref: "vTEST".to_owned() };
    machine.run(command, false).expect("updated");
    assert_eq!(machine.state, "active");
    let printed: Vec<&str> = machine
        .asked
        .iter()
        .filter_map(|request| match request {
            Request::PrintLine(line) | Request::BeginStage(line) => Some(line.as_str()),
            _ => None,
        })
        .collect();
    for line in [
        "[1/3] Update Firedancer (vTEST)",
        "[2/3] Build Firedancer",
        "[3/3] Restart service",
        "Update complete: vTEST",
        "Detailed log: /t/logs/val.log",
    ] {
        assert!(printed.contains(&line), "{line}: {printed:?}");
    }
    assert!(machine.asked.contains(&Request::StartLogging("/t/logs".to_owned(), 0, true)));
    assert!(machine.position("stop") < machine.position("start"));
    assert!(machine.position("make") < machine.position("stop"));
    assert!(machine.commands.contains(&"/t/firedancer/deps.sh fetch check install".to_owned()));
    assert!(machine.asked.contains(&Request::RemoveTree("/t/firedancer/build".to_owned())));
}

#[test]
fn held_lock_refuses_every_command_but_watching() {
    let mut machine = Machine::new();
    machine.locked = true;
    assert_eq!(
        machine.run(Commands::MakeFiredancer, false),
        Err("another val command is already running".to_owned())
    );
    assert!(machine.commands.is_empty());
    assert_eq!(
        machine.asked.last(),
        Some(&Request::Complain("another val command is already running".to_owned()))
    );
    let watch = Commands::Monitor { all: false, url: None };
    assert_eq!(machine.run(watch, false), Ok(()));
    assert!(machine.asked.contains(&Request::Watch("ws://127.0.0.1:80/websocket".to_owned(), false)));
}

#[test]
fn direct_root_login_ends_before_anything_is_opened() {
    let mut machine = Machine::new();
    let error = machine.run(Commands::MakeFiredancer, true).expect_err("refused");
    assert!(error.starts_with("make-firedancer must not run from a direct root login"));
    assert_eq!(machine.asked.len(), 2);
    assert!(machine.commands.is_empty());
}

#[test]
fn failed_command_is_logged() {
    let mut machine = Machine::new();
    let command = Commands::UpdateFiredancer { git_ref: "missing".to_owned() };
    let error = machine.run(command, false).expect_err("missing ref");
    assert_eq!(error, "git ref 'missing' was not found after fetching origin");
    assert_eq!(
        machine.asked.last(),
        Some(&Request::Log(
            LogEvent::new(Level::Error, "val", "val command failed")
                .text("command", "update-firedancer")
                .shown("error", "git ref 'missing' was not found after fetching origin")
        ))
    );
}
