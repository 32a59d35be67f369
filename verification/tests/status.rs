use std::collections::VecDeque;

use val::logging::{FieldValue, Level, LogEvent};
use val::monitor::GuiConfig;
use val::process::{CommandOutcome, CommandSpec};
use val::session::{FileFacts, Halt, Reply, Request, Session};
use ed25519_dalek::SigningKey;
use val::paths::AppPaths;
use val::service::ServiceState;
use val::status::{
    confirmed_key, expand_firedancer_path, identity_reply, public_key_of, read_public_key,
    resolve_identity_path, show_mode, snapshot_fetch_of, spend_key_text, spend_keypair,
    split_keypair, ConsensusConfig, FiredancerConfig, SnapshotFetchSource, StatusReport,
};

#[allow(dead_code)]
/// A host that answers requests from prepared outcomes and files.
struct Host {
    captures: VecDeque<CommandOutcome>,
    streaming: VecDeque<CommandOutcome>,
    interactive: VecDeque<CommandOutcome>,
    files: Vec<(String, FileFacts)>,
    texts: Vec<(String, String)>,
    clock: u64,
    asked: Vec<Request>,
}

#[allow(dead_code)]
impl Host {
    fn new(
        captures: Vec<CommandOutcome>,
        streaming: Vec<CommandOutcome>,
        interactive: Vec<CommandOutcome>,
    ) -> Host {
        Host {
            captures: VecDeque::from(captures),
            streaming: VecDeque::from(streaming),
            interactive: VecDeque::from(interactive),
            files: Vec::new(),
            texts: Vec::new(),
            clock: 0,
            asked: Vec::new(),
        }
    }

    fn file(mut self, path: &str, mode: u32) -> Host {
        self.files.push((path.to_owned(), FileFacts { is_file: true, is_dir: false, mode }));
        self
    }

    fn directory(mut self, path: &str) -> Host {
        self.files.push((path.to_owned(), FileFacts { is_file: false, is_dir: true, mode: 0o755 }));
        self
    }

    fn text(mut self, path: &str, text: &str) -> Host {
        self.texts.push((path.to_owned(), text.to_owned()));
        self
    }

    fn next(queue: &mut VecDeque<CommandOutcome>, kind: &str) -> Reply {
        match queue.pop_front() {
            Some(outcome) => Reply::Outcome(outcome),
            None => Reply::Error(format!("unexpected {kind}")),
        }
    }

    fn answer(&mut self, request: &Request) -> Reply {
        match request {
            Request::Capture(_) => Host::next(&mut self.captures, "capture"),
            Request::Streaming(_) => Host::next(&mut self.streaming, "streaming command"),
            Request::Interactive(_) => Host::next(&mut self.interactive, "interactive command"),
            Request::Inspect(path) => match self.files.iter().find(|(known, _)| known == path) {
                Some((_, facts)) => Reply::Facts(*facts),
                None => Reply::NotFound("No such file or directory (os error 2)".to_owned()),
            },
            Request::Now => {
                self.clock += 1_000_000_000;
                Reply::Moment(self.clock)
            }
            Request::ReadText(path) => match self.texts.iter().find(|(known, _)| known == path) {
                Some((_, text)) => Reply::Text(text.clone()),
                None => Reply::Error("No such file or directory (os error 2)".to_owned()),
            },
            Request::ParseGui(text) => Reply::Gui(gui_config(text)),
            _ => Reply::Done,
        }
    }

    fn streamed(&self) -> Vec<CommandSpec> {
        self.asked
            .iter()
            .filter_map(|request| match request {
                Request::Streaming(command) => Some(command.clone()),
                _ => None,
            })
            .collect()
    }

    fn interacted(&self) -> Vec<CommandSpec> {
        self.asked
            .iter()
            .filter_map(|request| match request {
                Request::Interactive(command) => Some(command.clone()),
                _ => None,
            })
            .collect()
    }

    fn printed(&self) -> Vec<String> {
        self.asked
            .iter()
            .filter_map(|request| match request {
                Request::PrintLine(line) => Some(line.clone()),
                _ => None,
            })
            .collect()
    }

    fn logged(&self) -> Vec<(Level, String)> {
        self.asked
            .iter()
            .filter_map(|request| match request {
                Request::Log(event) => Some((event.level, line(event))),
                _ => None,
            })
            .collect()
    }
}

/// An event as the log shows it: the message, and the fields with their names.
#[allow(dead_code)]
fn line(event: &LogEvent) -> String {
    let mut line = event.message.clone();
    for field in &event.fields {
        let value = match &field.value {
            FieldValue::Text(text) => format!("{text:?}"),
            FieldValue::Shown(text) => text.clone(),
            FieldValue::Number(number) => number.to_string(),
            FieldValue::Flag(flag) => flag.to_string(),
        };
        line = format!("{line} {}={value}", field.name);
    }
    line
}

/// Runs a procedure to its end: performs the pending request, and repeats.
fn drive<T>(
    host: &mut Host,
    procedure: impl Fn(&mut Session) -> Result<T, Halt>,
) -> Result<T, String> {
    let mut replies: Vec<Reply> = Vec::new();
    loop {
        let mut session = Session::new(replies.clone());
        match procedure(&mut session) {
            Ok(value) => return Ok(value),
            Err(Halt::Failed(failure)) => return Err(failure.message),
            Err(Halt::Waiting) => {
                let request = session.pending().expect("a pending request").clone();
                host.asked.push(request.clone());
                replies.push(host.answer(&request));
            }
        }
    }
}

fn gui_config(text: &str) -> GuiConfig {
    let table: toml::Table = text.parse().expect("TOML");
    let gui = table.get("tiles").and_then(|tiles| tiles.get("gui"));
    GuiConfig {
        enabled: gui.and_then(|gui| gui.get("enabled")).and_then(|value| value.as_bool()),
        gui_listen_address: gui
            .and_then(|gui| gui.get("gui_listen_address"))
            .and_then(|value| value.as_str())
            .map(|value| value.to_owned()),
        gui_listen_port: gui
            .and_then(|gui| gui.get("gui_listen_port"))
            .and_then(|value| value.as_integer())
            .map(|value| value as u16),
    }
}

fn paths() -> AppPaths {
    AppPaths {
        base: "/t".to_owned(),
        repository: "/t/code/firedancer".to_owned(),
        config: "/t/active-fd-config.toml".to_owned(),
        log_dir: "/t/logs".to_owned(),
        username: "validator".to_owned(),
    }
}

fn text_of(table: &toml::Table, key: &str) -> Option<String> {
    table.get(key).and_then(|value| value.as_str()).map(|value| value.to_owned())
}

fn config(text: &str) -> FiredancerConfig {
    let table: toml::Table = text.parse().expect("TOML");
    FiredancerConfig {
        name: text_of(&table, "name"),
        user: text_of(&table, "user"),
        scratch_directory: text_of(&table, "scratch_directory"),
        consensus: table.get("consensus").and_then(|value| value.as_table()).map(|consensus| {
            ConsensusConfig {
                identity_path: text_of(consensus, "identity_path"),
                snapshot_fetch: consensus.get("snapshot_fetch").and_then(|value| value.as_bool()),
            }
        }),
    }
}

fn keypair(secret: [u8; 32]) -> (String, [u8; 32]) {
    let public = SigningKey::from_bytes(&secret).verifying_key().to_bytes();
    let mut bytes = secret.to_vec();
    bytes.extend(public);
    (serde_json::to_string(&bytes).expect("JSON"), public)
}

/// Loads a report from a configuration and a keypair file.
fn load(config_text: &str, identity: &str, key_text: &str, mode: u32) -> (Result<StatusReport, String>, Vec<Request>) {
    let mut replies: Vec<Reply> = Vec::new();
    let mut asked: Vec<Request> = Vec::new();
    loop {
        let mut session = Session::new(replies.clone());
        let loaded = StatusReport::load(
            &mut session,
            &paths(),
            ServiceState::Active,
            Some("v1.2.3".to_owned()),
            Some("v1.2.4".to_owned()),
        );
        match loaded {
            Ok(report) => return (Ok(report), asked),
            Err(Halt::Failed(failure)) => return (Err(failure.message), asked),
            Err(Halt::Waiting) => {
                let request = session.pending().expect("a pending request").clone();
                let reply = match &request {
                    Request::ReadText(_) => Reply::Text(config_text.to_owned()),
                    Request::ParseConfig(text) => Reply::Config(config(text)),
                    Request::Inspect(path) if path == identity => {
                        Reply::Facts(FileFacts { is_file: true, is_dir: false, mode })
                    }
                    Request::IdentityKey(path) => {
                        let read = if path == identity {
                            Ok(key_text.to_owned())
                        } else {
                            Err("No such file or directory (os error 2)".to_owned())
                        };
                        identity_reply(path, read)
                    }
                    Request::Log(_) => Reply::Done,
                    _ => Reply::NotFound("missing".to_owned()),
                };
                asked.push(request);
                replies.push(reply);
            }
        }
    }
}

#[test]
fn reports_configured_identity_and_disabled_snapshot_fetch() {
    let (key_text, public) = keypair([7_u8; 32]);
    let (report, _) = load(
        "[consensus]\nidentity_path = \"/t/active-id.json\"\nsnapshot_fetch = false\n",
        "/t/active-id.json",
        &key_text,
        0o600,
    );
    let report = report.expect("report");
    assert_eq!(report.service, "active");
    assert_eq!(report.running_fdctl_version.as_deref(), Some("v1.2.3"));
    assert_eq!(report.built_fdctl_version.as_deref(), Some("v1.2.4"));
    assert_eq!(report.active_id_key, bs58::encode(public).into_string());
    assert!(!report.snapshot_fetch);
    assert_eq!(report.snapshot_fetch_source, SnapshotFetchSource::Configured);
    assert_eq!(report.validator_state, None);
}

#[test]
fn uses_effective_firedancer_identity_and_snapshot_defaults() {
    let (key_text, _) = keypair([1_u8; 32]);
    let identity = "/t/fd-scratch/identity.json";
    let (report, _) = load(
        "scratch_directory = \"/t/fd-scratch\"\n[consensus]\n",
        identity,
        &key_text,
        0o600,
    );
    let report = report.expect("report");
    assert!(report.snapshot_fetch);
    assert_eq!(report.snapshot_fetch_source, SnapshotFetchSource::FiredancerDefault);
    assert_eq!(report.identity_path, identity);
}

#[test]
fn expands_firedancer_user_and_name_placeholders() {
    let config = config(
        "name = \"fd-main\"\nuser = \"fd-user\"\n[consensus]\nidentity_path = \"/tmp/{user}-{name}-id.json\"\n",
    );
    assert_eq!(
        resolve_identity_path(&config, &paths()),
        Ok("/tmp/fd-user-fd-main-id.json".to_owned())
    );
}

#[test]
fn identity_defaults_follow_the_operator() {
    assert_eq!(
        resolve_identity_path(&config(""), &paths()),
        Ok("/home/validator/.firedancer/fd1/identity.json".to_owned())
    );
    assert_eq!(
        resolve_identity_path(&config("user = \"\"\nname = \"\"\n[consensus]\nidentity_path = \"\"\n"), &paths()),
        Ok("/home/validator/.firedancer/fd1/identity.json".to_owned())
    );
    assert_eq!(
        expand_firedancer_path("/{user}/{user}/{name}", "{name}", "n"),
        "/n/n/n"
    );
}

#[test]
fn relative_identity_paths_are_refused() {
    let refused = resolve_identity_path(&config("[consensus]\nidentity_path = \"id.json\"\n"), &paths());
    assert_eq!(
        refused.expect_err("relative").message,
        "effective Firedancer identity path must be absolute, got id.json"
    );
    let (report, asked) = load("[consensus]\nidentity_path = \"id.json\"\n", "id.json", "[]", 0o600);
    assert!(report.is_err());
    assert_eq!(asked.len(), 2);
}

#[test]
fn snapshot_fetch_is_on_unless_configured() {
    assert_eq!(
        snapshot_fetch_of(&config("")),
        (true, SnapshotFetchSource::FiredancerDefault)
    );
    assert_eq!(
        snapshot_fetch_of(&config("[consensus]\nsnapshot_fetch = true\n")),
        (true, SnapshotFetchSource::Configured)
    );
}

#[test]
fn open_keypairs_are_warned_about() {
    let (key_text, _) = keypair([3_u8; 32]);
    let text = "[consensus]\nidentity_path = \"/id\"\n";
    let (report, asked) = load(text, "/id", &key_text, 0o100640);
    assert!(report.is_ok());
    assert!(asked.contains(&Request::Log(
        LogEvent::new(
            Level::Warn,
            "val::status",
            "identity keypair is accessible by group or other users"
        )
        .shown("path", "/id")
        .shown("mode", "0640")
    )));
    let (report, asked) = load(text, "/id", &key_text, 0o100600);
    assert!(report.is_ok());
    assert!(!asked.iter().any(|request| matches!(request, Request::Log(_))));
}

#[test]
fn modes_have_four_octal_digits() {
    assert_eq!(show_mode(0o100755), "0755");
    assert_eq!(show_mode(0o007), "0007");
    assert_eq!(show_mode(0o4620), "0620");
}

#[test]
fn known_key_has_its_known_name() {
    let (key_text, public) = keypair([0_u8; 32]);
    assert_eq!(
        public_key_of("/id", key_text),
        Ok("4zvwRjXUKGfvwnParsHAS3HuSVzV5cA4McphgmoCtajS".to_owned())
    );
    assert_eq!(public[0], 0x3b);
}

#[test]
fn base58_keeps_leading_zeros() {
    let mut key = [0_u8; 32];
    key[31] = 58;
    let expected = format!("{}21", "1".repeat(31));
    assert_eq!(confirmed_key("/id", &key, &key), Ok(expected));
    assert_eq!(confirmed_key("/id", &[0; 32], &[0; 32]), Ok("1".repeat(32)));
}

#[test]
fn invalid_keypairs_are_refused() {
    let message = |text: &str| public_key_of("/id", text.to_owned()).expect_err("refused").message;
    assert!(message("{}").starts_with("active identity keypair is not valid JSON: /id: "));
    assert!(message("[300]").starts_with("active identity keypair is not valid JSON: /id: "));
    assert_eq!(
        message("[1, 2, 3]"),
        "active identity keypair must contain exactly 64 bytes, found 3 in /id"
    );
    let (key_text, _) = keypair([5_u8; 32]);
    let mut bytes: Vec<u8> = serde_json::from_str(&key_text).expect("bytes");
    bytes[63] ^= 1;
    assert_eq!(
        message(&serde_json::to_string(&bytes).expect("JSON")),
        "active identity keypair has a public key that does not match its private key: /id"
    );
    assert_eq!(
        read_public_key("/id", Err("gone".to_owned())).expect_err("unreadable").message,
        "could not read active identity keypair /id: gone"
    );
}

#[test]
fn keypairs_are_split_in_the_middle() {
    let bytes: Vec<u8> = (0..64).collect();
    let mut secret = [0_u8; 32];
    let mut public = [0_u8; 32];
    assert_eq!(split_keypair("/id", &bytes, &mut secret, &mut public), Ok(()));
    assert_eq!(secret[31], 31);
    assert_eq!(public[0], 32);
    assert!(split_keypair("/id", &vec![9; 63], &mut secret, &mut public).is_err());
    assert!(split_keypair("/id", &vec![9; 65], &mut secret, &mut public).is_err());
    assert_eq!(secret[31], 31);
    assert_eq!(public[0], 32);
}

#[test]
fn keypairs_are_wiped() {
    let (key_text, public) = keypair([8_u8; 32]);
    let mut bytes: Vec<u8> = serde_json::from_str(&key_text).expect("bytes");
    let mut text = key_text;
    let key = bs58::encode(public).into_string();
    assert_eq!(spend_key_text("/id", &mut text), Ok(key.clone()));
    assert_eq!(text, "");
    assert_eq!(spend_keypair("/id", &mut bytes), Ok(key));
    assert!(bytes.is_empty());
    let mut text = "no key".to_owned();
    assert!(spend_key_text("/id", &mut text).is_err());
    assert_eq!(text, "");
    let mut bytes = vec![1, 2, 3];
    assert!(spend_keypair("/id", &mut bytes).is_err());
    assert!(bytes.is_empty());
}

fn report() -> StatusReport {
    StatusReport {
        service: "active".to_owned(),
        validator_state: None,
        running_fdctl_version: None,
        built_fdctl_version: None,
        active_id_key: "KEY".to_owned(),
        identity_path: "/id".to_owned(),
        snapshot_fetch: true,
        snapshot_fetch_source: SnapshotFetchSource::FiredancerDefault,
        config_path: "/c".to_owned(),
    }
}

#[test]
fn report_is_written_for_reading() {
    assert_eq!(
        report().write_human(),
        "service: active\nvalidator state: unavailable\nrunning fdctl version: not running\nbuilt fdctl version: not built\nactive-id key: KEY\nidentity path: /id\nsnapshot fetch: enabled (Firedancer default)\nconfig: /c\n"
    );
    let full = StatusReport {
        validator_state: Some("running".to_owned()),
        running_fdctl_version: Some("v1".to_owned()),
        built_fdctl_version: Some("v2".to_owned()),
        snapshot_fetch: false,
        snapshot_fetch_source: SnapshotFetchSource::Configured,
        ..report()
    };
    assert_eq!(
        full.write_human(),
        "service: active\nvalidator state: running\nrunning fdctl version: v1\nbuilt fdctl version: v2\nactive-id key: KEY\nidentity path: /id\nsnapshot fetch: disabled (configured)\nconfig: /c\n"
    );
}

fn collect(gui: Reply, phase: Reply) -> Result<StatusReport, Halt> {
    let mut session = Session::new(vec![
        Reply::Text(String::new()),
        Reply::Config(config("[consensus]\nidentity_path = \"/id\"\n")),
        Reply::NotFound("missing".to_owned()),
        Reply::Text("KEY".to_owned()),
        Reply::Text(String::new()),
        gui,
        phase,
    ]);
    StatusReport::collect(&mut session, &paths(), ServiceState::Inactive, None, None)
}

#[test]
fn validator_state_is_collected_from_the_gui() {
    let on = || Reply::Gui(gui_config(""));
    let report = collect(on(), Reply::MaybeText(Some("loading ledger".to_owned()))).expect("report");
    assert_eq!(report.validator_state.as_deref(), Some("loading ledger"));
    assert_eq!(report.active_id_key, "KEY");
    let silent = collect(on(), Reply::MaybeText(None)).expect("report");
    assert_eq!(silent.validator_state, None);
    let off = Reply::Gui(gui_config("[tiles.gui]\nenabled = false\n"));
    let disabled = collect(off, Reply::Done).expect("report");
    assert_eq!(disabled.validator_state, None);
    let broken = collect(Reply::Error("bad".to_owned()), Reply::Done).expect("report");
    assert_eq!(broken, StatusReport { validator_state: None, ..silent });
}

#[test]
fn unreadable_configuration_is_reported() {
    let mut session = Session::new(vec![Reply::Error("gone".to_owned())]);
    let loaded = StatusReport::load(&mut session, &paths(), ServiceState::Active, None, None);
    match loaded {
        Err(Halt::Failed(failure)) => assert_eq!(
            failure.message,
            "could not read active Firedancer config /t/active-fd-config.toml: gone"
        ),
        _ => panic!("the configuration cannot be read"),
    }
    let mut session = Session::new(vec![Reply::Text(String::new()), Reply::Error("bad".to_owned())]);
    let loaded = StatusReport::load(&mut session, &paths(), ServiceState::Active, None, None);
    match loaded {
        Err(Halt::Failed(failure)) => assert_eq!(
            failure.message,
            "could not parse active Firedancer config /t/active-fd-config.toml: bad"
        ),
        _ => panic!("the configuration cannot be parsed"),
    }
}

#[test]
fn keypair_is_answered_by_its_public_key() {
    let (key_text, public) = keypair([9_u8; 32]);
    assert_eq!(
        identity_reply("/id", Ok(key_text)),
        Reply::Text(bs58::encode(public).into_string())
    );
    assert_eq!(
        identity_reply("/id", Ok("[1, 2, 3]".to_owned())),
        Reply::Error(
            "active identity keypair must contain exactly 64 bytes, found 3 in /id".to_owned()
        )
    );
    assert_eq!(
        identity_reply("/id", Err("gone".to_owned())),
        Reply::Error("could not read active identity keypair /id: gone".to_owned())
    );
}
