use std::collections::VecDeque;

use val::logging::{FieldValue, Level, LogEvent};
use val::monitor::GuiConfig;
use val::process::{CommandOutcome, CommandSpec};
use val::session::{FileFacts, Halt, Reply, Request, Session};
use val::monitor::{
    connect_address, humanize_phase, is_live, is_progress_key, is_refresh_timeout, is_unavailable,
    is_unavailable_io, is_unavailable_websocket, read_phase, run, state_line, validate_config,
    wait_until_running, websocket_url, Cause, CurrentState, Delivery, GuiEndpoint, GuiMessage,
    IoKind, PhaseReading, PhaseWatch, Watch, WatchEvent, WatchPlan, WatchStep, WebsocketFault,
    PHASE_DEADLINE_NANOS,
};

#[allow(dead_code)]
/// A host that answers requests from prepared outcomes and files.
struct Host {
    captures: VecDeque<CommandOutcome>,
    streaming: VecDeque<CommandOutcome>,
    interactive: VecDeque<CommandOutcome>,
    files: Vec<(String, FileFacts)>,
    texts: Vec<(String, String)>,
    clock: u64,
    asked: Vec<Request>,
}

#[allow(dead_code)]
impl Host {
    fn new(
        captures: Vec<CommandOutcome>,
        streaming: Vec<CommandOutcome>,
        interactive: Vec<CommandOutcome>,
    ) -> Host {
        Host {
            captures: VecDeque::from(captures),
            streaming: VecDeque::from(streaming),
            interactive: VecDeque::from(interactive),
            files: Vec::new(),
            texts: Vec::new(),
            clock: 0,
            asked: Vec::new(),
        }
    }

    fn file(mut self, path: &str, mode: u32) -> Host {
        self.files.push((path.to_owned(), FileFacts { is_file: true, is_dir: false, mode }));
        self
    }

    fn directory(mut self, path: &str) -> Host {
        self.files.push((path.to_owned(), FileFacts { is_file: false, is_dir: true, mode: 0o755 }));
        self
    }

    fn text(mut self, path: &str, text: &str) -> Host {
        self.texts.push((path.to_owned(), text.to_owned()));
        self
    }

    fn next(queue: &mut VecDeque<CommandOutcome>, kind: &str) -> Reply {
        match queue.pop_front() {
            Some(outcome) => Reply::Outcome(outcome),
            None => Reply::Error(format!("unexpected {kind}")),
        }
    }

    fn answer(&mut self, request: &Request) -> Reply {
        match request {
            Request::Capture(_) => Host::next(&mut self.captures, "capture"),
            Request::Streaming(_) => Host::next(&mut self.streaming, "streaming command"),
            Request::Interactive(_) => Host::next(&mut self.interactive, "interactive command"),
            Request::Inspect(path) => match self.files.iter().find(|(known, _)| known == path) {
                Some((_, facts)) => Reply::Facts(*facts),
                None => Reply::NotFound("No such file or directory (os error 2)".to_owned()),
            },
            Request::Now => {
                self.clock += 1_000_000_000;
                Reply::Moment(self.clock)
            }
            Request::ReadText(path) => match self.texts.iter().find(|(known, _)| known == path) {
                Some((_, text)) => Reply::Text(text.clone()),
                None => Reply::Error("No such file or directory (os error 2)".to_owned()),
            },
            Request::ParseGui(text) => Reply::Gui(gui_config(text)),
            _ => Reply::Done,
        }
    }

    fn streamed(&self) -> Vec<CommandSpec> {
        self.asked
            .iter()
            .filter_map(|request| match request {
                Request::Streaming(command) => Some(command.clone()),
                _ => None,
            })
            .collect()
    }

    fn interacted(&self) -> Vec<CommandSpec> {
        self.asked
            .iter()
            .filter_map(|request| match request {
                Request::Interactive(command) => Some(command.clone()),
                _ => None,
            })
            .collect()
    }

    fn printed(&self) -> Vec<String> {
        self.asked
            .iter()
            .filter_map(|request| match request {
                Request::PrintLine(line) => Some(line.clone()),
                _ => None,
            })
            .collect()
    }

    fn logged(&self) -> Vec<(Level, String)> {
        self.asked
            .iter()
            .filter_map(|request| match request {
                Request::Log(event) => Some((event.level, line(event))),
                _ => None,
            })
            .collect()
    }
}

/// An event as the log shows it: the message, and the fields with their names.
#[allow(dead_code)]
fn line(event: &LogEvent) -> String {
    let mut line = event.message.clone();
    for field in &event.fields {
        let value = match &field.value {
            FieldValue::Text(text) => format!("{text:?}"),
            FieldValue::Shown(text) => text.clone(),
            FieldValue::Number(number) => number.to_string(),
            FieldValue::Flag(flag) => flag.to_string(),
        };
        line = format!("{line} {}={value}", field.name);
    }
    line
}

/// Runs a procedure to its end: performs the pending request, and repeats.
fn drive<T>(
    host: &mut Host,
    procedure: impl Fn(&mut Session) -> Result<T, Halt>,
) -> Result<T, String> {
    let mut replies: Vec<Reply> = Vec::new();
    loop {
        let mut session = Session::new(replies.clone());
        match procedure(&mut session) {
            Ok(value) => return Ok(value),
            Err(Halt::Failed(failure)) => return Err(failure.message),
            Err(Halt::Waiting) => {
                let request = session.pending().expect("a pending request").clone();
                host.asked.push(request.clone());
                replies.push(host.answer(&request));
            }
        }
    }
}

fn gui_config(text: &str) -> GuiConfig {
    let table: toml::Table = text.parse().expect("TOML");
    let gui = table.get("tiles").and_then(|tiles| tiles.get("gui"));
    GuiConfig {
        enabled: gui.and_then(|gui| gui.get("enabled")).and_then(|value| value.as_bool()),
        gui_listen_address: gui
            .and_then(|gui| gui.get("gui_listen_address"))
            .and_then(|value| value.as_str())
            .map(|value| value.to_owned()),
        gui_listen_port: gui
            .and_then(|gui| gui.get("gui_listen_port"))
            .and_then(|value| value.as_integer())
            .map(|value| value as u16),
    }
}

const SECOND: u64 = 1_000_000_000;
const CONFIG: &str = "/t/active-fd-config.toml";

fn endpoint(text: &str) -> GuiEndpoint {
    GuiEndpoint::from_config(&gui_config(text))
}

fn delivery(payload: &str) -> WatchEvent {
    let value: Option<serde_json::Value> = serde_json::from_str(payload).ok();
    let message = value.map(|value| GuiMessage {
        topic: value["topic"].as_str().expect("topic").to_owned(),
        key: value["key"].as_str().expect("key").to_owned(),
        phase: value["value"]
            .get("phase")
            .and_then(|phase| phase.as_str())
            .map(|phase| phase.to_owned()),
        value: serde_json::to_string_pretty(&value["value"]).expect("JSON"),
    });
    WatchEvent::Text(Delivery { payload: payload.to_owned(), message })
}

fn watch(all: bool, until_running: bool, max_sessions: Option<usize>, live: bool) -> (Watch, String) {
    Watch::open(
        WatchPlan { url: "ws://h/websocket".to_owned(), all, until_running, max_sessions },
        live,
    )
}

#[test]
fn uses_firedancer_gui_defaults() {
    let endpoint = endpoint("");
    assert_eq!(
        endpoint,
        GuiEndpoint { enabled: true, address: "127.0.0.1".to_owned(), port: 80 }
    );
    assert_eq!(endpoint.websocket_url(), "ws://127.0.0.1:80/websocket");
}

#[test]
fn reads_configured_gui_listen_settings() {
    let endpoint = endpoint(
        "[tiles.gui]\nenabled = true\ngui_listen_address = \"10.0.0.8\"\ngui_listen_port = 8080\n",
    );
    assert_eq!(endpoint.address, "10.0.0.8");
    assert_eq!(endpoint.port, 8080);
    assert_eq!(endpoint.websocket_url(), "ws://10.0.0.8:8080/websocket");
}

#[test]
fn rejects_disabled_gui() {
    let endpoint = endpoint("[tiles.gui]\nenabled = false\n");
    assert!(!endpoint.enabled);
}

#[test]
fn rewrites_wildcard_bind_addresses() {
    assert_eq!(connect_address("0.0.0.0"), "127.0.0.1");
    assert_eq!(connect_address("::"), "::1");
    assert_eq!(websocket_url("::1", 80), "ws://[::1]:80/websocket");
}

#[test]
fn other_addresses_are_kept() {
    assert_eq!(connect_address(""), "127.0.0.1");
    assert_eq!(connect_address("[::]"), "::1");
    assert_eq!(connect_address("10.1.2.3"), "10.1.2.3");
    assert_eq!(websocket_url("[fe80::1]", 9), "ws://[fe80::1]:9/websocket");
    assert_eq!(websocket_url("host", 65535), "ws://host:65535/websocket");
}

#[test]
fn run_fails_when_gui_is_disabled() {
    let mut host = Host::new(vec![], vec![], vec![])
        .text(CONFIG, "[tiles.gui]\nenabled = false\n");
    let error = drive(&mut host, |session| run(session, CONFIG, &None, false))
        .expect_err("disabled GUI");
    assert!(error.contains("disabled"), "{error}");
    assert_eq!(
        error,
        "Firedancer GUI is disabled in /t/active-fd-config.toml ([tiles.gui].enabled = false)"
    );
}

#[test]
fn given_url_is_watched_without_a_configuration() {
    let mut host = Host::new(vec![], vec![], vec![]);
    let url = Some("ws://elsewhere/websocket".to_owned());
    drive(&mut host, |session| run(session, CONFIG, &url, true)).expect("watched");
    assert_eq!(
        host.asked,
        [
            Request::Log(
                LogEvent::new(
                    Level::Info,
                    "val::monitor",
                    "connecting to Firedancer GUI websocket"
                )
                .shown("url", "ws://elsewhere/websocket")
                .flag("all", true)
            ),
            Request::Watch("ws://elsewhere/websocket".to_owned(), true),
        ]
    );
}

#[test]
fn configured_url_is_validated_and_awaited() {
    let mut host = Host::new(vec![], vec![], vec![]).text(CONFIG, "");
    drive(&mut host, |session| validate_config(session, CONFIG)).expect("enabled");
    assert_eq!(host.asked.len(), 2);
    let mut host = Host::new(vec![], vec![], vec![]).text(CONFIG, "");
    drive(&mut host, |session| wait_until_running(session, CONFIG)).expect("running");
    assert_eq!(
        host.asked[2..],
        [Request::AwaitRunning("ws://127.0.0.1:80/websocket".to_owned())]
    );
    let mut host = Host::new(vec![], vec![], vec![]);
    assert_eq!(
        drive(&mut host, |session| validate_config(session, CONFIG)),
        Err(
            "could not read active Firedancer config /t/active-fd-config.toml: No such file or directory (os error 2)"
                .to_owned()
        )
    );
}

#[test]
fn progress_filter_keeps_boot_keys() {
    assert!(is_progress_key("summary", "startup_progress"));
    assert!(is_progress_key("summary", "boot_progress"));
    assert!(!is_progress_key("summary", "estimated_tps"));
    assert!(!is_progress_key("block", "boot_progress"));
}

#[test]
fn connection_refused_is_unavailable() {
    assert!(is_unavailable(&vec![Cause::Io(IoKind::ConnectionRefused)]));
}

#[test]
fn tungstenite_unable_to_connect_is_unavailable() {
    assert!(is_unavailable(&vec![
        Cause::Other,
        Cause::Websocket(WebsocketFault::UnableToConnect),
    ]));
}

#[test]
fn other_causes_are_not_outages() {
    assert!(!is_unavailable(&vec![]));
    assert!(!is_unavailable(&vec![
        Cause::Other,
        Cause::Websocket(WebsocketFault::Other),
        Cause::Io(IoKind::Other),
    ]));
    assert!(is_unavailable_websocket(WebsocketFault::Protocol));
    assert!(is_unavailable_websocket(WebsocketFault::Io(IoKind::BrokenPipe)));
    assert!(!is_unavailable_websocket(WebsocketFault::Io(IoKind::Other)));
    assert!(is_unavailable_io(IoKind::WouldBlock));
    assert!(is_refresh_timeout(IoKind::TimedOut));
    assert!(!is_refresh_timeout(IoKind::ConnectionReset));
}

#[test]
fn prints_only_validator_state_transitions() {
    let (mut watch, mut output) = watch(false, false, Some(1), false);
    let events = vec![
        WatchEvent::Connected,
        delivery(r#"{"topic":"summary","key":"cluster","value":"mainnet-beta"}"#),
        delivery(
            r#"{"topic":"summary","key":"startup_progress","value":{"phase":"downloading_full_snapshot","downloading_full_snapshot_current_bytes":100}}"#,
        ),
        delivery(r#"{"topic":"summary","key":"cluster","value":"mainnet-beta"}"#),
        WatchEvent::Closed,
    ];
    let mut last = WatchStep::Connect;
    for event in events {
        let (text, next) = watch.step(event, 0, "+0.0s");
        output.push_str(&text);
        last = next;
    }
    assert_eq!(last, WatchStep::Finish);
    assert!(output.contains("connected; waiting for validator state"), "{output}");
    assert!(output.contains("downloading full snapshot"), "{output}");
    assert!(!output.contains("summary.cluster"), "{output}");
    assert!(!output.contains("current_bytes"), "{output}");
    assert_eq!(
        output,
        "connected; waiting for validator state ... 0s\ndownloading full snapshot .............. 0s\n"
    );
}

#[test]
fn all_mode_prints_non_progress_payloads() {
    let (mut watch, mut output) = watch(true, false, Some(1), false);
    for event in [
        WatchEvent::Connected,
        delivery(r#"{"topic":"summary","key":"cluster","value":"testnet"}"#),
        WatchEvent::Binary,
        delivery("not json"),
        WatchEvent::Closed,
    ] {
        output.push_str(&watch.step(event, 0, "+1.5s").0);
    }
    assert!(output.contains("summary.cluster"), "{output}");
    assert!(output.contains("testnet"), "{output}");
    assert!(!output.contains("[hidden;"), "{output}");
    assert_eq!(
        output,
        "dumping every websocket message; Ctrl+C to stop\n+1.5s  connected  ws://h/websocket\n+1.5s  summary.cluster\n\"testnet\"\n+1.5s  <binary websocket frame ignored>\n+1.5s  <unparsed>\nnot json\n"
    );
}

#[test]
fn reconnects_after_the_service_drops() {
    let (mut watch, mut output) = watch(false, false, Some(2), false);
    let mut steps = Vec::new();
    for event in [
        WatchEvent::Connected,
        delivery(
            r#"{"topic":"summary","key":"startup_progress","value":{"phase":"downloading_full_snapshot"}}"#,
        ),
        WatchEvent::Closed,
        WatchEvent::Slept,
        WatchEvent::Connected,
        delivery(r#"{"topic":"summary","key":"startup_progress","value":{"phase":"running"}}"#),
        WatchEvent::Closed,
    ] {
        let (text, next) = watch.step(event, 0, "+0.0s");
        output.push_str(&text);
        steps.push(next);
    }
    assert_eq!(output.matches("connected").count(), 2, "{output}");
    assert!(output.contains("service not available; retrying"), "{output}");
    assert!(output.contains("downloading full snapshot"), "{output}");
    assert!(output.contains("running"), "{output}");
    assert_eq!(
        steps,
        [
            WatchStep::Read,
            WatchStep::Read,
            WatchStep::Sleep,
            WatchStep::Connect,
            WatchStep::Read,
            WatchStep::Read,
            WatchStep::Finish,
        ]
    );
}

#[test]
fn unlimited_watch_keeps_trying() {
    let (mut watch, _) = watch(true, false, None, false);
    let refused = || {
        WatchEvent::ConnectFailed(vec![Cause::Io(IoKind::ConnectionRefused)], "refused".to_owned())
    };
    assert_eq!(
        watch.step(refused(), 0, "+0.0s"),
        ("+0.0s  service not available; retrying\n".to_owned(), WatchStep::Sleep)
    );
    assert_eq!(watch.step(WatchEvent::Slept, 0, "+1.0s").1, WatchStep::Connect);
    assert_eq!(watch.step(refused(), 0, "+1.0s"), (String::new(), WatchStep::Sleep));
    assert_eq!(watch.step(WatchEvent::Connected, 0, "+2.0s").1, WatchStep::Read);
    assert_eq!(
        watch.step(WatchEvent::ReadFailed(WebsocketFault::ConnectionClosed, "x".to_owned()), 0, "+3.0s"),
        ("+3.0s  service not available; retrying\n".to_owned(), WatchStep::Sleep)
    );
}

#[test]
fn other_errors_end_the_watch() {
    let message = |event: WatchEvent| {
        let (mut watch, _) = watch(false, false, None, false);
        match watch.step(event, 0, "").1 {
            WatchStep::Fail(failure) => failure.message,
            step => panic!("unexpected {step:?}"),
        }
    };
    assert_eq!(
        message(WatchEvent::ConnectFailed(vec![Cause::Other], "bad URL".to_owned())),
        "could not connect to Firedancer GUI at ws://h/websocket: bad URL"
    );
    assert_eq!(
        message(WatchEvent::IntervalRefused(vec![], "refused".to_owned())),
        "could not configure monitor refresh interval: refused"
    );
    assert_eq!(
        message(WatchEvent::ReadFailed(WebsocketFault::Other, "odd".to_owned())),
        "Firedancer GUI websocket ws://h/websocket closed: odd"
    );
}

#[test]
fn waiting_ends_when_the_validator_is_running() {
    let running = r#"{"topic":"summary","key":"boot_progress","value":{"phase":"running"}}"#;
    let (mut waiting, _) = watch(false, true, None, true);
    waiting.step(WatchEvent::Connected, 0, "");
    let (text, next) = waiting.step(delivery(running), 3 * SECOND, "");
    assert_eq!(next, WatchStep::Finish);
    assert!(text.ends_with("running ................................ 0s\u{1b}[K\n"), "{text:?}");
    let (mut watching, _) = watch(false, false, None, false);
    assert_eq!(watching.step(delivery(running), 0, "").1, WatchStep::Read);
}

#[test]
fn live_state_counts_up_and_starts_a_new_line_on_transition() {
    let started = 1_000 * SECOND;
    let mut state = CurrentState::new(true);
    let mut text = state.transition_at("loading ledger", started);
    text.push_str(&state.tick_at(started + 3 * SECOND));
    text.push_str(&state.transition_at("processing ledger", started + 5 * SECOND));
    assert!(text.contains("loading ledger"), "{text}");
    assert!(text.contains("3s"), "{text}");
    assert!(text.contains("5s"), "{text}");
    assert!(text.contains("processing ledger"), "{text}");
    assert_eq!(text.matches('\n').count(), 1, "{text:?}");
    assert_eq!(
        text,
        "\rloading ledger ......................... 0s\u{1b}[K\rloading ledger ......................... 3s\u{1b}[K\rloading ledger ......................... 5s\u{1b}[K\n\rprocessing ledger ...................... 0s\u{1b}[K"
    );
}

#[test]
fn repeated_state_writes_nothing_within_a_second() {
    let mut state = CurrentState::new(true);
    state.transition_at("loading ledger", 0);
    assert_eq!(state.transition_at("loading ledger", SECOND - 1), "");
    assert_ne!(state.transition_at("loading ledger", SECOND), "");
    assert_eq!(state.active.as_ref().map(|active| active.started), Some(0));
    let mut piped = CurrentState::new(false);
    assert_ne!(piped.transition_at("a", 0), "");
    assert_eq!(piped.tick_at(90 * SECOND), "");
    assert_eq!(piped.transition_at("a", 90 * SECOND), "");
}

#[test]
fn states_are_rendered_with_their_duration() {
    assert_eq!(
        state_line("downloading full snapshot", 208),
        "downloading full snapshot .............. 3m 28s"
    );
    assert_eq!(
        state_line("loading ledger", 12),
        "loading ledger ......................... 12s"
    );
    assert_eq!(state_line(&"x".repeat(60), 1), format!("{} ... 1s", "x".repeat(60)));
    assert_eq!(humanize_phase("loading_full_snapshot"), "loading full snapshot");
}

#[test]
fn phase_is_read_once() {
    let phase = delivery(
        r#"{"topic":"summary","key":"startup_progress","value":{"phase":"loading_ledger"}}"#,
    );
    assert_eq!(read_phase(&phase), PhaseReading::Found("loading ledger".to_owned()));
    let other = delivery(r#"{"topic":"summary","key":"cluster","value":"testnet"}"#);
    assert_eq!(read_phase(&other), PhaseReading::Open);
    assert_eq!(read_phase(&WatchEvent::Connected), PhaseReading::Open);
    let quiet = WatchEvent::ReadFailed(WebsocketFault::Io(IoKind::WouldBlock), String::new());
    assert_eq!(read_phase(&quiet), PhaseReading::Open);
    assert_eq!(read_phase(&WatchEvent::Closed), PhaseReading::Unavailable);
    let refused = WatchEvent::ConnectFailed(vec![], String::new());
    assert_eq!(read_phase(&refused), PhaseReading::Unavailable);
}

#[test]
fn first_reported_phase_is_the_one_that_is_read() {
    let phase = |name: &str| {
        delivery(&format!(
            r#"{{"topic":"summary","key":"startup_progress","value":{{"phase":"{name}"}}}}"#
        ))
    };
    let mut watch = PhaseWatch::open(5);
    assert_eq!(watch.step(&WatchEvent::Connected, 6), PhaseReading::Open);
    assert_eq!(watch.step(&WatchEvent::Control, 7), PhaseReading::Open);
    let first = PhaseReading::Found("loading ledger".to_owned());
    assert_eq!(watch.step(&phase("loading_ledger"), 8), first);
    assert_eq!(watch.step(&phase("running"), 9), first);
    assert_eq!(watch.step(&WatchEvent::Closed, u64::MAX), first);
}

#[test]
fn phase_has_to_be_reported_in_time() {
    let phase = || {
        delivery(r#"{"topic":"summary","key":"startup_progress","value":{"phase":"running"}}"#)
    };
    let mut watch = PhaseWatch::open(1_000);
    assert_eq!(watch.step(&WatchEvent::Connected, 1_000), PhaseReading::Open);
    let mut late = watch.clone();
    assert_eq!(
        watch.step(&phase(), 999 + PHASE_DEADLINE_NANOS),
        PhaseReading::Found("running".to_owned())
    );
    assert_eq!(late.step(&phase(), 1_000 + PHASE_DEADLINE_NANOS), PhaseReading::Unavailable);
    assert_eq!(late.step(&phase(), 1_001), PhaseReading::Unavailable);
    let mut closed = PhaseWatch::open(0);
    assert_eq!(closed.step(&WatchEvent::Closed, 1), PhaseReading::Unavailable);
}

#[test]
fn dumps_are_not_updated_in_place() {
    assert!(is_live(true, false));
    assert!(!is_live(true, true));
    assert!(!is_live(false, false));
}
