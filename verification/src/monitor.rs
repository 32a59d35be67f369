//! Watching the validator's startup through its GUI websocket.

use vstd::prelude::*;

use crate::logging::{FieldValueView, FieldView, Level, LogEvent, LogEventView};
use crate::process;
use crate::process::duplicate_text;
use crate::progress;
use crate::progress::{format_duration, in_place_line, leader, NANOS_PER_SECOND};
use crate::session;
use crate::session::{
    with_context, End, Failure, Halt, ReplyView, Request, RequestView, Run, Session, Transcript,
};
use crate::text;
use crate::text::{
    contains_char, join2, join3, join4, join5, number, replace_char, same_text, starts_with,
};

verus! {

/// The address that the GUI listens on unless configured otherwise.
pub const DEFAULT_GUI_ADDRESS: &'static str = "127.0.0.1";

/// The port that the GUI listens on unless configured otherwise.
pub const DEFAULT_GUI_PORT: u16 = 80;

/// The time between two attempts to reach the GUI, and between two refreshes, in milliseconds.
pub const RETRY_INTERVAL_MILLIS: u64 = 1_000;

/// How long a single reading of the startup phase may take, in nanoseconds.
pub const PHASE_DEADLINE_NANOS: u64 = 3_000_000_000;

/// Column that the dots behind a state's label reach.
pub const STATE_COLUMN: usize = 40;

/// The `[tiles.gui]` settings of a Firedancer configuration.
#[derive(Debug, Clone, PartialEq, Eq)]
pub struct GuiConfig {
    pub enabled: Option<bool>,
    pub gui_listen_address: Option<String>,
    pub gui_listen_port: Option<u16>,
}

/// What a [`GuiConfig`] says.
#[verifier::ext_equal]
pub struct GuiConfigView {
    pub enabled: Option<bool>,
    pub gui_listen_address: Option<Seq<char>>,
    pub gui_listen_port: Option<u16>,
}

impl View for GuiConfig {
    type V = GuiConfigView;

    open spec fn view(&self) -> GuiConfigView {
        GuiConfigView {
            enabled: self.enabled,
            gui_listen_address: process::maybe_text(self.gui_listen_address),
            gui_listen_port: self.gui_listen_port,
        }
    }
}

impl GuiConfig {
    /// Settings that say the same.
    pub fn duplicate(&self) -> (config: GuiConfig)
        ensures
            config@ == self@,
    {
        GuiConfig {
            enabled: self.enabled,
            gui_listen_address: duplicate_text(&self.gui_listen_address),
            gui_listen_port: self.gui_listen_port,
        }
    }
}

/// Where the GUI can be reached.
#[derive(Debug, Clone, PartialEq, Eq)]
pub struct GuiEndpoint {
    pub enabled: bool,
    pub address: String,
    pub port: u16,
}

/// What a [`GuiEndpoint`] says.
#[verifier::ext_equal]
pub struct GuiEndpointView {
    pub enabled: bool,
    pub address: Seq<char>,
    pub port: u16,
}

impl View for GuiEndpoint {
    type V = GuiEndpointView;

    open spec fn view(&self) -> GuiEndpointView {
        GuiEndpointView { enabled: self.enabled, address: self.address@, port: self.port }
    }
}

/// The address at which a listener can be reached: a loopback address for a wildcard.
pub open spec fn reachable_address(listen_address: Seq<char>) -> Seq<char> {
    if listen_address == ""@ || listen_address == "0.0.0.0"@ {
        "127.0.0.1"@
    } else if listen_address == "::"@ || listen_address == "[::]"@ {
        "::1"@
    } else {
        listen_address
    }
}

/// Rewrites wildcard bind addresses to a loopback address a client can connect to.
pub fn connect_address(listen_address: &str) -> (address: String)
    ensures
        address@ == reachable_address(listen_address@),
{
    if same_text(listen_address, "") || same_text(listen_address, "0.0.0.0") {
        DEFAULT_GUI_ADDRESS.to_owned()
    } else if same_text(listen_address, "::") || same_text(listen_address, "[::]") {
        "::1".to_owned()
    } else {
        listen_address.to_owned()
    }
}

/// The websocket URL of the GUI at an address; an IPv6 address stands in brackets.
pub open spec fn url_text(address: Seq<char>, port: u16) -> Seq<char> {
    let host = if address.contains(':') && !"["@.is_prefix_of(address) {
        "["@ + address + "]"@
    } else {
        address
    };
    "ws://"@ + host + ":"@ + text::decimal(port as nat) + "/websocket"@
}

/// Forms the websocket URL of the GUI at an address.
pub fn websocket_url(address: &str, port: u16) -> (url: String)
    ensures
        url@ == url_text(address@, port),
{
    let host: String = if contains_char(address, ':') && !starts_with(address, "[") {
        join3("[", address, "]")
    } else {
        address.to_owned()
    };
    join5("ws://", host.as_str(), ":", number(port as u64).as_str(), "/websocket")
}

/// The endpoint that GUI settings describe, with Firedancer's defaults for what they leave out.
pub open spec fn endpoint_of(config: GuiConfigView) -> GuiEndpointView {
    GuiEndpointView {
        enabled: config.enabled.unwrap_or(true),
        address: reachable_address(config.gui_listen_address.unwrap_or("127.0.0.1"@)),
        port: config.gui_listen_port.unwrap_or(80u16),
    }
}

impl GuiEndpoint {
    /// The endpoint that GUI settings describe.
    pub fn from_config(config: &GuiConfig) -> (endpoint: GuiEndpoint)
        ensures
            endpoint@ == endpoint_of(config@),
    {
        GuiEndpoint {
            enabled: match config.enabled {
                Some(enabled) => enabled,
                None => true,
            },
            address: match &config.gui_listen_address {
                Some(address) => connect_address(address.as_str()),
                None => connect_address(DEFAULT_GUI_ADDRESS),
            },
            port: match config.gui_listen_port {
                Some(port) => port,
                None => DEFAULT_GUI_PORT,
            },
        }
    }

    /// The websocket URL of this endpoint.
    pub fn websocket_url(&self) -> (url: String)
        ensures
            url@ == url_text(self.address@, self.port),
    {
        websocket_url(self.address.as_str(), self.port)
    }
}

/// The message for a configuration that switches the GUI off.
pub open spec fn disabled_message(config_path: Seq<char>) -> Seq<char> {
    "Firedancer GUI is disabled in "@ + config_path + " ([tiles.gui].enabled = false)"@
}

/// Reading the GUI's URL from a configuration file.
pub open spec fn url_run(t: Transcript, config_path: Seq<char>) -> Run<Seq<char>> {
    let read = t.text(RequestView::ReadText(config_path)).attempting(
        "could not read active Firedancer config "@ + config_path,
    );
    if !read.done() {
        read.stop()
    } else {
        let parsed = read.after.gui(read.value()).attempting(
            "could not parse Firedancer GUI settings from "@ + config_path,
        );
        if !parsed.done() {
            parsed.stop()
        } else {
            let endpoint = endpoint_of(parsed.value());
            if endpoint.enabled {
                parsed.with(url_text(endpoint.address, endpoint.port))
            } else {
                Run { after: parsed.after, end: End::Failed(disabled_message(config_path)) }
            }
        }
    }
}

/// Reads the GUI listen address from a Firedancer TOML config.
pub fn websocket_url_from_config(session: &mut Session, config_path: &str) -> (url: Result<
    String,
    Halt,
>)
    ensures
        final(session)@ == url_run(old(session)@, config_path@).after,
        url_run(old(session)@, config_path@).end == (match url {
            Ok(u) => End::Done(u@),
            Err(halt) => halt.end(),
        }),
{
    let text: String = match session.text(Request::ReadText(config_path.to_owned())) {
        Ok(text) => text,
        Err(halt) => {
            let attempt: String = join2("could not read active Firedancer config ", config_path);
            return Err(halt.attempting(attempt.as_str()));
        },
    };
    let config: GuiConfig = match session.gui(text.as_str()) {
        Ok(config) => config,
        Err(halt) => {
            let attempt: String = join2(
                "could not parse Firedancer GUI settings from ",
                config_path,
            );
            return Err(halt.attempting(attempt.as_str()));
        },
    };
    let endpoint: GuiEndpoint = GuiEndpoint::from_config(&config);
    if !endpoint.enabled {
        let message: String = join3(
            "Firedancer GUI is disabled in ",
            config_path,
            " ([tiles.gui].enabled = false)",
        );
        return Err(Halt::Failed(Failure { message }));
    }
    Ok(endpoint.websocket_url())
}

/// Checking that a configuration leaves the GUI on.
pub open spec fn validate_run(t: Transcript, config_path: Seq<char>) -> Run<()> {
    url_run(t, config_path).with(())
}

/// Checks that the GUI, which readiness is read from, can be found and is enabled.
pub fn validate_config(session: &mut Session, config_path: &str) -> (checked: Result<(), Halt>)
    ensures
        final(session)@ == validate_run(old(session)@, config_path@).after,
        validate_run(old(session)@, config_path@).end == (match checked {
            Ok(_) => End::Done(()),
            Err(halt) => halt.end(),
        }),
{
    let _url: String = websocket_url_from_config(session, config_path)?;
    Ok(())
}

/// Waiting for the validator to report that it is running.
pub open spec fn wait_run(t: Transcript, config_path: Seq<char>) -> Run<()> {
    let found = url_run(t, config_path);
    if !found.done() {
        found.stop()
    } else {
        found.after.perform(RequestView::AwaitRunning(found.value()))
    }
}

/// Waits until the validator reports that it is running.
pub fn wait_until_running(session: &mut Session, config_path: &str) -> (waited: Result<(), Halt>)
    ensures
        final(session)@ == wait_run(old(session)@, config_path@).after,
        wait_run(old(session)@, config_path@).end == (match waited {
            Ok(_) => End::Done(()),
            Err(halt) => halt.end(),
        }),
{
    let url: String = websocket_url_from_config(session, config_path)?;
    session.perform(Request::AwaitRunning(url))
}

/// What is logged before the GUI is watched.
pub open spec fn watch_event(url: Seq<char>, all: bool) -> LogEventView {
    LogEventView::new(
        Level::Info,
        "val::monitor"@,
        "connecting to Firedancer GUI websocket"@,
    ).shown("url"@, url).flag("all"@, all)
}

/// Watching the GUI at a given URL, or at the one that the configuration names.
pub open spec fn monitor_run(
    t: Transcript,
    config_path: Seq<char>,
    url_override: Option<Seq<char>>,
    all: bool,
) -> Run<()> {
    let found = match url_override {
        Some(url) => Run { after: t, end: End::Done(url) },
        None => url_run(t, config_path),
    };
    if !found.done() {
        found.stop()
    } else {
        let begun = found.after.note(watch_event(found.value(), all));
        if !begun.done() {
            begun
        } else {
            begun.after.perform(RequestView::Watch(found.value(), all))
        }
    }
}

/// Connects to the Firedancer GUI websocket and prints boot/startup state.
pub fn run(
    session: &mut Session,
    config_path: &str,
    url_override: &Option<String>,
    all: bool,
) -> (watched: Result<(), Halt>)
    ensures
        final(session)@ == monitor_run(
            old(session)@,
            config_path@,
            process::maybe_text(*url_override),
            all,
        ).after,
        monitor_run(
            old(session)@,
            config_path@,
            process::maybe_text(*url_override),
            all,
        ).end == (match watched {
            Ok(_) => End::Done(()),
            Err(halt) => halt.end(),
        }),
{
    let url: String = match url_override {
        Some(url) => url.clone(),
        None => websocket_url_from_config(session, config_path)?,
    };
    session.note(
        LogEvent::new(
            Level::Info,
            "val::monitor",
            "connecting to Firedancer GUI websocket",
        ).shown("url", url.as_str()).flag("all", all),
    )?;
    session.perform(Request::Watch(url, all))
}

/// A phase as it is shown: underscores become spaces.
pub open spec fn phase_text(phase: Seq<char>) -> Seq<char> {
    text::char_replaced(phase, '_', ' ')
}

/// Makes a phase readable.
pub fn humanize_phase(phase: &str) -> (shown: String)
    ensures
        shown@ == phase_text(phase@),
{
    replace_char(phase, '_', ' ')
}

/// Whether a message carries the startup progress.
pub open spec fn progress_key(topic: Seq<char>, key: Seq<char>) -> bool {
    topic == "summary"@ && (key == "startup_progress"@ || key == "boot_progress"@)
}

/// Returns whether a message carries the startup progress.
pub fn is_progress_key(topic: &str, key: &str) -> (found: bool)
    ensures
        found == progress_key(topic@, key@),
{
    same_text(topic, "summary") && (same_text(key, "startup_progress") || same_text(
        key,
        "boot_progress",
    ))
}

/// A state's label, dots up to the state column, and how long it has lasted.
pub open spec fn state_text(label: Seq<char>, elapsed_seconds: u64) -> Seq<char> {
    label + " "@ + progress::dots(progress::dot_count(label, 1, STATE_COLUMN as nat)) + " "@
        + progress::duration_text(elapsed_seconds)
}

/// Renders a state with how long it has lasted.
pub fn state_line(label: &str, elapsed_seconds: u64) -> (line: String)
    ensures
        line@ == state_text(label@, elapsed_seconds),
{
    join5(
        label,
        " ",
        leader(label, 1, STATE_COLUMN).as_str(),
        " ",
        format_duration(elapsed_seconds).as_str(),
    )
}

/// The whole seconds between two readings of the clock.
pub open spec fn seconds_between(started: u64, now: u64) -> u64 {
    if now >= started {
        ((now - started) / 1_000_000_000) as u64
    } else {
        0
    }
}

/// Counts the whole seconds between two readings of the clock.
fn seconds_since(started: u64, now: u64) -> (seconds: u64)
    ensures
        seconds == seconds_between(started, now),
{
    if now >= started {
        (now - started) / NANOS_PER_SECOND
    } else {
        0
    }
}

/// The state that is being shown, and whether its line is refreshed in place.
#[derive(Debug, Clone, PartialEq, Eq)]
pub struct CurrentState {
    pub active: Option<ActiveState>,
    pub live: bool,
}

/// A state that is being shown.
#[derive(Debug, Clone, PartialEq, Eq)]
pub struct ActiveState {
    pub label: String,
    /// The clock's reading when the state was entered.
    pub started: u64,
    /// The elapsed second that the line shows.
    pub rendered_second: u64,
}

/// What an [`ActiveState`] says.
#[verifier::ext_equal]
pub struct ActiveStateView {
    pub label: Seq<char>,
    pub started: u64,
    pub rendered_second: u64,
}

/// What a [`CurrentState`] says.
#[verifier::ext_equal]
pub struct CurrentStateView {
    pub active: Option<ActiveStateView>,
    pub live: bool,
}

impl View for ActiveState {
    type V = ActiveStateView;

    open spec fn view(&self) -> ActiveStateView {
        ActiveStateView {
            label: self.label@,
            started: self.started,
            rendered_second: self.rendered_second,
        }
    }
}

impl View for CurrentState {
    type V = CurrentStateView;

    open spec fn view(&self) -> CurrentStateView {
        CurrentStateView {
            active: match self.active {
                Some(active) => Some(active@),
                None => None,
            },
            live: self.live,
        }
    }
}

/// A state after a change, and what the change writes.
#[verifier::ext_equal]
pub struct Shown {
    pub state: CurrentStateView,
    pub written: Seq<char>,
}

/// Refreshing the line of the active state in place.
pub open spec fn rendered(state: CurrentStateView, now: u64) -> Shown {
    match state.active {
        None => Shown { state, written: Seq::empty() },
        Some(active) => {
            let elapsed = seconds_between(active.started, now);
            Shown {
                state: CurrentStateView {
                    active: Some(ActiveStateView { rendered_second: elapsed, ..active }),
                    ..state
                },
                written: progress::in_place(state_text(active.label, elapsed)),
            }
        },
    }
}

/// Time passing: a live line is refreshed when its second has changed.
pub open spec fn ticked(state: CurrentStateView, now: u64) -> Shown {
    match state.active {
        None => Shown { state, written: Seq::empty() },
        Some(active) => if !state.live || seconds_between(active.started, now)
            == active.rendered_second {
            Shown { state, written: Seq::empty() }
        } else {
            rendered(state, now)
        },
    }
}

/// Entering a state: the completed live line is refreshed and ended, and the new one starts at
/// zero. Entering the active state again only lets time pass.
pub open spec fn transitioned(state: CurrentStateView, label: Seq<char>, now: u64) -> Shown {
    if state.active matches Some(active) && active.label == label {
        ticked(state, now)
    } else {
        let completed = if state.live && state.active is Some {
            rendered(state, now).written + "\n"@
        } else {
            Seq::empty()
        };
        let entered = if state.live {
            progress::in_place(state_text(label, 0))
        } else {
            state_text(label, 0) + "\n"@
        };
        Shown {
            state: CurrentStateView {
                active: Some(ActiveStateView { label, started: now, rendered_second: 0 }),
                live: state.live,
            },
            written: completed + entered,
        }
    }
}

impl CurrentState {
    /// No state is shown yet.
    pub fn new(live: bool) -> (state: CurrentState)
        ensures
            state@ == (CurrentStateView { active: None, live }),
    {
        CurrentState { active: None, live }
    }

    /// Enters a state and returns what has to be written.
    pub fn transition_at(&mut self, label: &str, now: u64) -> (written: String)
        ensures
            final(self)@ == transitioned(old(self)@, label@, now).state,
            written@ == transitioned(old(self)@, label@, now).written,
    {
        let again: bool = match &self.active {
            Some(active) => same_text(active.label.as_str(), label),
            None => false,
        };
        if again {
            return self.tick_at(now);
        }
        let completed: String = if self.live && self.active.is_some() {
            join2(self.render_at(now).as_str(), "\n")
        } else {
            String::new()
        };
        self.active = Some(
            ActiveState { label: label.to_owned(), started: now, rendered_second: 0 },
        );
        let line: String = state_line(label, 0);
        let entered: String = if self.live {
            in_place_line(line.as_str())
        } else {
            join2(line.as_str(), "\n")
        };
        join2(completed.as_str(), entered.as_str())
    }

    /// Lets time pass and returns what has to be written.
    pub fn tick_at(&mut self, now: u64) -> (written: String)
        ensures
            final(self)@ == ticked(old(self)@, now).state,
            written@ == ticked(old(self)@, now).written,
    {
        let due: bool = match &self.active {
            Some(active) => self.live && seconds_since(active.started, now)
                != active.rendered_second,
            None => false,
        };
        if due {
            self.render_at(now)
        } else {
            String::new()
        }
    }

    /// Refreshes the active state's line and returns what has to be written.
    pub fn render_at(&mut self, now: u64) -> (written: String)
        ensures
            final(self)@ == rendered(old(self)@, now).state,
            written@ == rendered(old(self)@, now).written,
    {
        match self.active.take() {
            None => String::new(),
            Some(active) => {
                let elapsed: u64 = seconds_since(active.started, now);
                let line: String = state_line(active.label.as_str(), elapsed);
                self.active = Some(
                    ActiveState {
                        label: active.label,
                        started: active.started,
                        rendered_second: elapsed,
                    },
                );
                in_place_line(line.as_str())
            },
        }
    }
}

/// The kinds of I/O error that a watch tells apart.
#[derive(Debug, Clone, Copy, PartialEq, Eq, Structural)]
pub enum IoKind {
    ConnectionRefused,
    ConnectionReset,
    ConnectionAborted,
    BrokenPipe,
    UnexpectedEof,
    TimedOut,
    NotConnected,
    AddrNotAvailable,
    WouldBlock,
    Other,
}

/// The kinds of websocket error that a watch tells apart.
#[derive(Debug, Clone, Copy, PartialEq, Eq, Structural)]
pub enum WebsocketFault {
    ConnectionClosed,
    AlreadyClosed,
    Io(IoKind),
    Http,
    HttpFormat,
    Protocol,
    UnableToConnect,
    Other,
}

/// One link in a chain of causes.
#[derive(Debug, Clone, Copy, PartialEq, Eq, Structural)]
pub enum Cause {
    Websocket(WebsocketFault),
    Io(IoKind),
    Other,
}

/// Whether an I/O error means that the GUI cannot be reached now: every kind but [`IoKind::Other`].
pub open spec fn io_unavailable(kind: IoKind) -> bool {
    kind != IoKind::Other
}

/// Whether a websocket error means that the GUI cannot be reached now.
pub open spec fn websocket_unavailable(fault: WebsocketFault) -> bool {
    match fault {
        WebsocketFault::Io(kind) => io_unavailable(kind),
        WebsocketFault::Other => false,
        _ => true,
    }
}

/// Whether a cause means that the GUI cannot be reached now.
pub open spec fn cause_unavailable(cause: Cause) -> bool {
    match cause {
        Cause::Websocket(fault) => websocket_unavailable(fault),
        Cause::Io(kind) => io_unavailable(kind),
        Cause::Other => false,
    }
}

/// Whether some link of a chain of causes means that the GUI cannot be reached now.
pub open spec fn chain_unavailable(chain: Seq<Cause>) -> bool {
    exists|i: int| 0 <= i < chain.len() && cause_unavailable(#[trigger] chain[i])
}

/// Returns whether an I/O error means that the GUI cannot be reached now.
pub fn is_unavailable_io(kind: IoKind) -> (found: bool)
    ensures
        found == io_unavailable(kind),
{
    match kind {
        IoKind::ConnectionRefused
        | IoKind::ConnectionReset
        | IoKind::ConnectionAborted
        | IoKind::BrokenPipe
        | IoKind::UnexpectedEof
        | IoKind::TimedOut
        | IoKind::NotConnected
        | IoKind::AddrNotAvailable
        | IoKind::WouldBlock => true,
        IoKind::Other => false,
    }
}

/// Returns whether a websocket error means that the GUI cannot be reached now.
pub fn is_unavailable_websocket(fault: WebsocketFault) -> (found: bool)
    ensures
        found == websocket_unavailable(fault),
{
    match fault {
        WebsocketFault::ConnectionClosed | WebsocketFault::AlreadyClosed => true,
        WebsocketFault::Io(kind) => is_unavailable_io(kind),
        WebsocketFault::Http | WebsocketFault::HttpFormat | WebsocketFault::Protocol => true,
        WebsocketFault::UnableToConnect => true,
        WebsocketFault::Other => false,
    }
}

/// Returns whether some link of a chain of causes means that the GUI cannot be reached now.
pub fn is_unavailable(chain: &Vec<Cause>) -> (found: bool)
    ensures
        found == chain_unavailable(chain@),
{
    let mut at: usize = 0;
    while at < chain.len()
        invariant
            at <= chain@.len(),
            forall|i: int| 0 <= i < at ==> !cause_unavailable(#[trigger] chain@[i]),
        decreases chain.len() - at,
    {
        let found: bool = match chain[at] {
            Cause::Websocket(fault) => is_unavailable_websocket(fault),
            Cause::Io(kind) => is_unavailable_io(kind),
            Cause::Other => false,
        };
        if found {
            assert(cause_unavailable(chain@[at as int]));
            return true;
        }
        at = at + 1;
    }
    false
}

/// Whether reading timed out so that the line can be refreshed.
pub open spec fn refresh_timeout(kind: IoKind) -> bool {
    kind == IoKind::WouldBlock || kind == IoKind::TimedOut
}

/// Returns whether reading timed out so that the line can be refreshed.
pub fn is_refresh_timeout(kind: IoKind) -> (found: bool)
    ensures
        found == refresh_timeout(kind),
{
    match kind {
        IoKind::WouldBlock | IoKind::TimedOut => true,
        _ => false,
    }
}

/// A message of the GUI.
#[derive(Debug, Clone, PartialEq, Eq)]
pub struct GuiMessage {
    pub topic: String,
    pub key: String,
    /// The value's `phase`, if the value is an object with a text under that name.
    pub phase: Option<String>,
    /// The value as indented JSON.
    pub value: String,
}

/// What a [`GuiMessage`] says.
#[verifier::ext_equal]
pub struct GuiMessageView {
    pub topic: Seq<char>,
    pub key: Seq<char>,
    pub phase: Option<Seq<char>>,
    pub value: Seq<char>,
}

impl View for GuiMessage {
    type V = GuiMessageView;

    open spec fn view(&self) -> GuiMessageView {
        GuiMessageView {
            topic: self.topic@,
            key: self.key@,
            phase: process::maybe_text(self.phase),
            value: self.value@,
        }
    }
}

/// What a websocket delivered: a text, with the message in it if it holds one.
#[derive(Debug, Clone, PartialEq, Eq)]
pub struct Delivery {
    pub payload: String,
    pub message: Option<GuiMessage>,
}

/// What a [`Delivery`] says.
#[verifier::ext_equal]
pub struct DeliveryView {
    pub payload: Seq<char>,
    pub message: Option<GuiMessageView>,
}

impl View for Delivery {
    type V = DeliveryView;

    open spec fn view(&self) -> DeliveryView {
        DeliveryView {
            payload: self.payload@,
            message: match self.message {
                Some(message) => Some(message@),
                None => None,
            },
        }
    }
}

/// The startup phase that a delivery reports, if it does.
pub open spec fn reported_phase(delivery: DeliveryView) -> Option<Seq<char>> {
    match delivery.message {
        Some(message) => if progress_key(message.topic, message.key) {
            message.phase
        } else {
            None
        },
        None => None,
    }
}

impl Delivery {
    /// The startup phase that this reports, if it does.
    pub fn startup_phase(&self) -> (phase: Option<&String>)
        ensures
            phase is Some <==> reported_phase(self@) is Some,
            phase matches Some(p) ==> reported_phase(self@) == Some(p@),
    {
        match &self.message {
            Some(message) => {
                if is_progress_key(message.topic.as_str(), message.key.as_str()) {
                    match &message.phase {
                        Some(phase) => Some(phase),
                        None => None,
                    }
                } else {
                    None
                }
            },
            None => None,
        }
    }
}

/// What a delivery is dumped as; the stamp says when it came.
pub open spec fn dump_text(delivery: DeliveryView, stamp: Seq<char>) -> Seq<char> {
    match delivery.message {
        None => stamp + "  <unparsed>\n"@ + delivery.payload + "\n"@,
        Some(message) => stamp + "  "@ + message.topic + "."@ + message.key + "\n"@ + message.value
            + "\n"@,
    }
}

/// Renders a delivery with nothing left out.
pub fn dump(delivery: &Delivery, stamp: &str) -> (written: String)
    ensures
        written@ == dump_text(delivery@, stamp@),
{
    match &delivery.message {
        None => join4(stamp, "  <unparsed>\n", delivery.payload.as_str(), "\n"),
        Some(message) => {
            let name: String = join5(
                stamp,
                "  ",
                message.topic.as_str(),
                ".",
                message.key.as_str(),
            );
            join4(name.as_str(), "\n", message.value.as_str(), "\n")
        },
    }
}

/// What a delivery does to the state: a startup phase is entered; anything else lets time pass.
/// When everything is dumped, the state stays as it is.
pub open spec fn handled(
    state: CurrentStateView,
    delivery: DeliveryView,
    all: bool,
    now: u64,
    stamp: Seq<char>,
) -> Shown {
    if all {
        Shown { state, written: dump_text(delivery, stamp) }
    } else {
        match reported_phase(delivery) {
            Some(phase) => transitioned(state, phase_text(phase), now),
            None => ticked(state, now),
        }
    }
}

/// Handles a text that the websocket delivered; returns what has to be written.
pub fn handle_text(
    delivery: &Delivery,
    all: bool,
    now: u64,
    stamp: &str,
    state: &mut CurrentState,
) -> (written: String)
    ensures
        final(state)@ == handled(old(state)@, delivery@, all, now, stamp@).state,
        written@ == handled(old(state)@, delivery@, all, now, stamp@).written,
{
    if all {
        return dump(delivery, stamp);
    }
    match delivery.startup_phase() {
        Some(phase) => {
            let label: String = humanize_phase(phase.as_str());
            state.transition_at(label.as_str(), now)
        },
        None => state.tick_at(now),
    }
}

/// What happened to a watch.
#[derive(Debug, Clone, PartialEq, Eq)]
pub enum WatchEvent {
    /// The websocket is open.
    Connected,
    /// The websocket could not be opened: the causes, and their text.
    ConnectFailed(Vec<Cause>, String),
    /// The open websocket refused the refresh interval: the causes, and their text.
    IntervalRefused(Vec<Cause>, String),
    /// A text arrived.
    Text(Delivery),
    /// A binary frame arrived.
    Binary,
    /// A frame arrived that carries no message.
    Control,
    /// The other side closed the websocket.
    Closed,
    /// Reading failed: the error, and its text.
    ReadFailed(WebsocketFault, String),
    /// The retry interval has passed.
    Slept,
}

/// What a [`WatchEvent`] says.
#[verifier::ext_equal]
pub enum WatchEventView {
    Connected,
    ConnectFailed(Seq<Cause>, Seq<char>),
    IntervalRefused(Seq<Cause>, Seq<char>),
    Text(DeliveryView),
    Binary,
    Control,
    Closed,
    ReadFailed(WebsocketFault, Seq<char>),
    Slept,
}

impl View for WatchEvent {
    type V = WatchEventView;

    open spec fn view(&self) -> WatchEventView {
        match *self {
            WatchEvent::Connected => WatchEventView::Connected,
            WatchEvent::ConnectFailed(chain, text) => WatchEventView::ConnectFailed(chain@, text@),
            WatchEvent::IntervalRefused(chain, text) => WatchEventView::IntervalRefused(
                chain@,
                text@,
            ),
            WatchEvent::Text(delivery) => WatchEventView::Text(delivery@),
            WatchEvent::Binary => WatchEventView::Binary,
            WatchEvent::Control => WatchEventView::Control,
            WatchEvent::Closed => WatchEventView::Closed,
            WatchEvent::ReadFailed(fault, text) => WatchEventView::ReadFailed(fault, text@),
            WatchEvent::Slept => WatchEventView::Slept,
        }
    }
}

/// What a watch does next.
#[derive(Debug, Clone, PartialEq, Eq)]
pub enum WatchStep {
    /// Open the websocket.
    Connect,
    /// Read the next message from the open websocket.
    Read,
    /// Drop the websocket, if it is open, and wait for the retry interval.
    Sleep,
    /// The watch has ended.
    Finish,
    /// The watch cannot go on.
    Fail(Failure),
}

/// What a [`WatchStep`] says.
#[verifier::ext_equal]
pub enum WatchStepView {
    Connect,
    Read,
    Sleep,
    Finish,
    Fail(Seq<char>),
}

impl View for WatchStep {
    type V = WatchStepView;

    open spec fn view(&self) -> WatchStepView {
        match *self {
            WatchStep::Connect => WatchStepView::Connect,
            WatchStep::Read => WatchStepView::Read,
            WatchStep::Sleep => WatchStepView::Sleep,
            WatchStep::Finish => WatchStepView::Finish,
            WatchStep::Fail(failure) => WatchStepView::Fail(failure@),
        }
    }
}

/// How a watch goes.
#[derive(Debug, Clone, PartialEq, Eq)]
pub struct WatchPlan {
    pub url: String,
    /// Dump every message.
    pub all: bool,
    /// End as soon as the validator reports that it is running.
    pub until_running: bool,
    /// End after so many closed connections.
    pub max_sessions: Option<usize>,
}

/// What a [`WatchPlan`] says.
#[verifier::ext_equal]
pub struct WatchPlanView {
    pub url: Seq<char>,
    pub all: bool,
    pub until_running: bool,
    pub max_sessions: Option<usize>,
}

impl View for WatchPlan {
    type V = WatchPlanView;

    open spec fn view(&self) -> WatchPlanView {
        WatchPlanView {
            url: self.url@,
            all: self.all,
            until_running: self.until_running,
            max_sessions: self.max_sessions,
        }
    }
}

/// How far a watch has come.
#[derive(Debug, Clone, PartialEq, Eq)]
pub struct Watch {
    pub plan: WatchPlan,
    /// Whether the current outage has been dumped already.
    pub unavailable: bool,
    /// How many connections have been closed.
    pub sessions: usize,
    pub state: CurrentState,
}

/// What a [`Watch`] says.
#[verifier::ext_equal]
pub struct WatchView {
    pub plan: WatchPlanView,
    pub unavailable: bool,
    pub sessions: usize,
    pub state: CurrentStateView,
}

impl View for Watch {
    type V = WatchView;

    open spec fn view(&self) -> WatchView {
        WatchView {
            plan: self.plan@,
            unavailable: self.unavailable,
            sessions: self.sessions,
            state: self.state@,
        }
    }
}

/// A watch after a step, what the step writes, and what comes next.
#[verifier::ext_equal]
pub struct Watched {
    pub watch: WatchView,
    pub written: Seq<char>,
    pub next: WatchStepView,
}

/// A step that shows a state.
pub open spec fn shown_step(watch: WatchView, shown: Shown, next: WatchStepView) -> Watched {
    Watched {
        watch: WatchView { state: shown.state, ..watch },
        written: shown.written,
        next,
    }
}

/// Finding that the GUI cannot be reached: a dump says so once for each outage, and otherwise it
/// is a state of its own. The watch then waits and tries again.
pub open spec fn outage(watch: WatchView, now: u64, stamp: Seq<char>) -> Watched {
    if !watch.plan.all {
        shown_step(
            watch,
            transitioned(watch.state, "service not available; retrying"@, now),
            WatchStepView::Sleep,
        )
    } else if !watch.unavailable {
        Watched {
            watch: WatchView { unavailable: true, ..watch },
            written: stamp + "  service not available; retrying\n"@,
            next: WatchStepView::Sleep,
        }
    } else {
        Watched { watch, written: Seq::empty(), next: WatchStepView::Sleep }
    }
}

/// A connection that ended by itself: the watch ends if that was the last one it is for.
pub open spec fn session_end(watch: WatchView, now: u64, stamp: Seq<char>) -> Watched {
    let counted = WatchView {
        sessions: if watch.sessions < usize::MAX {
            (watch.sessions + 1) as usize
        } else {
            usize::MAX
        },
        ..watch
    };
    if watch.plan.max_sessions matches Some(most) && counted.sessions >= most {
        Watched { watch: counted, written: Seq::empty(), next: WatchStepView::Finish }
    } else {
        outage(counted, now, stamp)
    }
}

/// An attempt that failed: an outage if some cause says so, else the end of the watch.
pub open spec fn failed_attempt(
    watch: WatchView,
    chain: Seq<Cause>,
    message: Seq<char>,
    now: u64,
    stamp: Seq<char>,
) -> Watched {
    if chain_unavailable(chain) {
        outage(watch, now, stamp)
    } else {
        Watched { watch, written: Seq::empty(), next: WatchStepView::Fail(message) }
    }
}

/// One step of a watch.
pub open spec fn stepped(
    watch: WatchView,
    event: WatchEventView,
    now: u64,
    stamp: Seq<char>,
) -> Watched {
    match event {
        WatchEventView::Connected => {
            let reached = WatchView { unavailable: false, ..watch };
            if watch.plan.all {
                Watched {
                    watch: reached,
                    written: stamp + "  connected  "@ + watch.plan.url + "\n"@,
                    next: WatchStepView::Read,
                }
            } else {
                shown_step(
                    reached,
                    transitioned(watch.state, "connected; waiting for validator state"@, now),
                    WatchStepView::Read,
                )
            }
        },
        WatchEventView::ConnectFailed(chain, text) => failed_attempt(
            watch,
            chain,
            session::in_context(
                "could not connect to Firedancer GUI at "@ + watch.plan.url,
                text,
            ),
            now,
            stamp,
        ),
        WatchEventView::IntervalRefused(chain, text) => failed_attempt(
            watch,
            chain,
            session::in_context("could not configure monitor refresh interval"@, text),
            now,
            stamp,
        ),
        WatchEventView::Text(delivery) => {
            let shown = handled(watch.state, delivery, watch.plan.all, now, stamp);
            if watch.plan.until_running && reported_phase(delivery) == Some("running"@) {
                Watched {
                    watch: WatchView { state: shown.state, ..watch },
                    written: if watch.state.live && !watch.plan.all {
                        shown.written + "\n"@
                    } else {
                        shown.written
                    },
                    next: WatchStepView::Finish,
                }
            } else {
                shown_step(watch, shown, WatchStepView::Read)
            }
        },
        WatchEventView::Binary => Watched {
            watch,
            written: if watch.plan.all {
                stamp + "  <binary websocket frame ignored>\n"@
            } else {
                Seq::empty()
            },
            next: WatchStepView::Read,
        },
        WatchEventView::Control => shown_step(
            watch,
            ticked(watch.state, now),
            WatchStepView::Read,
        ),
        WatchEventView::Closed => session_end(watch, now, stamp),
        WatchEventView::ReadFailed(fault, text) => if fault matches WebsocketFault::Io(kind)
            && refresh_timeout(kind) {
            shown_step(watch, ticked(watch.state, now), WatchStepView::Read)
        } else if websocket_unavailable(fault) {
            session_end(watch, now, stamp)
        } else {
            Watched {
                watch,
                written: Seq::empty(),
                next: WatchStepView::Fail(
                    session::in_context(
                        "Firedancer GUI websocket "@ + watch.plan.url + " closed"@,
                        text,
                    ),
                ),
            }
        },
        WatchEventView::Slept => shown_step(
            watch,
            ticked(watch.state, now),
            WatchStepView::Connect,
        ),
    }
}

/// A watch before its first connection.
pub open spec fn opened(plan: WatchPlanView, live: bool) -> Watched {
    Watched {
        watch: WatchView {
            plan,
            unavailable: false,
            sessions: 0,
            state: CurrentStateView { active: None, live },
        },
        written: if plan.all {
            "dumping every websocket message; Ctrl+C to stop\n"@
        } else {
            Seq::empty()
        },
        next: WatchStepView::Connect,
    }
}

impl Watch {
    /// Opens a watch; returns it with what has to be written before the first connection.
    pub fn open(plan: WatchPlan, live: bool) -> (opening: (Watch, String))
        ensures
            opening.0@ == opened(plan@, live).watch,
            opening.1@ == opened(plan@, live).written,
    {
        let written: String = if plan.all {
            "dumping every websocket message; Ctrl+C to stop\n".to_owned()
        } else {
            String::new()
        };
        (
            Watch { plan, unavailable: false, sessions: 0, state: CurrentState::new(live) },
            written,
        )
    }

    /// Announces that the GUI cannot be reached; returns what has to be written.
    pub fn announce_unavailable(&mut self, now: u64, stamp: &str) -> (written: String)
        ensures
            final(self)@ == outage(old(self)@, now, stamp@).watch,
            written@ == outage(old(self)@, now, stamp@).written,
    {
        if !self.plan.all {
            self.state.transition_at("service not available; retrying", now)
        } else if !self.unavailable {
            self.unavailable = true;
            join2(stamp, "  service not available; retrying\n")
        } else {
            String::new()
        }
    }

    /// Ends a connection that ended by itself.
    fn end_session(&mut self, now: u64, stamp: &str) -> (step: (String, WatchStep))
        ensures
            final(self)@ == session_end(old(self)@, now, stamp@).watch,
            step.0@ == session_end(old(self)@, now, stamp@).written,
            step.1@ == session_end(old(self)@, now, stamp@).next,
    {
        self.sessions = self.sessions.saturating_add(1);
        let last: bool = match self.plan.max_sessions {
            Some(most) => self.sessions >= most,
            None => false,
        };
        if last {
            (String::new(), WatchStep::Finish)
        } else {
            (self.announce_unavailable(now, stamp), WatchStep::Sleep)
        }
    }

    /// Ends an attempt that failed.
    fn fail_attempt(
        &mut self,
        chain: &Vec<Cause>,
        failure: Failure,
        now: u64,
        stamp: &str,
    ) -> (step: (String, WatchStep))
        ensures
            final(self)@ == failed_attempt(old(self)@, chain@, failure@, now, stamp@).watch,
            step.0@ == failed_attempt(old(self)@, chain@, failure@, now, stamp@).written,
            step.1@ == failed_attempt(old(self)@, chain@, failure@, now, stamp@).next,
    {
        if is_unavailable(chain) {
            (self.announce_unavailable(now, stamp), WatchStep::Sleep)
        } else {
            (String::new(), WatchStep::Fail(failure))
        }
    }

    /// Takes one event at a reading of the clock; returns what has to be written and what comes
    /// next. The stamp says when the event came and begins every dumped line.
    pub fn step(&mut self, event: WatchEvent, now: u64, stamp: &str) -> (step: (String, WatchStep))
        ensures
            final(self)@ == stepped(old(self)@, event@, now, stamp@).watch,
            step.0@ == stepped(old(self)@, event@, now, stamp@).written,
            step.1@ == stepped(old(self)@, event@, now, stamp@).next,
    {
        match event {
            WatchEvent::Connected => {
                self.unavailable = false;
                let written: String = if self.plan.all {
                    join4(stamp, "  connected  ", self.plan.url.as_str(), "\n")
                } else {
                    self.state.transition_at("connected; waiting for validator state", now)
                };
                (written, WatchStep::Read)
            },
            WatchEvent::ConnectFailed(chain, text) => {
                let attempt: String = join2(
                    "could not connect to Firedancer GUI at ",
                    self.plan.url.as_str(),
                );
                let failure: Failure = with_context(attempt.as_str(), text.as_str());
                self.fail_attempt(&chain, failure, now, stamp)
            },
            WatchEvent::IntervalRefused(chain, text) => {
                let failure: Failure = with_context(
                    "could not configure monitor refresh interval",
                    text.as_str(),
                );
                self.fail_attempt(&chain, failure, now, stamp)
            },
            WatchEvent::Text(delivery) => {
                let running: bool = match delivery.startup_phase() {
                    Some(phase) => same_text(phase.as_str(), "running"),
                    None => false,
                };
                let written: String = handle_text(
                    &delivery,
                    self.plan.all,
                    now,
                    stamp,
                    &mut self.state,
                );
                if self.plan.until_running && running {
                    if self.state.live && !self.plan.all {
                        (join2(written.as_str(), "\n"), WatchStep::Finish)
                    } else {
                        (written, WatchStep::Finish)
                    }
                } else {
                    (written, WatchStep::Read)
                }
            },
            WatchEvent::Binary => {
                let written: String = if self.plan.all {
                    join2(stamp, "  <binary websocket frame ignored>\n")
                } else {
                    String::new()
                };
                (written, WatchStep::Read)
            },
            WatchEvent::Control => (self.state.tick_at(now), WatchStep::Read),
            WatchEvent::Closed => self.end_session(now, stamp),
            WatchEvent::ReadFailed(fault, text) => {
                let refresh: bool = match fault {
                    WebsocketFault::Io(kind) => is_refresh_timeout(kind),
                    _ => false,
                };
                if refresh {
                    (self.state.tick_at(now), WatchStep::Read)
                } else if is_unavailable_websocket(fault) {
                    self.end_session(now, stamp)
                } else {
                    let attempt: String = join3(
                        "Firedancer GUI websocket ",
                        self.plan.url.as_str(),
                        " closed",
                    );
                    (
                        String::new(),
                        WatchStep::Fail(with_context(attempt.as_str(), text.as_str())),
                    )
                }
            },
            WatchEvent::Slept => (self.state.tick_at(now), WatchStep::Connect),
        }
    }
}

/// What a single reading of the startup phase has come to.
#[derive(Debug, Clone, PartialEq, Eq)]
pub enum PhaseReading {
    /// Nothing yet: read on.
    Open,
    /// The phase, as it is shown.
    Found(String),
    /// The GUI does not tell.
    Unavailable,
}

/// What a [`PhaseReading`] says.
#[verifier::ext_equal]
pub enum PhaseReadingView {
    Open,
    Found(Seq<char>),
    Unavailable,
}

impl View for PhaseReading {
    type V = PhaseReadingView;

    open spec fn view(&self) -> PhaseReadingView {
        match *self {
            PhaseReading::Open => PhaseReadingView::Open,
            PhaseReading::Found(phase) => PhaseReadingView::Found(phase@),
            PhaseReading::Unavailable => PhaseReadingView::Unavailable,
        }
    }
}

/// What one event says to someone who wants the startup phase once.
pub open spec fn phase_reading(event: WatchEventView) -> PhaseReadingView {
    match event {
        WatchEventView::Text(delivery) => match reported_phase(delivery) {
            Some(phase) => PhaseReadingView::Found(phase_text(phase)),
            None => PhaseReadingView::Open,
        },
        WatchEventView::Connected | WatchEventView::Binary | WatchEventView::Control =>
            PhaseReadingView::Open,
        WatchEventView::ReadFailed(fault, _) => if fault matches WebsocketFault::Io(kind)
            && refresh_timeout(kind) {
            PhaseReadingView::Open
        } else {
            PhaseReadingView::Unavailable
        },
        _ => PhaseReadingView::Unavailable,
    }
}

/// Reads the startup phase off one event.
pub fn read_phase(event: &WatchEvent) -> (reading: PhaseReading)
    ensures
        reading@ == phase_reading(event@),
{
    match event {
        WatchEvent::Text(delivery) => match delivery.startup_phase() {
            Some(phase) => PhaseReading::Found(humanize_phase(phase.as_str())),
            None => PhaseReading::Open,
        },
        WatchEvent::Connected | WatchEvent::Binary | WatchEvent::Control => PhaseReading::Open,
        WatchEvent::ReadFailed(fault, _) => {
            let refresh: bool = match fault {
                WebsocketFault::Io(kind) => is_refresh_timeout(*kind),
                _ => false,
            };
            if refresh {
                PhaseReading::Open
            } else {
                PhaseReading::Unavailable
            }
        },
        _ => PhaseReading::Unavailable,
    }
}

/// A single reading of the startup phase.
#[derive(Debug, Clone, PartialEq, Eq)]
pub struct PhaseWatch {
    /// When the reading was begun, in nanoseconds.
    pub started: u64,
    /// What it has come to.
    pub reading: PhaseReading,
}

/// What a [`PhaseWatch`] says.
#[verifier::ext_equal]
pub struct PhaseWatchView {
    pub started: u64,
    pub reading: PhaseReadingView,
}

impl View for PhaseWatch {
    type V = PhaseWatchView;

    open spec fn view(&self) -> PhaseWatchView {
        PhaseWatchView { started: self.started, reading: self.reading@ }
    }
}

/// Whether a reading that was begun at one time is past its deadline at another.
pub open spec fn phase_overdue(started: u64, now: u64) -> bool {
    now - started >= PHASE_DEADLINE_NANOS
}

/// A reading of the startup phase after one more event: what it has come to stays, and an event
/// past the deadline tells nothing.
pub open spec fn phase_stepped(
    watch: PhaseWatchView,
    event: WatchEventView,
    now: u64,
) -> PhaseWatchView {
    if !(watch.reading is Open) {
        watch
    } else if phase_overdue(watch.started, now) {
        PhaseWatchView { reading: PhaseReadingView::Unavailable, ..watch }
    } else {
        PhaseWatchView { reading: phase_reading(event), ..watch }
    }
}

/// A reading of the startup phase after events, each with the time at which it came.
pub open spec fn phase_after(
    watch: PhaseWatchView,
    events: Seq<(WatchEventView, u64)>,
) -> PhaseWatchView
    decreases events.len(),
{
    if events.len() == 0 {
        watch
    } else {
        phase_after(phase_stepped(watch, events[0].0, events[0].1), events.drop_first())
    }
}

impl PhaseWatch {
    /// Begins a reading at a reading of the clock.
    pub fn open(now: u64) -> (watch: PhaseWatch)
        ensures
            watch@ == (PhaseWatchView { started: now, reading: PhaseReadingView::Open }),
    {
        PhaseWatch { started: now, reading: PhaseReading::Open }
    }

    /// Takes one event at a reading of the clock; returns what the reading has come to.
    pub fn step(&mut self, event: &WatchEvent, now: u64) -> (reading: PhaseReading)
        ensures
            final(self)@ == phase_stepped(old(self)@, event@, now),
            reading@ == phase_stepped(old(self)@, event@, now).reading,
    {
        let open: bool = match &self.reading {
            PhaseReading::Open => true,
            _ => false,
        };
        if open {
            self.reading = if now >= self.started && now - self.started >= PHASE_DEADLINE_NANOS {
                PhaseReading::Unavailable
            } else {
                read_phase(event)
            };
        }
        match &self.reading {
            PhaseReading::Open => PhaseReading::Open,
            PhaseReading::Found(phase) => PhaseReading::Found(phase.clone()),
            PhaseReading::Unavailable => PhaseReading::Unavailable,
        }
    }
}

/// Whether a terminal line is updated in place: on a terminal, and unless every message is dumped.
pub open spec fn live_output(terminal: bool, all: bool) -> bool {
    terminal && !all
}

/// Decides whether the state's line is updated in place.
pub fn is_live(terminal: bool, all: bool) -> (live: bool)
    ensures
        live == live_output(terminal, all),
{
    terminal && !all
}

/// What a reading of the startup phase has come to is not changed by later events.
proof fn lemma_phase_stays(watch: PhaseWatchView, events: Seq<(WatchEventView, u64)>)
    requires
        !(watch.reading is Open),
    ensures
        phase_after(watch, events) == watch,
    decreases events.len(),
{
    if events.len() > 0 {
        lemma_phase_stays(watch, events.drop_first());
    }
}

/// The first phase that the GUI reports in time is the one that is read, whatever comes after it.
pub proof fn law_first_phase_wins(
    watch: PhaseWatchView,
    events: Seq<(WatchEventView, u64)>,
    k: int,
    delivery: DeliveryView,
)
    requires
        watch.reading is Open,
        0 <= k < events.len(),
        forall|i: int|
            0 <= i <= k ==> !phase_overdue(watch.started, (#[trigger] events[i]).1),
        forall|i: int| 0 <= i < k ==> phase_reading((#[trigger] events[i]).0) is Open,
        events[k].0 == WatchEventView::Text(delivery),
        reported_phase(delivery) is Some,
    ensures
        phase_after(watch, events).reading == PhaseReadingView::Found(
            phase_text(reported_phase(delivery)->0),
        ),
    decreases k,
{
    let next = phase_stepped(watch, events[0].0, events[0].1);
    let rest = events.drop_first();
    if k == 0 {
        lemma_phase_stays(next, rest);
    } else {
        assert(forall|i: int| 0 <= i < rest.len() ==> rest[i] == events[i + 1]);
        law_first_phase_wins(next, rest, k - 1, delivery);
    }
}

/// A reading of the startup phase ends at its deadline, and a phase that comes later is not read.
pub proof fn law_phase_reading_ends_in_time(
    watch: PhaseWatchView,
    event: WatchEventView,
    now: u64,
)
    requires
        phase_overdue(watch.started, now),
    ensures
        !(phase_stepped(watch, event, now).reading is Open),
        phase_stepped(watch, event, now).reading is Found ==> watch.reading is Found,
{
}

/// A state that is reported again writes no line of its own and keeps counting from where it was
/// entered.
pub proof fn law_repeated_state_keeps_its_line(state: CurrentStateView, label: Seq<char>, now: u64)
    requires
        state.active is Some,
        state.active->0.label == label,
    ensures
        transitioned(state, label, now) == ticked(state, now),
        transitioned(state, label, now).state.active is Some,
        transitioned(state, label, now).state.active->0.label == label,
        transitioned(state, label, now).state.active->0.started == state.active->0.started,
{
}

/// When a live state changes, the completed state stays on a line of its own with its final
/// duration, and the next one counts from zero.
pub proof fn law_completed_state_keeps_its_duration(
    state: CurrentStateView,
    label: Seq<char>,
    now: u64,
)
    requires
        state.live,
        state.active is Some,
        state.active->0.label != label,
    ensures
        transitioned(state, label, now).written == progress::in_place(
            state_text(
                state.active->0.label,
                seconds_between(state.active->0.started, now),
            ),
        ) + "\n"@ + progress::in_place(state_text(label, 0)),
        seconds_between(transitioned(state, label, now).state.active->0.started, now) == 0,
{
}

/// A watch that is not limited and does not wait for the validator to run never ends by itself: an
/// unreachable or closed GUI makes it wait and try again.
pub proof fn law_watch_keeps_trying(
    watch: WatchView,
    event: WatchEventView,
    now: u64,
    stamp: Seq<char>,
)
    requires
        watch.plan.max_sessions is None,
        !watch.plan.until_running,
    ensures
        !(stepped(watch, event, now, stamp).next is Finish),
        event is Closed ==> stepped(watch, event, now, stamp).next is Sleep,
        event matches WatchEventView::ConnectFailed(chain, _) ==> chain_unavailable(chain)
            ==> stepped(watch, event, now, stamp).next is Sleep,
        event is Slept ==> stepped(watch, event, now, stamp).next is Connect,
{
}

/// No step changes what a watch is for.
pub proof fn law_watch_keeps_its_plan(
    watch: WatchView,
    event: WatchEventView,
    now: u64,
    stamp: Seq<char>,
)
    ensures
        stepped(watch, event, now, stamp).watch.plan == watch.plan,
        stepped(watch, event, now, stamp).watch.state.live == watch.state.live,
{
}

/// A dump says once for each outage that the GUI cannot be reached, and says so again only after
/// it was reached in between.
pub proof fn law_outage_is_dumped_once(
    watch: WatchView,
    first: u64,
    second: u64,
    first_stamp: Seq<char>,
    second_stamp: Seq<char>,
)
    requires
        watch.plan.all,
    ensures
        outage(outage(watch, first, first_stamp).watch, second, second_stamp).written == Seq::<
            char,
        >::empty(),
        !stepped(watch, WatchEventView::Connected, first, first_stamp).watch.unavailable,
{
}

/// Without a dump, only startup phases are shown of what the websocket delivers.
pub proof fn law_other_messages_stay_hidden(
    watch: WatchView,
    delivery: DeliveryView,
    now: u64,
    stamp: Seq<char>,
)
    requires
        !watch.plan.all,
        !watch.state.live,
        reported_phase(delivery) is None,
    ensures
        stepped(watch, WatchEventView::Text(delivery), now, stamp).written == Seq::<char>::empty(),
        stepped(watch, WatchEventView::Text(delivery), now, stamp).watch == watch,
{
}

/// A watch for a running validator ends with the first text that is a `summary` message under
/// `startup_progress` or `boot_progress` whose phase is exactly `running`. Every other text, whatever
/// phase it reports, is followed by another read, as is every text of any other watch. No text
/// counts as a closed connection.
pub proof fn law_only_running_ends_the_wait(
    watch: WatchView,
    delivery: DeliveryView,
    now: u64,
    stamp: Seq<char>,
)
    ensures
        ({
            let after = stepped(watch, WatchEventView::Text(delivery), now, stamp);
            let running = delivery.message matches Some(message) && message.topic == "summary"@ && (
            message.key == "startup_progress"@ || message.key == "boot_progress"@) && message.phase
                == Some("running"@);
            &&& after.next is Finish <==> watch.plan.until_running && running
            &&& !(after.next is Finish) ==> after.next is Read
            &&& after.watch.sessions == watch.sessions
            &&& after.watch.unavailable == watch.unavailable
            &&& after.watch.plan == watch.plan
        }),
{
}

/// What one text shows does not depend on whether the watch ends with it, except that the line of
/// the last state is ended on a terminal.
pub proof fn law_the_last_line_is_ended(
    watch: WatchView,
    delivery: DeliveryView,
    now: u64,
    stamp: Seq<char>,
)
    requires
        watch.plan.until_running,
    ensures
        ({
            let on = WatchView {
                plan: WatchPlanView { until_running: false, ..watch.plan },
                ..watch
            };
            let waiting = stepped(watch, WatchEventView::Text(delivery), now, stamp);
            let watching = stepped(on, WatchEventView::Text(delivery), now, stamp);
            &&& waiting.watch.state == watching.watch.state
            &&& waiting.next is Read ==> waiting.written == watching.written
            &&& waiting.next is Finish && watch.state.live && !watch.plan.all ==> waiting.written
                == watching.written + seq!['\n']
            &&& waiting.next is Finish && (!watch.state.live || watch.plan.all) ==> waiting.written
                == watching.written
        }),
{
    reveal_strlit("\n");
    assert("\n"@ == seq!['\n']);
}

/// A read that times out is no closed connection: the watch reads on, keeps its active state and
/// when that began, counts nothing, and writes at most the refreshed line of that state. The same
/// holds of a frame without a message, and of the retry interval passing, after which it connects.
pub proof fn law_timeouts_only_refresh(
    watch: WatchView,
    event: WatchEventView,
    now: u64,
    stamp: Seq<char>,
)
    requires
        (event matches WatchEventView::ReadFailed(fault, _) && (fault == WebsocketFault::Io(
            IoKind::WouldBlock,
        ) || fault == WebsocketFault::Io(IoKind::TimedOut))) || event is Control || event is Slept,
    ensures
        ({
            let after = stepped(watch, event, now, stamp);
            &&& event is Slept ==> after.next is Connect
            &&& !(event is Slept) ==> after.next is Read
            &&& after.watch.plan == watch.plan
            &&& after.watch.sessions == watch.sessions
            &&& after.watch.unavailable == watch.unavailable
            &&& after.watch.state.live == watch.state.live
            &&& watch.state.active is None ==> after.watch.state.active is None
                && after.written.len() == 0
            &&& !watch.state.live ==> after.watch == watch && after.written.len() == 0
            &&& watch.state.active matches Some(active) ==> after.watch.state.active matches Some(
                kept,
            ) && kept.label == active.label && kept.started == active.started && (
            after.written.len() == 0 || after.written == seq!['\r'] + state_text(
                active.label,
                kept.rendered_second,
            ) + seq!['\x1b', '[', 'K'])
        }),
{
    reveal_strlit("\r");
    reveal_strlit("\x1b[K");
    assert("\r"@ == seq!['\r']);
    assert("\x1b[K"@ == seq!['\x1b', '[', 'K']);
}

/// Time that passes is shown once for each second: a live line is refreshed when it shows another
/// second than the one that has been reached, and only then.
pub proof fn law_seconds_are_shown_once(state: CurrentStateView, now: u64, elapsed: u64)
    requires
        state.live,
        state.active is Some,
        state.active->0.started + elapsed * 1_000_000_000 <= now,
        now < state.active->0.started + (elapsed + 1) * 1_000_000_000,
    ensures
        ({
            let active = state.active->0;
            let after = ticked(state, now);
            &&& after.state.live
            &&& after.state.active matches Some(kept) && kept.rendered_second == elapsed
                && kept.label == active.label && kept.started == active.started
            &&& active.rendered_second == elapsed ==> after.written.len() == 0
            &&& active.rendered_second != elapsed ==> after.written == seq!['\r'] + state_text(
                active.label,
                elapsed,
            ) + seq!['\x1b', '[', 'K']
            &&& ticked(after.state, now).written.len() == 0
            &&& rendered(state, now).state == after.state
            &&& rendered(state, now).written == seq!['\r'] + state_text(active.label, elapsed)
                + seq!['\x1b', '[', 'K']
        }),
{
    reveal_strlit("\r");
    reveal_strlit("\x1b[K");
    assert("\r"@ == seq!['\r']);
    assert("\x1b[K"@ == seq!['\x1b', '[', 'K']);
    law_seconds_are_whole(state.active->0.started, now, elapsed);
}

/// Elapsed time is counted in whole seconds, and a clock that went back counts none.
pub proof fn law_seconds_are_whole(started: u64, now: u64, elapsed: u64)
    requires
        started + elapsed * 1_000_000_000 <= now,
        now < started + (elapsed + 1) * 1_000_000_000,
    ensures
        seconds_between(started, now) == elapsed,
        started < now ==> seconds_between(now, started) == 0,
{
    let passed = now - started;
    assert(passed / 1_000_000_000 == elapsed) by (nonlinear_arith)
        requires
            elapsed * 1_000_000_000 <= passed < (elapsed + 1) * 1_000_000_000,
    ;
}

/// A closed connection, and a failed read that says that the GUI is gone, are counted. A watch for
/// so many connections ends with the last of them and writes nothing; otherwise it waits and tries
/// again.
pub proof fn law_closed_connections_are_counted(
    watch: WatchView,
    event: WatchEventView,
    now: u64,
    stamp: Seq<char>,
)
    requires
        event is Closed || (event matches WatchEventView::ReadFailed(fault, _) && (fault
            is ConnectionClosed || fault is AlreadyClosed || fault is Http || fault is HttpFormat
            || fault is Protocol || fault is UnableToConnect || fault == WebsocketFault::Io(
            IoKind::ConnectionRefused,
        ) || fault == WebsocketFault::Io(IoKind::ConnectionReset) || fault == WebsocketFault::Io(
            IoKind::ConnectionAborted,
        ) || fault == WebsocketFault::Io(IoKind::BrokenPipe) || fault == WebsocketFault::Io(
            IoKind::UnexpectedEof,
        ) || fault == WebsocketFault::Io(IoKind::NotConnected) || fault == WebsocketFault::Io(
            IoKind::AddrNotAvailable,
        ))),
    ensures
        ({
            let after = stepped(watch, event, now, stamp);
            let count = watch.sessions + 1;
            &&& watch.sessions < usize::MAX ==> after.watch.sessions == count
            &&& watch.sessions == usize::MAX ==> after.watch.sessions == usize::MAX
            &&& watch.plan.max_sessions is None ==> after.next is Sleep
            &&& watch.plan.max_sessions matches Some(most) ==> (after.next is Finish <==> count
                >= most)
            &&& !(after.next is Finish) ==> after.next is Sleep
            &&& after.next is Finish ==> after.written.len() == 0 && after.watch.state
                == watch.state
            &&& after.next is Sleep && !watch.plan.all ==> (after.watch.state.active matches Some(
                active,
            ) && active.label == "service not available; retrying"@)
            &&& after.next is Sleep && watch.plan.all ==> after.watch.unavailable
                && after.watch.state == watch.state
        }),
{
}

/// A failed read of any other kind ends the watch with an error that names the URL and the cause.
pub proof fn law_other_read_failures_are_reported(
    watch: WatchView,
    fault: WebsocketFault,
    reason: Seq<char>,
    now: u64,
    stamp: Seq<char>,
)
    requires
        fault is Other || fault == WebsocketFault::Io(IoKind::Other),
    ensures
        ({
            let after = stepped(watch, WatchEventView::ReadFailed(fault, reason), now, stamp);
            &&& after.next == WatchStepView::Fail(
                "Firedancer GUI websocket "@ + watch.plan.url + " closed: "@ + reason,
            )
            &&& after.watch == watch
            &&& after.written.len() == 0
        }),
{
    reveal_strlit(" closed");
    reveal_strlit(": ");
    reveal_strlit(" closed: ");
    assert(" closed"@ + ": "@ == " closed: "@);
    assert("Firedancer GUI websocket "@ + watch.plan.url + " closed"@ + ": "@ + reason
        == "Firedancer GUI websocket "@ + watch.plan.url + (" closed"@ + ": "@) + reason);
}

/// A GUI that cannot be connected to is tried again if any cause says that it is not there now, and
/// no connection is counted. If no cause does, the watch ends with what was attempted and the reason.
pub proof fn law_failed_connections_are_tried_again(
    watch: WatchView,
    chain: Seq<Cause>,
    reason: Seq<char>,
    now: u64,
    stamp: Seq<char>,
    at: int,
)
    requires
        0 <= at < chain.len(),
    ensures
        ({
            let failed = stepped(watch, WatchEventView::ConnectFailed(chain, reason), now, stamp);
            let refused = stepped(watch, WatchEventView::IntervalRefused(chain, reason), now, stamp);
            let other = |i: int|
                chain[i] is Other || chain[i] == Cause::Io(IoKind::Other) || chain[i]
                    == Cause::Websocket(WebsocketFault::Other) || chain[i] == Cause::Websocket(
                    WebsocketFault::Io(IoKind::Other),
                );
            &&& failed.watch.sessions == watch.sessions
            &&& refused.watch.sessions == watch.sessions
            &&& !other(at) ==> failed.next is Sleep && refused.next is Sleep && refused.watch
                == failed.watch && refused.written == failed.written
            &&& !other(at) && !watch.plan.all ==> (failed.watch.state.active matches Some(active)
                && active.label == "service not available; retrying"@)
            &&& (forall|i: int| 0 <= i < chain.len() ==> #[trigger] other(i)) ==> {
                &&& failed.watch == watch && failed.written.len() == 0
                &&& refused.watch == watch && refused.written.len() == 0
                &&& failed.next == WatchStepView::Fail(
                    "could not connect to Firedancer GUI at "@ + watch.plan.url + ": "@ + reason,
                )
                &&& refused.next == WatchStepView::Fail(
                    "could not configure monitor refresh interval: "@ + reason,
                )
            }
        }),
{
    reveal_strlit("could not configure monitor refresh interval");
    reveal_strlit(": ");
    reveal_strlit("could not configure monitor refresh interval: ");
    assert("could not configure monitor refresh interval"@ + ": "@
        == "could not configure monitor refresh interval: "@);
    let other = |i: int|
        chain[i] is Other || chain[i] == Cause::Io(IoKind::Other) || chain[i] == Cause::Websocket(
            WebsocketFault::Other,
        ) || chain[i] == Cause::Websocket(WebsocketFault::Io(IoKind::Other));
    if !other(at) {
        assert(cause_unavailable(chain[at]));
    }
    if forall|i: int| 0 <= i < chain.len() ==> #[trigger] other(i) {
        assert forall|i: int| 0 <= i < chain.len() implies !cause_unavailable(
            #[trigger] chain[i],
        ) by {
            assert(other(i));
        }
    }
}

/// A GUI that has been reached is read from. A dump names the URL; otherwise the watch shows that
/// it is waiting for a state. The next outage is reported again.
pub proof fn law_connections_are_shown(watch: WatchView, now: u64, stamp: Seq<char>)
    ensures
        ({
            let after = stepped(watch, WatchEventView::Connected, now, stamp);
            &&& after.next is Read
            &&& !after.watch.unavailable
            &&& after.watch.sessions == watch.sessions
            &&& watch.plan.all ==> after.written == stamp + "  connected  "@ + watch.plan.url
                + seq!['\n'] && after.watch.state == watch.state
            &&& !watch.plan.all ==> (after.watch.state.active matches Some(active)
                && active.label == "connected; waiting for validator state"@)
        }),
{
    reveal_strlit("\n");
    assert("\n"@ == seq!['\n']);
}

/// A dump reports an outage in one line, and again only after the GUI was reached in between. A
/// binary frame is only named in a dump.
pub proof fn law_dumps_report_outages(watch: WatchView, now: u64, stamp: Seq<char>)
    ensures
        outage(watch, now, stamp).next is Sleep,
        outage(watch, now, stamp).watch.sessions == watch.sessions,
        watch.plan.all && !watch.unavailable ==> outage(watch, now, stamp).written == stamp
            + "  service not available; retrying\n"@,
        watch.plan.all && watch.unavailable ==> outage(watch, now, stamp).written.len() == 0,
        watch.plan.all ==> outage(watch, now, stamp).watch.unavailable && outage(
            watch,
            now,
            stamp,
        ).watch.state == watch.state,
        ({
            let after = stepped(watch, WatchEventView::Binary, now, stamp);
            &&& after.next is Read
            &&& after.watch == watch
            &&& watch.plan.all ==> after.written == stamp
                + "  <binary websocket frame ignored>\n"@
            &&& !watch.plan.all ==> after.written.len() == 0
        }),
{
}

/// A state that is entered anew counts from now. Without a terminal it has one line that is written
/// when it is entered; on a terminal its line takes the place of the current one, after the line of
/// the state before it has been ended.
pub proof fn law_states_are_entered(state: CurrentStateView, label: Seq<char>, now: u64)
    ensures
        ({
            let after = transitioned(state, label, now);
            let entered = !(state.active is Some && state.active->0.label == label);
            &&& after.state.live == state.live
            &&& after.state.active matches Some(active) && active.label == label
            &&& entered ==> after.state.active->0.started == now
                && after.state.active->0.rendered_second == 0
            &&& !entered ==> after.state.active->0.started == state.active->0.started
            &&& entered && !state.live ==> after.written == state_text(label, 0) + seq!['\n']
            &&& !entered && !state.live ==> after.written.len() == 0
            &&& entered && state.live && state.active is None ==> after.written == seq!['\r']
                + state_text(label, 0) + seq!['\x1b', '[', 'K']
        }),
{
    reveal_strlit("\n");
    reveal_strlit("\r");
    reveal_strlit("\x1b[K");
    assert("\n"@ == seq!['\n']);
    assert("\r"@ == seq!['\r']);
    assert("\x1b[K"@ == seq!['\x1b', '[', 'K']);
    assert(Seq::<char>::empty() + progress::in_place(state_text(label, 0)) == progress::in_place(
        state_text(label, 0),
    ));
    assert(Seq::<char>::empty() + (state_text(label, 0) + "\n"@) == state_text(label, 0) + "\n"@);
}

/// A phase is shown with spaces for its underscores and with nothing else changed.
pub proof fn law_phases_are_made_readable(phase: Seq<char>)
    ensures
        phase_text(phase).len() == phase.len(),
        forall|i: int|
            0 <= i < phase.len() ==> #[trigger] phase_text(phase)[i] == if phase[i] == '_' {
                ' '
            } else {
                phase[i]
            },
{
}

/// Without a dump, a reported phase becomes the active state, and any other text leaves the active
/// state alone. With a dump no text changes the state, and every text is written: its topic, key, and
/// value if it is a message, and all of it if it is not.
pub proof fn law_reported_phases_become_states(
    watch: WatchView,
    delivery: DeliveryView,
    now: u64,
    stamp: Seq<char>,
)
    ensures
        ({
            let after = stepped(watch, WatchEventView::Text(delivery), now, stamp).watch.state;
            let reports = delivery.message matches Some(message) && message.topic == "summary"@ && (
            message.key == "startup_progress"@ || message.key == "boot_progress"@) && message.phase
                is Some;
            &&& watch.plan.all ==> after == watch.state
            &&& !watch.plan.all && reports ==> (after.active matches Some(active)
                && active.label == phase_text(delivery.message->0.phase->0))
            &&& !watch.plan.all && !reports ==> (watch.state.active matches Some(before)
                ==> after.active matches Some(active) && active.label == before.label
                && active.started == before.started)
            &&& !watch.plan.all && !reports && watch.state.active is None ==> after.active is None
        }),
        handled(watch.state, delivery, true, now, stamp).written == match delivery.message {
            None => stamp + "  <unparsed>"@ + seq!['\n'] + delivery.payload + seq!['\n'],
            Some(message) => stamp + seq![' ', ' '] + message.topic + seq!['.'] + message.key
                + seq!['\n'] + message.value + seq!['\n'],
        },
{
    reveal_strlit("\n");
    reveal_strlit("  ");
    reveal_strlit(".");
    reveal_strlit("  <unparsed>\n");
    reveal_strlit("  <unparsed>");
    assert("\n"@ == seq!['\n']);
    assert("  "@ == seq![' ', ' ']);
    assert("."@ == seq!['.']);
    assert("  <unparsed>\n"@ == "  <unparsed>"@ + seq!['\n']);
    assert(stamp + ("  <unparsed>"@ + seq!['\n']) == stamp + "  <unparsed>"@ + seq!['\n']);
}

/// A line of a state shows its label, at least three dots, and how long it has lasted. The dots of a
/// label that leaves room for them end at the same column.
pub proof fn law_state_lines_have_a_column(label: Seq<char>, elapsed: u64)
    ensures
        exists|count: nat|
            {
                &&& count >= 3
                &&& state_text(label, elapsed) == label + seq![' '] + #[trigger] progress::dots(count)
                    + seq![' '] + progress::duration_text(elapsed)
                &&& progress::byte_len(label) <= 36 ==> progress::byte_len(label) + 1 + count == 40
                &&& progress::byte_len(label) > 36 ==> count == 3
            },
{
    reveal_strlit(" ");
    assert(" "@ == seq![' ']);
    let count = progress::dot_count(label, 1, STATE_COLUMN as nat);
    assert(state_text(label, elapsed) == label + seq![' '] + progress::dots(count) + seq![' ']
        + progress::duration_text(elapsed));
}

/// A watch begins with a connection, without a state, and with nothing counted. Only a dump says
/// that it has begun. A line is refreshed in place on a terminal, unless everything is dumped.
pub proof fn law_watches_begin_anew(plan: WatchPlanView, live: bool, terminal: bool, all: bool)
    ensures
        opened(plan, live).next is Connect,
        opened(plan, live).watch.plan == plan,
        opened(plan, live).watch.sessions == 0,
        !opened(plan, live).watch.unavailable,
        opened(plan, live).watch.state.active is None,
        opened(plan, live).watch.state.live == live,
        plan.all ==> opened(plan, live).written
            == "dumping every websocket message; Ctrl+C to stop\n"@,
        !plan.all ==> opened(plan, live).written.len() == 0,
        live_output(terminal, all) ==> terminal && !all,
        terminal && !all ==> live_output(terminal, all),
{
}

/// A single reading of the phase ends with the first phase that is reported within three seconds,
/// goes on over anything that is no end of the connection, and gives up otherwise.
pub proof fn law_a_phase_is_read_once(watch: PhaseWatchView, event: WatchEventView, now: u64)
    requires
        watch.reading is Open,
    ensures
        ({
            let after = phase_stepped(watch, event, now);
            let late = now >= watch.started + 3_000_000_000;
            let reports = event matches WatchEventView::Text(delivery) && delivery.message matches
                Some(message) && message.topic == "summary"@ && (message.key
                == "startup_progress"@ || message.key == "boot_progress"@) && message.phase is Some;
            let harmless = event is Text || event is Connected || event is Binary || event
                is Control || (event matches WatchEventView::ReadFailed(fault, _) && (fault
                == WebsocketFault::Io(IoKind::WouldBlock) || fault == WebsocketFault::Io(
                IoKind::TimedOut,
            )));
            &&& after.started == watch.started
            &&& after.reading is Found <==> reports && !late
            &&& after.reading is Found ==> after.reading->Found_0 == phase_text(
                event->Text_0.message->0.phase->0,
            )
            &&& after.reading is Open <==> harmless && !reports && !late
        }),
{
}

/// A listener on every address is reached over the loopback address of its family, and any other
/// one where it listens.
pub proof fn law_wildcards_become_loopback(address: Seq<char>)
    ensures
        address.len() == 0 || address == "0.0.0.0"@ ==> reachable_address(address)
            == "127.0.0.1"@,
        address == "::"@ || address == "[::]"@ ==> reachable_address(address) == "::1"@,
        address.len() > 0 && address != "0.0.0.0"@ && address != "::"@ && address != "[::]"@
            ==> reachable_address(address) == address,
        reachable_address(reachable_address(address)) == reachable_address(address),
{
    reveal_strlit("");
    reveal_strlit("0.0.0.0");
    reveal_strlit("::");
    reveal_strlit("[::]");
    reveal_strlit("127.0.0.1");
    reveal_strlit("::1");
    if address.len() == 0 {
        assert(address == ""@);
    }
    assert("127.0.0.1"@[0] == '1');
    assert("::1"@.len() == 3);
}

/// The URL names the address and the port; an address with colons stands in brackets, and brackets
/// that are there already are kept.
pub proof fn law_urls_bracket_colons(address: Seq<char>, port: u16)
    ensures
        !address.contains(':') ==> url_text(address, port) == "ws://"@ + address + seq![':']
            + text::decimal(port as nat) + "/websocket"@,
        address.contains(':') && address[0] != '[' ==> url_text(address, port) == "ws://"@ + seq!['[']
            + address + seq![']', ':'] + text::decimal(port as nat) + "/websocket"@,
        address.len() > 0 && address[0] == '[' ==> url_text(address, port) == "ws://"@ + address
            + seq![':'] + text::decimal(port as nat) + "/websocket"@,
{
    reveal_strlit("[");
    reveal_strlit("]");
    reveal_strlit(":");
    assert("["@ == seq!['[']);
    assert("]"@ == seq![']']);
    assert(":"@ == seq![':']);
    if address.len() > 0 {
        assert(address.subrange(0, 1)[0] == address[0]);
        if address[0] == '[' {
            assert("["@ == address.subrange(0, 1));
        }
    }
    let bracketed = "["@ + address + "]"@;
    assert("ws://"@ + bracketed + ":"@ == "ws://"@ + seq!['['] + address + seq![']', ':']);
}

/// What a configuration leaves out is on, on the loopback address, and on port 80.
pub proof fn law_missing_settings_have_defaults(config: GuiConfigView)
    ensures
        endpoint_of(config).enabled <==> config.enabled != Some(false),
        config.gui_listen_address is None ==> endpoint_of(config).address == "127.0.0.1"@,
        config.gui_listen_address matches Some(address) ==> endpoint_of(config).address
            == reachable_address(address),
        config.gui_listen_port is None ==> endpoint_of(config).port == 80,
        config.gui_listen_port matches Some(port) ==> endpoint_of(config).port == port,
{
    reveal_strlit("");
    reveal_strlit("0.0.0.0");
    reveal_strlit("::");
    reveal_strlit("[::]");
    reveal_strlit("127.0.0.1");
    assert("127.0.0.1"@[0] == '1');
}

/// Readiness is waited for at the URL that the configuration file describes: the file is read, its
/// text is parsed, and the validator is awaited there. The wait is over when the validator runs. A
/// configuration that switches the GUI off is refused before anything is awaited.
pub proof fn law_readiness_is_awaited_where_configured(
    t: Transcript,
    path: Seq<char>,
    text: Seq<char>,
    config: GuiConfigView,
)
    requires
        t.asked.len() + 1 < t.replies.len(),
        t.replies[t.asked.len() as int] == ReplyView::Text(text),
        t.replies[t.asked.len() as int + 1] == ReplyView::Gui(config),
    ensures
        ({
            let read = seq![RequestView::ReadText(path), RequestView::ParseGui(text)];
            let url = url_text(endpoint_of(config).address, endpoint_of(config).port);
            let waited = wait_run(t, path);
            let checked = validate_run(t, path);
            let next = t.asked.len() as int + 2;
            &&& checked.after.asked == t.asked + read
            &&& checked.done() <==> config.enabled != Some(false)
            &&& config.enabled == Some(false) ==> waited.after.asked == t.asked + read
                && waited.end == End::<()>::Failed(
                "Firedancer GUI is disabled in "@ + path + " ([tiles.gui].enabled = false)"@,
            ) && checked.end == waited.end
            &&& config.enabled != Some(false) ==> waited.after.asked == t.asked + read.push(
                RequestView::AwaitRunning(url),
            ) && (waited.done() <==> next < t.replies.len() && t.replies[next] is Done)
        }),
{
    let first = t.ask(RequestView::ReadText(path));
    assert(first.asked.len() == t.asked.len() + 1);
    let second = first.ask(RequestView::ParseGui(text));
    assert(second.asked == t.asked + seq![
        RequestView::ReadText(path),
        RequestView::ParseGui(text),
    ]);
    assert(second.asked.len() == t.asked.len() + 2);
    law_missing_settings_have_defaults(config);
    let url = url_text(endpoint_of(config).address, endpoint_of(config).port);
    assert(second.ask(RequestView::AwaitRunning(url)).asked == t.asked + seq![
        RequestView::ReadText(path),
        RequestView::ParseGui(text),
    ].push(RequestView::AwaitRunning(url)));
}

/// A given URL is watched as it is, and no configuration is read. Whether every message is dumped
/// is handed on.
pub proof fn law_a_given_url_is_watched(
    t: Transcript,
    path: Seq<char>,
    url: Seq<char>,
    all: bool,
)
    requires
        t.asked.len() < t.replies.len(),
    ensures
        ({
            let watched = monitor_run(t, path, Some(url), all);
            let found = url_run(t, path);
            let next = t.asked.len() as int + 1;
            &&& watched.after.asked.len() == t.asked.len() + 2
            &&& watched.after.asked[t.asked.len() as int] is Log
            &&& watched.after.asked.last() == RequestView::Watch(url, all)
            &&& watched.done() <==> next < t.replies.len() && t.replies[next] is Done
            &&& found.done() ==> monitor_run(t, path, None, all) == monitor_run(
                found.after,
                path,
                Some(found.value()),
                all,
            )
            &&& !found.done() ==> monitor_run(t, path, None, all).end == found.stop::<()>().end
                && monitor_run(t, path, None, all).after == found.after
        }),
{
}

/// A watch tries again every second, and its beginning is logged with the URL and with whether
/// everything is dumped.
pub proof fn law_watches_are_logged(url: Seq<char>, all: bool)
    ensures
        RETRY_INTERVAL_MILLIS == 1_000,
        watch_event(url, all).level is Info,
        watch_event(url, all).target == "val::monitor"@,
        watch_event(url, all).message == "connecting to Firedancer GUI websocket"@,
        watch_event(url, all).fields == seq![
            FieldView { name: "url"@, value: FieldValueView::Shown(url) },
            FieldView { name: "all"@, value: FieldValueView::Flag(all) },
        ],
{
}

} // verus!
