//! Firedancer status collection and rendering.

use vstd::prelude::*;

use ed25519_dalek::SigningKey;
use zeroize::Zeroize;

use crate::logging::{Level, LogEvent, LogEventView};
use crate::monitor;
use crate::monitor::websocket_url_from_config;
use crate::paths;
use crate::paths::{AppPaths, AppPathsView};
use crate::process;
use crate::process::{absolute, duplicate_text, executable_in};
use crate::service::{ServiceState, ServiceStateView};
use crate::session;
use crate::session::{
    with_context, End, Failure, Halt, Inspected, InspectedView, Reply, ReplyView, Request,
    RequestView, Run, Session, Transcript,
};
use crate::text;
use crate::text::{join2, join3, join4, number, replace_all};

verus! {

/// The settings of a Firedancer configuration that the status depends on.
#[derive(Debug, Clone, PartialEq, Eq)]
pub struct FiredancerConfig {
    pub name: Option<String>,
    pub user: Option<String>,
    pub scratch_directory: Option<String>,
    pub consensus: Option<ConsensusConfig>,
}

/// The `[consensus]` settings that the status depends on.
#[derive(Debug, Clone, PartialEq, Eq)]
pub struct ConsensusConfig {
    pub identity_path: Option<String>,
    pub snapshot_fetch: Option<bool>,
}

/// What a [`FiredancerConfig`] says.
#[verifier::ext_equal]
pub struct FiredancerConfigView {
    pub name: Option<Seq<char>>,
    pub user: Option<Seq<char>>,
    pub scratch_directory: Option<Seq<char>>,
    pub consensus: Option<ConsensusConfigView>,
}

/// What a [`ConsensusConfig`] says.
#[verifier::ext_equal]
pub struct ConsensusConfigView {
    pub identity_path: Option<Seq<char>>,
    pub snapshot_fetch: Option<bool>,
}

impl View for ConsensusConfig {
    type V = ConsensusConfigView;

    open spec fn view(&self) -> ConsensusConfigView {
        ConsensusConfigView {
            identity_path: process::maybe_text(self.identity_path),
            snapshot_fetch: self.snapshot_fetch,
        }
    }
}

impl View for FiredancerConfig {
    type V = FiredancerConfigView;

    open spec fn view(&self) -> FiredancerConfigView {
        FiredancerConfigView {
            name: process::maybe_text(self.name),
            user: process::maybe_text(self.user),
            scratch_directory: process::maybe_text(self.scratch_directory),
            consensus: match self.consensus {
                Some(consensus) => Some(consensus@),
                None => None,
            },
        }
    }
}

impl FiredancerConfig {
    /// Settings that say the same.
    pub fn duplicate(&self) -> (config: FiredancerConfig)
        ensures
            config@ == self@,
    {
        FiredancerConfig {
            name: duplicate_text(&self.name),
            user: duplicate_text(&self.user),
            scratch_directory: duplicate_text(&self.scratch_directory),
            consensus: match &self.consensus {
                Some(consensus) => Some(
                    ConsensusConfig {
                        identity_path: duplicate_text(&consensus.identity_path),
                        snapshot_fetch: consensus.snapshot_fetch,
                    },
                ),
                None => None,
            },
        }
    }
}

/// Where the effective `snapshot_fetch` setting comes from.
#[derive(Debug, Clone, Copy, PartialEq, Eq, Structural)]
pub enum SnapshotFetchSource {
    Configured,
    FiredancerDefault,
}

/// The status of the service and the validator.
#[derive(Debug, Clone, PartialEq, Eq)]
pub struct StatusReport {
    pub service: String,
    pub validator_state: Option<String>,
    pub running_fdctl_version: Option<String>,
    pub built_fdctl_version: Option<String>,
    pub active_id_key: String,
    pub identity_path: String,
    pub snapshot_fetch: bool,
    pub snapshot_fetch_source: SnapshotFetchSource,
    pub config_path: String,
}

/// What a [`StatusReport`] says.
#[verifier::ext_equal]
pub struct StatusReportView {
    pub service: Seq<char>,
    pub validator_state: Option<Seq<char>>,
    pub running_fdctl_version: Option<Seq<char>>,
    pub built_fdctl_version: Option<Seq<char>>,
    pub active_id_key: Seq<char>,
    pub identity_path: Seq<char>,
    pub snapshot_fetch: bool,
    pub snapshot_fetch_source: SnapshotFetchSource,
    pub config_path: Seq<char>,
}

impl View for StatusReport {
    type V = StatusReportView;

    open spec fn view(&self) -> StatusReportView {
        StatusReportView {
            service: self.service@,
            validator_state: process::maybe_text(self.validator_state),
            running_fdctl_version: process::maybe_text(self.running_fdctl_version),
            built_fdctl_version: process::maybe_text(self.built_fdctl_version),
            active_id_key: self.active_id_key@,
            identity_path: self.identity_path@,
            snapshot_fetch: self.snapshot_fetch,
            snapshot_fetch_source: self.snapshot_fetch_source,
            config_path: self.config_path@,
        }
    }
}

/// A path with Firedancer's placeholders substituted: first the user's, then the name's.
pub open spec fn expanded_path(path: Seq<char>, user: Seq<char>, name: Seq<char>) -> Seq<char> {
    text::replaced_all(text::replaced_all(path, "{user}"@, user), "{name}"@, name)
}

/// Expands Firedancer's supported path placeholders.
pub fn expand_firedancer_path(path: &str, user: &str, name: &str) -> (expanded: String)
    ensures
        expanded@ == expanded_path(path@, user@, name@),
{
    proof {
        reveal_strlit("{user}");
        reveal_strlit("{name}");
    }
    replace_all(replace_all(path, "{user}", user).as_str(), "{name}", name)
}

/// A text that says something, or else another one.
pub open spec fn said_or(text: Option<Seq<char>>, otherwise: Seq<char>) -> Seq<char> {
    match paths::nonempty(text) {
        Some(said) => said,
        None => otherwise,
    }
}

/// Takes a text that says something, or else another one.
fn text_or(text: &Option<String>, otherwise: &str) -> (said: String)
    ensures
        said@ == said_or(process::maybe_text(*text), otherwise@),
{
    match text {
        Some(said) => {
            if said.as_str().is_empty() {
                otherwise.to_owned()
            } else {
                said.clone()
            }
        },
        None => otherwise.to_owned(),
    }
}

/// The identity path that a configuration names, if it names one.
pub open spec fn named_identity(config: FiredancerConfigView) -> Option<Seq<char>> {
    match config.consensus {
        Some(consensus) => paths::nonempty(consensus.identity_path),
        None => None,
    }
}

/// Firedancer's effective identity path: the one that is named, or else `identity.json` in the
/// scratch directory, with placeholders substituted.
pub open spec fn identity_path(config: FiredancerConfigView, username: Seq<char>) -> Seq<char> {
    let user = said_or(config.user, username);
    let name = said_or(config.name, "fd1"@);
    match named_identity(config) {
        Some(path) => expanded_path(path, user, name),
        None => process::path_in(
            expanded_path(
                said_or(config.scratch_directory, "/home/{user}/.firedancer/{name}"@),
                user,
                name,
            ),
            "identity.json"@,
        ),
    }
}

/// The message for an identity path that is not absolute.
pub open spec fn relative_identity_message(path: Seq<char>) -> Seq<char> {
    "effective Firedancer identity path must be absolute, got "@ + path
}

/// Resolves Firedancer's effective identity keypair path.
pub fn resolve_identity_path(config: &FiredancerConfig, paths: &AppPaths) -> (resolved: Result<
    String,
    Failure,
>)
    ensures
        resolved is Ok <==> process::is_absolute(identity_path(config@, paths.username@)),
        (match resolved {
            Ok(path) => path@ == identity_path(config@, paths.username@),
            Err(failure) => failure@ == relative_identity_message(
                identity_path(config@, paths.username@),
            ),
        }),
{
    let user: String = text_or(&config.user, paths.username.as_str());
    let name: String = text_or(&config.name, "fd1");
    let named: Option<String> = match &config.consensus {
        Some(consensus) => match &consensus.identity_path {
            Some(path) => {
                if path.as_str().is_empty() {
                    None
                } else {
                    Some(path.clone())
                }
            },
            None => None,
        },
        None => None,
    };
    let path: String = match named {
        Some(path) => expand_firedancer_path(path.as_str(), user.as_str(), name.as_str()),
        None => {
            let scratch: String = text_or(
                &config.scratch_directory,
                "/home/{user}/.firedancer/{name}",
            );
            let directory: String = expand_firedancer_path(
                scratch.as_str(),
                user.as_str(),
                name.as_str(),
            );
            executable_in(directory.as_str(), "identity.json")
        },
    };
    if absolute(path.as_str()) {
        Ok(path)
    } else {
        Err(
            Failure {
                message: join2(
                    "effective Firedancer identity path must be absolute, got ",
                    path.as_str(),
                ),
            },
        )
    }
}

/// What `serde_json::from_str::<Vec<u8>>` makes of a text: the bytes, or the error's message.
pub uninterp spec fn json_bytes(text: Seq<char>) -> Result<Seq<u8>, Seq<char>>;

/// Calls `serde_json::from_str::<Vec<u8>>` and takes the message of its error. What it accepts and
/// what its messages say is left to that function; both depend on the text alone.
#[verifier::external_body]
fn parse_bytes(text: &str) -> (parsed: Result<Vec<u8>, String>)
    ensures
        json_bytes(text@) == (match parsed {
            Ok(bytes) => Ok::<Seq<u8>, Seq<char>>(bytes@),
            Err(message) => Err::<Seq<u8>, Seq<char>>(message@),
        }),
{
    match serde_json::from_str::<Vec<u8>>(text) {
        Ok(bytes) => Ok(bytes),
        Err(error) => Err(error.to_string()),
    }
}

/// The Ed25519 public key of a secret key, as `ed25519_dalek` derives it.
pub uninterp spec fn ed25519_public(secret: Seq<u8>) -> Seq<u8>;

/// Calls `ed25519_dalek::SigningKey::from_bytes` and takes the bytes of its verifying key. The
/// derivation is left to that crate; it depends on the secret key alone.
#[verifier::external_body]
fn derive_public(secret: &[u8; 32]) -> (public: [u8; 32])
    ensures
        public@ == ed25519_public(secret@),
{
    SigningKey::from_bytes(secret).verifying_key().to_bytes()
}

/// The digits of base 58, in the order of their values.
pub open spec fn base58_alphabet() -> Seq<char> {
    "123456789ABCDEFGHJKLMNPQRSTUVWXYZabcdefghijkmnopqrstuvwxyz"@
}

/// The number that bytes stand for, the most significant byte first.
pub open spec fn big_endian(bytes: Seq<u8>) -> nat
    decreases bytes.len(),
{
    if bytes.len() == 0 {
        0
    } else {
        big_endian(bytes.drop_last()) * 256 + bytes.last() as nat
    }
}

/// The digits of a number in base 58, the most significant digit first; zero has none.
pub open spec fn base58_digits(n: nat) -> Seq<char>
    decreases n,
{
    if n == 0 {
        Seq::empty()
    } else {
        base58_digits(n / 58).push(base58_alphabet()[(n % 58) as int])
    }
}

/// How many zero bytes stand at the front.
pub open spec fn leading_zeros(bytes: Seq<u8>) -> nat
    decreases bytes.len(),
{
    if bytes.len() == 0 || bytes[0] != 0 {
        0
    } else {
        1 + leading_zeros(bytes.drop_first())
    }
}

/// Bytes in base 58: a `1` for every zero byte at the front, then the digits of the number that
/// the bytes stand for.
pub open spec fn base58_text(bytes: Seq<u8>) -> Seq<char> {
    Seq::new(leading_zeros(bytes), |i: int| '1') + base58_digits(big_endian(bytes))
}

/// Calls `bs58::encode` and `into_string`: the bytes in base 58, in Bitcoin's alphabet.
#[verifier::external_body]
fn base58(bytes: &[u8; 32]) -> (encoded: String)
    ensures
        encoded@ == base58_text(bytes@),
{
    bs58::encode(bytes).into_string()
}

/// Calls `zeroize` on a text: its bytes are overwritten and it is left empty.
#[verifier::external_body]
fn wipe_text(text: &mut String)
    ensures
        final(text)@ == Seq::<char>::empty(),
{
    text.zeroize();
}

/// Calls `zeroize` on bytes: they are overwritten and the vector is left empty.
#[verifier::external_body]
fn wipe_bytes(bytes: &mut Vec<u8>)
    ensures
        final(bytes)@ == Seq::<u8>::empty(),
{
    bytes.zeroize();
}

/// Calls `zeroize` on a secret key: every byte is left zero.
#[verifier::external_body]
fn wipe_secret(secret: &mut [u8; 32])
    ensures
        forall|i: int| 0 <= i < 32 ==> final(secret)@[i] == 0u8,
{
    secret.zeroize();
}

/// The message for a keypair of the wrong size.
pub open spec fn keypair_size_message(size: nat, path: Seq<char>) -> Seq<char> {
    "active identity keypair must contain exactly 64 bytes, found "@ + text::decimal(size)
        + " in "@ + path
}

/// The message for a keypair whose halves do not belong together.
pub open spec fn keypair_mismatch_message(path: Seq<char>) -> Seq<char> {
    "active identity keypair has a public key that does not match its private key: "@ + path
}

/// Splits a keypair into its secret and its public half. The secret half is written to where the
/// caller keeps it, and nowhere else.
pub fn split_keypair(
    path: &str,
    keypair: &Vec<u8>,
    secret: &mut [u8; 32],
    public: &mut [u8; 32],
) -> (split: Result<(), Failure>)
    ensures
        split is Ok <==> keypair@.len() == 64,
        (match split {
            Ok(_) => final(secret)@ == keypair@.take(32) && final(public)@ == keypair@.skip(32),
            Err(failure) => failure@ == keypair_size_message(keypair@.len(), path@)
                && final(secret)@ == old(secret)@ && final(public)@ == old(public)@,
        }),
{
    if keypair.len() != 64 {
        return Err(
            Failure {
                message: join4(
                    "active identity keypair must contain exactly 64 bytes, found ",
                    number(keypair.len() as u64).as_str(),
                    " in ",
                    path,
                ),
            },
        );
    }
    let mut at: usize = 0;
    while at < 32
        invariant
            at <= 32,
            keypair@.len() == 64,
            forall|i: int| 0 <= i < at ==> secret@[i] == keypair@[i],
            forall|i: int| 0 <= i < at ==> public@[i] == #[trigger] keypair@.skip(32)[i],
        decreases 32 - at,
    {
        secret[at] = keypair[at];
        public[at] = keypair[at + 32];
        at = at + 1;
    }
    assert(secret@ == keypair@.take(32));
    assert(public@ == keypair@.skip(32));
    Ok(())
}

/// Compares two keys.
fn same_key(left: &[u8; 32], right: &[u8; 32]) -> (same: bool)
    ensures
        same == (left@ == right@),
{
    let mut at: usize = 0;
    while at < 32
        invariant
            at <= 32,
            forall|i: int| 0 <= i < at ==> left@[i] == right@[i],
        decreases 32 - at,
    {
        if left[at] != right[at] {
            assert(left@[at as int] != right@[at as int]);
            return false;
        }
        at = at + 1;
    }
    assert(left@ == right@);
    true
}

/// Names a public key, if it is the one that the secret key has.
pub fn confirmed_key(path: &str, stored: &[u8; 32], derived: &[u8; 32]) -> (key: Result<
    String,
    Failure,
>)
    ensures
        key is Ok <==> stored@ == derived@,
        (match key {
            Ok(k) => k@ == base58_text(derived@),
            Err(failure) => failure@ == keypair_mismatch_message(path@),
        }),
{
    if same_key(stored, derived) {
        Ok(base58(derived))
    } else {
        Err(
            Failure {
                message: join2(
                    "active identity keypair has a public key that does not match its private key: ",
                    path,
                ),
            },
        )
    }
}

/// What a parsed keypair file comes to: the public key in base 58, or why there is none.
pub open spec fn keypair_key(path: Seq<char>, parsed: Result<Seq<u8>, Seq<char>>) -> Result<
    Seq<char>,
    Seq<char>,
> {
    match parsed {
        Err(message) => Err(
            session::in_context("active identity keypair is not valid JSON: "@ + path, message),
        ),
        Ok(keypair) => if keypair.len() != 64 {
            Err(keypair_size_message(keypair.len(), path))
        } else if keypair.skip(32) != ed25519_public(keypair.take(32)) {
            Err(keypair_mismatch_message(path))
        } else {
            Ok(base58_text(keypair.skip(32)))
        },
    }
}

/// What the text of a keypair file comes to.
pub open spec fn identity_key(path: Seq<char>, text: Seq<char>) -> Result<Seq<char>, Seq<char>> {
    keypair_key(path, json_bytes(text))
}

/// Derives the public key of a secret key, and wipes the secret key.
fn spend_secret(secret: &mut [u8; 32]) -> (public: [u8; 32])
    ensures
        public@ == ed25519_public(old(secret)@),
        forall|i: int| 0 <= i < 32 ==> final(secret)@[i] == 0u8,
{
    let public: [u8; 32] = derive_public(secret);
    wipe_secret(secret);
    public
}

/// Validates the bytes of a keypair, names its public key, and wipes the bytes.
pub fn spend_keypair(path: &str, keypair: &mut Vec<u8>) -> (key: Result<String, Failure>)
    ensures
        keypair_key(path@, Ok(old(keypair)@)) == (match key {
            Ok(k) => Ok::<Seq<char>, Seq<char>>(k@),
            Err(failure) => Err::<Seq<char>, Seq<char>>(failure@),
        }),
        final(keypair)@ == Seq::<u8>::empty(),
{
    let mut secret: [u8; 32] = [0; 32];
    let mut public: [u8; 32] = [0; 32];
    let split: Result<(), Failure> = split_keypair(path, keypair, &mut secret, &mut public);
    wipe_bytes(keypair);
    match split {
        Ok(_) => {
            let derived: [u8; 32] = spend_secret(&mut secret);
            confirmed_key(path, &public, &derived)
        },
        Err(failure) => Err(failure),
    }
}

/// Validates the text of a keypair, names its base58 public key, and wipes the text. The bytes of
/// the keypair and its secret half are wiped as well, by [`spend_keypair`].
pub fn spend_key_text(path: &str, text: &mut String) -> (key: Result<String, Failure>)
    ensures
        identity_key(path@, old(text)@) == (match key {
            Ok(k) => Ok::<Seq<char>, Seq<char>>(k@),
            Err(failure) => Err::<Seq<char>, Seq<char>>(failure@),
        }),
        final(text)@ == Seq::<char>::empty(),
{
    let parsed: Result<Vec<u8>, String> = parse_bytes(text.as_str());
    wipe_text(text);
    match parsed {
        Ok(bytes) => {
            let mut keypair: Vec<u8> = bytes;
            spend_keypair(path, &mut keypair)
        },
        Err(message) => {
            let attempt: String = join2("active identity keypair is not valid JSON: ", path);
            Err(with_context(attempt.as_str(), message.as_str()))
        },
    }
}

/// Validates a keypair and returns its base58 public key. The text is wiped.
pub fn public_key_of(path: &str, text: String) -> (key: Result<String, Failure>)
    ensures
        identity_key(path@, text@) == (match key {
            Ok(k) => Ok::<Seq<char>, Seq<char>>(k@),
            Err(failure) => Err::<Seq<char>, Seq<char>>(failure@),
        }),
{
    let mut key_text: String = text;
    spend_key_text(path, &mut key_text)
}

/// Names the public key of a keypair file that was read, or says why it could not be read.
pub fn read_public_key(path: &str, read: Result<String, String>) -> (key: Result<String, Failure>)
    ensures
        (match read {
            Ok(text) => identity_key(path@, text@),
            Err(message) => Err::<Seq<char>, Seq<char>>(
                session::in_context(
                    "could not read active identity keypair "@ + path@,
                    message@,
                ),
            ),
        }) == (match key {
            Ok(k) => Ok::<Seq<char>, Seq<char>>(k@),
            Err(failure) => Err::<Seq<char>, Seq<char>>(failure@),
        }),
{
    match read {
        Ok(text) => public_key_of(path, text),
        Err(message) => {
            let attempt: String = join2("could not read active identity keypair ", path);
            Err(with_context(attempt.as_str(), message.as_str()))
        },
    }
}

/// What a keypair file that was read, or that could not be read, comes to as the reply to someone
/// who asked for its public key.
pub open spec fn identity_answer(
    path: Seq<char>,
    read: Result<Seq<char>, Seq<char>>,
) -> ReplyView {
    match read {
        Ok(text) => match identity_key(path, text) {
            Ok(key) => ReplyView::Text(key),
            Err(message) => ReplyView::Error(message),
        },
        Err(message) => ReplyView::Error(
            session::in_context("could not read active identity keypair "@ + path, message),
        ),
    }
}

/// Answers a request for the public key of a keypair file. The secret half does not become part of
/// the reply, and the text is wiped.
pub fn identity_reply(path: &str, read: Result<String, String>) -> (reply: Reply)
    ensures
        reply@ == identity_answer(
            path@,
            match read {
                Ok(text) => Ok(text@),
                Err(message) => Err(message@),
            },
        ),
{
    match read_public_key(path, read) {
        Ok(key) => Reply::Text(key),
        Err(failure) => Reply::Error(failure.message),
    }
}

/// Permissions as they are shown: four octal digits.
pub open spec fn mode_text(mode: u32) -> Seq<char> {
    seq![
        '0',
        text::digit_char((mode / 64 % 8) as nat),
        text::digit_char((mode / 8 % 8) as nat),
        text::digit_char((mode % 8) as nat),
    ]
}

/// Shows permissions as four octal digits.
pub fn show_mode(mode: u32) -> (shown: String)
    ensures
        shown@ == mode_text(mode),
{
    let mut shown: String = String::new();
    shown.push('0');
    shown.push(octal_digit(mode / 64 % 8));
    shown.push(octal_digit(mode / 8 % 8));
    shown.push(octal_digit(mode % 8));
    assert(shown@ == mode_text(mode));
    shown
}

/// The character of an octal digit.
fn octal_digit(digit: u32) -> (c: char)
    requires
        digit < 8,
    ensures
        c == text::digit_char(digit as nat),
{
    if digit == 0 {
        '0'
    } else if digit == 1 {
        '1'
    } else if digit == 2 {
        '2'
    } else if digit == 3 {
        '3'
    } else if digit == 4 {
        '4'
    } else if digit == 5 {
        '5'
    } else if digit == 6 {
        '6'
    } else {
        '7'
    }
}

/// The warning about a keypair that others may read.
pub open spec fn open_key_warning(path: Seq<char>, mode: u32) -> LogEventView {
    LogEventView::new(
        Level::Warn,
        "val::status"@,
        "identity keypair is accessible by group or other users"@,
    ).shown("path"@, path).shown("mode"@, mode_text(mode))
}

/// Checking the permissions of a keypair: a keypair that group or others may access is warned
/// about. A file that cannot be looked at is passed over.
pub open spec fn permissions_run(t: Transcript, path: Seq<char>) -> Run<()> {
    let seen = t.inspect(path);
    if !seen.done() {
        seen.stop()
    } else {
        match seen.value() {
            InspectedView::Present(facts) => if facts.mode & 0o077 != 0 {
                seen.after.note(open_key_warning(path, facts.mode))
            } else {
                seen.with(())
            },
            _ => seen.with(()),
        }
    }
}

/// Warns when the identity keypair has permissive Unix modes.
pub fn warn_if_key_permissions_are_open(session: &mut Session, path: &str) -> (checked: Result<
    (),
    Halt,
>)
    ensures
        final(session)@ == permissions_run(old(session)@, path@).after,
        permissions_run(old(session)@, path@).end == (match checked {
            Ok(_) => End::Done(()),
            Err(halt) => halt.end(),
        }),
{
    match session.inspect(path)? {
        Inspected::Present(facts) => {
            if facts.mode & 0o077 != 0 {
                session.note(
                    LogEvent::new(
                        Level::Warn,
                        "val::status",
                        "identity keypair is accessible by group or other users",
                    ).shown("path", path).shown("mode", show_mode(facts.mode).as_str()),
                )?;
            }
        },
        _ => {},
    }
    Ok(())
}

/// The effective `snapshot_fetch` setting and where it comes from.
pub open spec fn effective_snapshot_fetch(config: FiredancerConfigView) -> (
    bool,
    SnapshotFetchSource,
) {
    let set = match config.consensus {
        Some(consensus) => consensus.snapshot_fetch,
        None => None,
    };
    match set {
        Some(value) => (value, SnapshotFetchSource::Configured),
        None => (true, SnapshotFetchSource::FiredancerDefault),
    }
}

/// Tells the effective `snapshot_fetch` setting and where it comes from.
pub fn snapshot_fetch_of(config: &FiredancerConfig) -> (setting: (bool, SnapshotFetchSource))
    ensures
        setting == effective_snapshot_fetch(config@),
{
    let set: Option<bool> = match &config.consensus {
        Some(consensus) => consensus.snapshot_fetch,
        None => None,
    };
    match set {
        Some(value) => (value, SnapshotFetchSource::Configured),
        None => (true, SnapshotFetchSource::FiredancerDefault),
    }
}

/// What is known of the service before the report is made.
#[verifier::ext_equal]
pub struct ServiceFacts {
    pub state: ServiceStateView,
    pub running: Option<Seq<char>>,
    pub built: Option<Seq<char>>,
}

/// The report without the validator's startup state.
pub open spec fn report_of(
    config: FiredancerConfigView,
    identity: Seq<char>,
    key: Seq<char>,
    config_path: Seq<char>,
    facts: ServiceFacts,
) -> StatusReportView {
    StatusReportView {
        service: facts.state.name(),
        validator_state: None,
        running_fdctl_version: facts.running,
        built_fdctl_version: facts.built,
        active_id_key: key,
        identity_path: identity,
        snapshot_fetch: effective_snapshot_fetch(config).0,
        snapshot_fetch_source: effective_snapshot_fetch(config).1,
        config_path,
    }
}

/// Loading the report: read and parse the configuration, find the keypair, check its
/// permissions, and name its public key.
pub open spec fn load_run(
    t: Transcript,
    paths: AppPathsView,
    facts: ServiceFacts,
) -> Run<StatusReportView> {
    let read = t.text(RequestView::ReadText(paths.config)).attempting(
        "could not read active Firedancer config "@ + paths.config,
    );
    if !read.done() {
        read.stop()
    } else {
        let parsed = read.after.config(read.value()).attempting(
            "could not parse active Firedancer config "@ + paths.config,
        );
        if !parsed.done() {
            parsed.stop()
        } else {
            let identity = identity_path(parsed.value(), paths.username);
            if !process::is_absolute(identity) {
                Run {
                    after: parsed.after,
                    end: End::Failed(relative_identity_message(identity)),
                }
            } else {
                let checked = permissions_run(parsed.after, identity);
                if !checked.done() {
                    checked.stop()
                } else {
                    let key = checked.after.text(RequestView::IdentityKey(identity));
                    key.with(
                        report_of(parsed.value(), identity, key.value(), paths.config, facts),
                    )
                }
            }
        }
    }
}

/// Asking the GUI once for the startup phase; whatever goes wrong, there is none.
pub open spec fn phase_run(t: Transcript, config_path: Seq<char>) -> Run<Option<Seq<char>>> {
    let found = monitor::url_run(t, config_path);
    match found.end {
        End::Waiting => found.stop(),
        End::Failed(_) => Run { after: found.after, end: End::Done(None) },
        End::Done(url) => found.after.maybe_text(RequestView::CurrentPhase(url)),
    }
}

/// Collecting the report: load it, and add the validator's startup state.
pub open spec fn collect_run(
    t: Transcript,
    paths: AppPathsView,
    facts: ServiceFacts,
) -> Run<StatusReportView> {
    let loaded = load_run(t, paths, facts);
    if !loaded.done() {
        loaded
    } else {
        let phase = phase_run(loaded.after, paths.config);
        phase.with(StatusReportView { validator_state: phase.value(), ..loaded.value() })
    }
}

/// Asks the GUI once for the startup phase.
fn current_phase(session: &mut Session, config_path: &str) -> (phase: Result<Option<String>, Halt>)
    ensures
        final(session)@ == phase_run(old(session)@, config_path@).after,
        phase_run(old(session)@, config_path@).end == (match phase {
            Ok(p) => End::Done(process::maybe_text(p)),
            Err(halt) => halt.end(),
        }),
{
    match websocket_url_from_config(session, config_path) {
        Ok(url) => session.maybe_text(Request::CurrentPhase(url)),
        Err(Halt::Waiting) => Err(Halt::Waiting),
        Err(Halt::Failed(_)) => Ok(None),
    }
}

/// What is known of the service before the report is made.
pub open spec fn service_facts(
    state: ServiceState,
    running: Option<String>,
    built: Option<String>,
) -> ServiceFacts {
    ServiceFacts {
        state: state@,
        running: process::maybe_text(running),
        built: process::maybe_text(built),
    }
}

/// One line of a report that names something, and what it says.
pub open spec fn named_line(name: Seq<char>, value: Seq<char>) -> Seq<char> {
    name + value + "\n"@
}

/// A report for reading.
pub open spec fn human_text(report: StatusReportView) -> Seq<char> {
    named_line("service: "@, report.service) + named_line(
        "validator state: "@,
        report.validator_state.unwrap_or("unavailable"@),
    ) + named_line(
        "running fdctl version: "@,
        report.running_fdctl_version.unwrap_or("not running"@),
    ) + named_line("built fdctl version: "@, report.built_fdctl_version.unwrap_or("not built"@))
        + named_line("active-id key: "@, report.active_id_key) + named_line(
        "identity path: "@,
        report.identity_path,
    ) + named_line(
        "snapshot fetch: "@,
        (if report.snapshot_fetch {
            "enabled"@
        } else {
            "disabled"@
        }) + (match report.snapshot_fetch_source {
            SnapshotFetchSource::Configured => " (configured)"@,
            SnapshotFetchSource::FiredancerDefault => " (Firedancer default)"@,
        }),
    ) + named_line("config: "@, report.config_path)
}

/// Adds one line that names something.
fn with_line(written: String, name: &str, value: &str) -> (longer: String)
    ensures
        longer@ == written@ + named_line(name@, value@),
{
    let line: String = join3(name, value, "\n");
    join2(written.as_str(), line.as_str())
}

/// Takes a text, or what stands for a missing one.
fn shown_or(value: &Option<String>, otherwise: &str) -> (shown: String)
    ensures
        shown@ == process::maybe_text(*value).unwrap_or(otherwise@),
{
    match value {
        Some(text) => text.clone(),
        None => otherwise.to_owned(),
    }
}

impl StatusReport {
    /// Loads service, identity, and snapshot-fetch status.
    pub fn load(
        session: &mut Session,
        paths: &AppPaths,
        service_state: ServiceState,
        running_fdctl_version: Option<String>,
        built_fdctl_version: Option<String>,
    ) -> (report: Result<StatusReport, Halt>)
        ensures
            final(session)@ == load_run(
                old(session)@,
                paths@,
                service_facts(service_state, running_fdctl_version, built_fdctl_version),
            ).after,
            load_run(
                old(session)@,
                paths@,
                service_facts(service_state, running_fdctl_version, built_fdctl_version),
            ).end == (match report {
                Ok(r) => End::Done(r@),
                Err(halt) => halt.end(),
            }),
    {
        let config_path: &str = paths.config.as_str();
        let text: String = match session.text(Request::ReadText(paths.config.clone())) {
            Ok(text) => text,
            Err(halt) => {
                let attempt: String = join2(
                    "could not read active Firedancer config ",
                    config_path,
                );
                return Err(halt.attempting(attempt.as_str()));
            },
        };
        let config: FiredancerConfig = match session.config(text.as_str()) {
            Ok(config) => config,
            Err(halt) => {
                let attempt: String = join2(
                    "could not parse active Firedancer config ",
                    config_path,
                );
                return Err(halt.attempting(attempt.as_str()));
            },
        };
        let identity: String = match resolve_identity_path(&config, paths) {
            Ok(path) => path,
            Err(failure) => {
                return Err(Halt::Failed(failure));
            },
        };
        warn_if_key_permissions_are_open(session, identity.as_str())?;
        let key: String = session.text(Request::IdentityKey(identity.clone()))?;
        let setting: (bool, SnapshotFetchSource) = snapshot_fetch_of(&config);
        Ok(
            StatusReport {
                service: service_state.name(),
                validator_state: None,
                running_fdctl_version,
                built_fdctl_version,
                active_id_key: key,
                identity_path: identity,
                snapshot_fetch: setting.0,
                snapshot_fetch_source: setting.1,
                config_path: paths.config.clone(),
            },
        )
    }

    /// Loads the report and adds the validator's startup state.
    pub fn collect(
        session: &mut Session,
        paths: &AppPaths,
        service_state: ServiceState,
        running_fdctl_version: Option<String>,
        built_fdctl_version: Option<String>,
    ) -> (report: Result<StatusReport, Halt>)
        ensures
            final(session)@ == collect_run(
                old(session)@,
                paths@,
                service_facts(service_state, running_fdctl_version, built_fdctl_version),
            ).after,
            collect_run(
                old(session)@,
                paths@,
                service_facts(service_state, running_fdctl_version, built_fdctl_version),
            ).end == (match report {
                Ok(r) => End::Done(r@),
                Err(halt) => halt.end(),
            }),
    {
        let loaded: StatusReport = StatusReport::load(
            session,
            paths,
            service_state,
            running_fdctl_version,
            built_fdctl_version,
        )?;
        let phase: Option<String> = current_phase(session, paths.config.as_str())?;
        Ok(StatusReport { validator_state: phase, ..loaded })
    }

    /// Renders the report for reading.
    pub fn write_human(&self) -> (written: String)
        ensures
            written@ == human_text(self@),
    {
        let state: String = shown_or(&self.validator_state, "unavailable");
        let running: String = shown_or(&self.running_fdctl_version, "not running");
        let built: String = shown_or(&self.built_fdctl_version, "not built");
        let fetch: String = join2(
            if self.snapshot_fetch {
                "enabled"
            } else {
                "disabled"
            },
            match self.snapshot_fetch_source {
                SnapshotFetchSource::Configured => " (configured)",
                SnapshotFetchSource::FiredancerDefault => " (Firedancer default)",
            },
        );
        let mut written: String = join3("service: ", self.service.as_str(), "\n");
        written = with_line(written, "validator state: ", state.as_str());
        written = with_line(written, "running fdctl version: ", running.as_str());
        written = with_line(written, "built fdctl version: ", built.as_str());
        written = with_line(written, "active-id key: ", self.active_id_key.as_str());
        written = with_line(written, "identity path: ", self.identity_path.as_str());
        written = with_line(written, "snapshot fetch: ", fetch.as_str());
        with_line(written, "config: ", self.config_path.as_str())
    }
}

/// Of a keypair only the public half is named: whatever is reported as the key is the second half
/// of the keypair in base 58, and it belongs to the first half.
pub proof fn law_only_the_public_half_is_named(path: Seq<char>, text: Seq<char>)
    ensures
        identity_key(path, text) matches Ok(key) ==> {
            &&& json_bytes(text) matches Ok(keypair)
            &&& keypair.len() == 64
            &&& keypair.skip(32) == ed25519_public(keypair.take(32))
            &&& key == base58_text(keypair.skip(32))
        },
{
}

/// Two keypair files with the same public half are reported in the same way, whatever their secret
/// halves are, as long as both are valid.
pub proof fn law_secret_half_is_not_reported(path: Seq<char>, left: Seq<char>, right: Seq<char>)
    requires
        identity_key(path, left) is Ok,
        identity_key(path, right) is Ok,
        json_bytes(left)->Ok_0.skip(32) == json_bytes(right)->Ok_0.skip(32),
    ensures
        identity_key(path, left) == identity_key(path, right),
{
}

/// The key of a report is that of the keypair file that the report names: a report that was loaded
/// has asked for the key of its identity path last, and where the answer is what that file comes
/// to, the report holds its public key, or fails with the reason why there is none.
pub proof fn law_report_names_the_key_of_its_keypair(
    t: Transcript,
    paths: AppPathsView,
    facts: ServiceFacts,
    path: Seq<char>,
    read: Result<Seq<char>, Seq<char>>,
)
    ensures
        ({
            let run = load_run(t, paths, facts);
            let asked = run.after.asked;
            let answered = t.asked.len() < asked.len() <= t.replies.len() && asked.last()
                == RequestView::IdentityKey(path) && t.replies[asked.len() - 1] == identity_answer(
                path,
                read,
            );
            &&& run.done() ==> asked.last() == RequestView::IdentityKey(run.value().identity_path)
            &&& answered ==> match identity_answer(path, read) {
                ReplyView::Text(key) => run.done() && run.value().active_id_key == key
                    && run.value().identity_path == path,
                ReplyView::Error(message) => run.end == End::<StatusReportView>::Failed(message),
                _ => false,
            }
        }),
{
}

/// A GUI that is disabled, down, or silent costs the report nothing but the validator's state.
pub proof fn law_report_does_not_need_the_gui(
    t: Transcript,
    paths: AppPathsView,
    facts: ServiceFacts,
)
    requires
        load_run(t, paths, facts).done(),
        !(collect_run(t, paths, facts).end is Waiting),
    ensures
        collect_run(t, paths, facts).done(),
        collect_run(t, paths, facts).value() == (StatusReportView {
            validator_state: collect_run(t, paths, facts).value().validator_state,
            ..load_run(t, paths, facts).value()
        }),
        monitor::url_run(load_run(t, paths, facts).after, paths.config).end is Failed
            ==> collect_run(t, paths, facts).value().validator_state is None,
{
}

/// The user that a configuration names is substituted wherever `{user}` stands, in a named path and in
/// the scratch directory alike: whoever runs the command then makes no difference. The operator's name
/// is substituted only if no user is configured, and then exactly as a configured one would be. A
/// setting that is empty is as good as none.
pub proof fn law_the_configured_user_decides(
    config: FiredancerConfigView,
    operator: Seq<char>,
    other: Seq<char>,
)
    ensures
        config.user is Some && config.user->0.len() > 0 ==> identity_path(config, operator)
            == identity_path(config, other),
        (config.user is None || config.user->0.len() == 0) && operator.len() > 0 ==> identity_path(
            config,
            operator,
        ) == identity_path(
            (FiredancerConfigView { user: Some(operator), ..config }),
            other,
        ),
        config.user == Some(Seq::<char>::empty()) ==> identity_path(config, operator)
            == identity_path((FiredancerConfigView { user: None, ..config }), operator),
        config.name == Some(Seq::<char>::empty()) ==> identity_path(config, operator)
            == identity_path((FiredancerConfigView { name: None, ..config }), operator),
        config.name is None ==> identity_path(config, operator) == identity_path(
            (FiredancerConfigView { name: Some(seq!['f', 'd', '1']), ..config }),
            operator,
        ),
        config.scratch_directory == Some(Seq::<char>::empty()) ==> identity_path(config, operator)
            == identity_path(
            (FiredancerConfigView { scratch_directory: None, ..config }),
            operator,
        ),
{
    reveal_strlit("fd1");
    assert("fd1"@ == seq!['f', 'd', '1']);
}

/// A text without a brace holds no placeholder.
proof fn lemma_no_placeholder(path: Seq<char>, user: Seq<char>, name: Seq<char>)
    requires
        !path.contains('{'),
    ensures
        expanded_path(path, user, name) == path,
{
    reveal_strlit("{user}");
    reveal_strlit("{name}");
    text::law_patterns_are_exchanged(path, "{user}"@, Seq::empty(), user);
    text::law_patterns_are_exchanged(path, "{name}"@, Seq::empty(), name);
}

/// A path with one `{user}` in it names the user there.
proof fn lemma_user_placeholder(
    before: Seq<char>,
    after: Seq<char>,
    user: Seq<char>,
    name: Seq<char>,
)
    requires
        !before.contains('{'),
        !after.contains('{'),
        !user.contains('{'),
    ensures
        expanded_path(before + "{user}"@ + after, user, name) == before + user + after,
{
    reveal_strlit("{user}");
    reveal_strlit("{name}");
    text::law_patterns_are_exchanged(before, "{user}"@, after, user);
    text::law_patterns_are_exchanged(after, "{user}"@, Seq::empty(), user);
    let whole = before + user + after;
    assert forall|i: int| 0 <= i < whole.len() implies whole[i] != '{' by {
        if i < before.len() {
            assert(before.contains(before[i]));
        } else if i < before.len() + user.len() {
            assert(user.contains(user[i - before.len()]));
        } else {
            assert(after.contains(after[i - before.len() - user.len()]));
        }
    }
    assert(!whole.contains('{'));
    text::law_patterns_are_exchanged(whole, "{name}"@, Seq::empty(), name);
}

/// The placeholders of a path are filled in where they stand, the user's with the user and the name's
/// with the instance's name, and the rest of the path stays as it is.
pub proof fn law_placeholders_are_filled_in(
    config: FiredancerConfigView,
    operator: Seq<char>,
    before: Seq<char>,
    after: Seq<char>,
    user: Seq<char>,
)
    requires
        !before.contains('{'),
        !after.contains('{'),
        !user.contains('{'),
        user.len() > 0,
        config.user == Some(user) || (config.user is None && operator == user),
    ensures
        (config.consensus matches Some(consensus) && consensus.identity_path == Some(
            before + "{user}"@ + after,
        )) ==> identity_path(config, operator) == before + user + after,
        (config.consensus is None || config.consensus->0.identity_path is None)
            && config.scratch_directory == Some(before + "{user}"@ + after) ==> identity_path(
            config,
            operator,
        ) == process::path_in(before + user + after, "identity.json"@),
        before.len() > 0 && (config.consensus matches Some(consensus) && consensus.identity_path
            == Some(before)) ==> identity_path(config, operator) == before,
        before.len() > 0 && (config.consensus is None || config.consensus->0.identity_path is None)
            && config.scratch_directory == Some(before) ==> identity_path(config, operator)
            == process::path_in(before, "identity.json"@),
{
    reveal_strlit("{user}");
    let name = said_or(config.name, "fd1"@);
    lemma_user_placeholder(before, after, user, name);
    lemma_no_placeholder(before, user, name);
    assert((before + "{user}"@ + after).len() > 0);
}

/// Without a named path and a scratch directory the keypair is in the user's home, under the
/// instance's name, which is `fd1` if none is configured.
pub proof fn law_the_default_keypair_is_at_home(
    config: FiredancerConfigView,
    operator: Seq<char>,
    user: Seq<char>,
    name: Seq<char>,
)
    requires
        !user.contains('{'),
        !name.contains('{'),
        user.len() > 0,
        name.len() > 0,
        name.last() != '/',
        config.user == Some(user) || (config.user is None && operator == user),
        config.name == Some(name) || (config.name is None && name == seq!['f', 'd', '1']),
        config.scratch_directory is None,
        config.consensus is None || config.consensus->0.identity_path is None,
    ensures
        identity_path(config, operator) == "/home/"@ + user + "/.firedancer/"@ + name
            + "/identity.json"@,
{
    reveal_strlit("fd1");
    reveal_strlit("{user}");
    reveal_strlit("{name}");
    reveal_strlit("/home/");
    reveal_strlit("/.firedancer/");
    reveal_strlit("/home/{user}/.firedancer/{name}");
    reveal_strlit("identity.json");
    reveal_strlit("/");
    reveal_strlit("/identity.json");
    assert("fd1"@ == seq!['f', 'd', '1']);
    let default = "/home/{user}/.firedancer/{name}"@;
    let home = "/home/"@;
    let middle = "/.firedancer/"@;
    assert(default == home + "{user}"@ + (middle + "{name}"@));
    assert forall|i: int| 0 <= i < home.len() implies home[i] != '{' by {}
    assert forall|i: int| 0 <= i < middle.len() implies middle[i] != '{' by {}
    assert(!home.contains('{'));
    assert(!middle.contains('{'));
    text::law_patterns_are_exchanged(home, "{user}"@, middle + "{name}"@, user);
    lemma_user_is_no_name(middle, user);
    assert(text::replaced_all(default, "{user}"@, user) == home + user + (middle + "{name}"@));
    let front = home + user + middle;
    assert forall|i: int| 0 <= i < front.len() implies front[i] != '{' by {
        if home.len() <= i < home.len() + user.len() {
            assert(user.contains(user[i - home.len()]));
        }
    }
    assert(!front.contains('{'));
    assert(home + user + (middle + "{name}"@) == front + "{name}"@ + Seq::<char>::empty());
    text::law_patterns_are_exchanged(front, "{name}"@, Seq::empty(), name);
    text::law_patterns_are_exchanged(Seq::empty(), "{name}"@, Seq::empty(), name);
    let directory = front + name;
    assert(front + name + Seq::<char>::empty() == directory);
    assert(expanded_path(default, user, name) == directory);
    assert(directory.last() == name.last());
    lemma_path_below(directory);
    assert("/"@ + "identity.json"@ == "/identity.json"@);
    assert(directory + "/"@ + "identity.json"@ == directory + ("/"@ + "identity.json"@));
}

/// A name's placeholder is no user's.
proof fn lemma_user_is_no_name(middle: Seq<char>, user: Seq<char>)
    requires
        !middle.contains('{'),
    ensures
        text::replaced_all(middle + "{name}"@, "{user}"@, user) == middle + "{name}"@,
    decreases middle.len(),
{
    reveal_strlit("{user}");
    reveal_strlit("{name}");
    let pattern = "{user}"@;
    let whole = middle + "{name}"@;
    if middle.len() == 0 {
        assert(whole == "{name}"@);
        assert(whole.subrange(0, 6)[1] == 'n');
        assert(!pattern.is_prefix_of(whole));
        let rest = whole.drop_first();
        assert(rest == seq!['n', 'a', 'm', 'e', '}']);
        assert(!rest.contains('{'));
        text::law_patterns_are_exchanged(rest, pattern, Seq::empty(), user);
        assert(seq![whole[0]] + rest == whole);
    } else {
        let shorter = middle.drop_first();
        assert(!shorter.contains('{')) by {
            if shorter.contains('{') {
                let i = choose|i: int| 0 <= i < shorter.len() && shorter[i] == '{';
                assert(middle[i + 1] == '{');
            }
        }
        lemma_user_is_no_name(shorter, user);
        assert(middle.contains(middle[0]));
        assert(whole[0] == middle[0]);
        assert(!pattern.is_prefix_of(whole)) by {
            if pattern.is_prefix_of(whole) {
                assert(whole.subrange(0, 6)[0] == whole[0]);
            }
        }
        assert(whole.drop_first() == shorter + "{name}"@);
        assert(seq![whole[0]] + whole.drop_first() == whole);
    }
}

/// What is below a directory is relative to it.
proof fn lemma_path_below(directory: Seq<char>)
    requires
        directory.len() > 0,
    ensures
        directory.last() != '/' ==> process::path_in(directory, "identity.json"@) == directory
            + "/"@ + "identity.json"@,
{
    reveal_strlit("identity.json");
    reveal_strlit("/");
    assert("identity.json"@[0] == 'i');
}

/// A report is loaded from the active configuration: the file is read and parsed, the keypair that it
/// leads to is looked at, and the key of that same file is asked for. A path that is not absolute ends
/// the run before any keypair is looked at.
pub proof fn law_reports_are_loaded_from_the_configuration(
    t: Transcript,
    paths: AppPathsView,
    facts: ServiceFacts,
    text: Seq<char>,
    config: FiredancerConfigView,
)
    requires
        t.asked.len() + 2 < t.replies.len(),
        t.replies[t.asked.len() as int] == ReplyView::Text(text),
        t.replies[t.asked.len() as int + 1] == ReplyView::Config(config),
    ensures
        ({
            let run = load_run(t, paths, facts);
            let identity = identity_path(config, paths.username);
            let place = t.asked.len() as int;
            let rooted = identity.len() > 0 && identity[0] == '/';
            let open = t.replies[place + 2] matches ReplyView::Facts(seen) && (seen.mode & 0o040
                != 0 || seen.mode & 0o020 != 0 || seen.mode & 0o010 != 0 || seen.mode & 0o004 != 0
                || seen.mode & 0o002 != 0 || seen.mode & 0o001 != 0);
            &&& run.after.asked[place] == RequestView::ReadText(paths.config)
            &&& run.after.asked[place + 1] == RequestView::ParseConfig(text)
            &&& !rooted ==> run.after.asked.len() == place + 2 && run.end == End::<
                StatusReportView,
            >::Failed(
                "effective Firedancer identity path must be absolute, got "@ + identity,
            )
            &&& rooted ==> run.after.asked.len() >= place + 3 && run.after.asked[place + 2]
                == RequestView::Inspect(identity)
            &&& rooted && open ==> run.after.asked.len() >= place + 4 && (run.after.asked[place
                + 3] matches RequestView::Log(event) && event.level is Warn)
            &&& rooted && !open && (t.replies[place + 2] is Facts || t.replies[place + 2]
                is NotFound) ==> run.after.asked.len() == place + 4 && run.after.asked[place + 3]
                == RequestView::IdentityKey(identity)
            &&& run.done() ==> {
                &&& rooted
                &&& run.after.asked.last() == RequestView::IdentityKey(identity)
                &&& run.value().identity_path == identity
                &&& run.value().config_path == paths.config
                &&& run.value().service == facts.state.name()
                &&& run.value().running_fdctl_version == facts.running
                &&& run.value().built_fdctl_version == facts.built
                &&& run.value().validator_state is None
                &&& run.value().snapshot_fetch <==> !(config.consensus is Some
                    && config.consensus->0.snapshot_fetch == Some(false))
                &&& run.value().snapshot_fetch_source is Configured <==> config.consensus is Some
                    && config.consensus->0.snapshot_fetch is Some
            }
        }),
{
    if let ReplyView::Facts(seen) = t.replies[t.asked.len() as int + 2] {
        let mode = seen.mode;
        assert(mode & 0o077 != 0 <==> (mode & 0o040 != 0 || mode & 0o020 != 0 || mode & 0o010 != 0
            || mode & 0o004 != 0 || mode & 0o002 != 0 || mode & 0o001 != 0)) by (bit_vector);
    }
    let read = t.text(RequestView::ReadText(paths.config));
    assert(read.after.asked.len() == t.asked.len() + 1);
    let parsed = read.after.config(text);
    assert(parsed.after.asked.len() == t.asked.len() + 2);
}

/// Permissions are shown in octal, a digit each for the owner, the group, and the others.
pub proof fn law_modes_are_octal(owner: u32, group: u32, others: u32, kind: u32)
    requires
        owner < 8,
        group < 8,
        others < 8,
        kind <= 0x7fff,
    ensures
        mode_text((kind * 512 + owner * 64 + group * 8 + others) as u32) == seq![
            '0',
            text::digit_char(owner as nat),
            text::digit_char(group as nat),
            text::digit_char(others as nat),
        ],
{
    let mode = (kind * 512 + owner * 64 + group * 8 + others) as u32;
    assert(mode / 64 % 8 == owner && mode / 8 % 8 == group && mode % 8 == others) by (
    nonlinear_arith)
        requires
            mode == kind * 512 + owner * 64 + group * 8 + others,
            owner < 8,
            group < 8,
            others < 8,
    ;
}

/// A collected report adds the startup phase that the GUI at the configured URL gives, if it gives one,
/// to the loaded report.
pub proof fn law_reports_ask_the_gui_for_the_phase(
    t: Transcript,
    paths: AppPathsView,
    facts: ServiceFacts,
)
    requires
        load_run(t, paths, facts).done(),
    ensures
        ({
            let loaded = load_run(t, paths, facts);
            let found = monitor::url_run(loaded.after, paths.config);
            let run = collect_run(t, paths, facts);
            found.done() ==> {
                &&& run.after.asked == found.after.asked.push(
                    RequestView::CurrentPhase(found.value()),
                )
                &&& found.after.reply() matches Some(ReplyView::MaybeText(phase)) ==> run.done()
                    && run.value() == (StatusReportView {
                    validator_state: phase,
                    ..loaded.value()
                })
                &&& found.after.reply() matches Some(ReplyView::Error(_)) ==> run.done()
                    && run.value().validator_state is None
            }
        }),
{
}

/// A report for reading has a line for each of its facts, in a fixed order; what is not known is said
/// to be unavailable, not running, or not built.
pub proof fn law_reports_name_every_fact(report: StatusReportView)
    ensures
        human_text(report) == "service: "@ + report.service + seq!['\n'] + "validator state: "@ + (
        match report.validator_state {
            Some(state) => state,
            None => "unavailable"@,
        }) + seq!['\n'] + "running fdctl version: "@ + (match report.running_fdctl_version {
            Some(version) => version,
            None => "not running"@,
        }) + seq!['\n'] + "built fdctl version: "@ + (match report.built_fdctl_version {
            Some(version) => version,
            None => "not built"@,
        }) + seq!['\n'] + "active-id key: "@ + report.active_id_key + seq!['\n']
            + "identity path: "@ + report.identity_path + seq!['\n'] + "snapshot fetch: "@ + (
        if report.snapshot_fetch {
            "enabled"@
        } else {
            "disabled"@
        }) + (if report.snapshot_fetch_source is Configured {
            " (configured)"@
        } else {
            " (Firedancer default)"@
        }) + seq!['\n'] + "config: "@ + report.config_path + seq!['\n'],
{
    reveal_strlit("\n");
    assert("\n"@ == seq!['\n']);
    let state = report.validator_state.unwrap_or("unavailable"@);
    let running = report.running_fdctl_version.unwrap_or("not running"@);
    let built = report.built_fdctl_version.unwrap_or("not built"@);
    let setting = if report.snapshot_fetch {
        "enabled"@
    } else {
        "disabled"@
    };
    let source = match report.snapshot_fetch_source {
        SnapshotFetchSource::Configured => " (configured)"@,
        SnapshotFetchSource::FiredancerDefault => " (Firedancer default)"@,
    };
    let one = named_line("service: "@, report.service);
    lemma_line_added(one, "validator state: "@, state);
    let two = one + named_line("validator state: "@, state);
    lemma_line_added(two, "running fdctl version: "@, running);
    let three = two + named_line("running fdctl version: "@, running);
    lemma_line_added(three, "built fdctl version: "@, built);
    let four = three + named_line("built fdctl version: "@, built);
    lemma_line_added(four, "active-id key: "@, report.active_id_key);
    let five = four + named_line("active-id key: "@, report.active_id_key);
    lemma_line_added(five, "identity path: "@, report.identity_path);
    let six = five + named_line("identity path: "@, report.identity_path);
    lemma_line_added(six, "snapshot fetch: "@, setting + source);
    assert(six + "snapshot fetch: "@ + (setting + source) == six + "snapshot fetch: "@ + setting
        + source);
    let seven = six + named_line("snapshot fetch: "@, setting + source);
    lemma_line_added(seven, "config: "@, report.config_path);
}

/// A line that is added is its name, its value, and a line end.
proof fn lemma_line_added(front: Seq<char>, name: Seq<char>, value: Seq<char>)
    ensures
        front + named_line(name, value) == front + name + value + "\n"@,
{
    assert(front + (name + value + "\n"@) == front + name + value + "\n"@);
}

/// What a digit of base 58 is worth: the digits, then the capitals, then the small letters, without
/// the zero, the capital I and O, and the small l.
pub open spec fn base58_worth(c: char) -> int {
    if c <= '9' {
        c as int - '1' as int
    } else if c <= 'H' {
        9 + (c as int - 'A' as int)
    } else if c <= 'N' {
        17 + (c as int - 'J' as int)
    } else if c <= 'Z' {
        22 + (c as int - 'P' as int)
    } else if c <= 'k' {
        33 + (c as int - 'a' as int)
    } else {
        44 + (c as int - 'm' as int)
    }
}

/// The number that digits of base 58 stand for.
pub open spec fn base58_value(digits: Seq<char>) -> int
    decreases digits.len(),
{
    if digits.len() == 0 {
        0
    } else {
        base58_value(digits.drop_last()) * 58 + base58_worth(digits.last())
    }
}

/// A digit is worth its place in the alphabet.
proof fn lemma_base58_digit(digit: nat)
    requires
        digit < 58,
    ensures
        base58_worth(base58_alphabet()[digit as int]) == digit,
{
    reveal_strlit("123456789ABCDEFGHJKLMNPQRSTUVWXYZabcdefghijkmnopqrstuvwxyz");
    let alphabet = base58_alphabet();
    assert(alphabet.len() == 58);
    let at = digit as int;
    if at < 9 {
        assert(alphabet[at] as int == '1' as int + at);
    } else if at < 17 {
        assert(alphabet[at] as int == 'A' as int + at - 9);
    } else if at < 22 {
        assert(alphabet[at] as int == 'J' as int + at - 17);
    } else if at < 33 {
        assert(alphabet[at] as int == 'P' as int + at - 22);
    } else if at < 44 {
        assert(alphabet[at] as int == 'a' as int + at - 33);
    } else {
        assert(alphabet[at] as int == 'm' as int + at - 44);
    }
}

/// A number's digits in base 58 stand for that number, and the first of them is not a zero.
pub proof fn law_base58_digits_stand_for_their_number(n: nat)
    ensures
        base58_value(base58_digits(n)) == n,
        n > 0 ==> base58_digits(n).len() > 0 && base58_worth(base58_digits(n)[0]) > 0,
    decreases n,
{
    if n > 0 {
        law_base58_digits_stand_for_their_number(n / 58);
        lemma_base58_digit(n % 58);
        let front = base58_digits(n / 58);
        let digits = base58_digits(n);
        assert(digits.drop_last() == front);
        assert(n == (n / 58) * 58 + n % 58) by (nonlinear_arith);
        if n / 58 == 0 {
            assert(front.len() == 0);
            assert(digits[0] == digits.last());
        } else {
            assert(digits[0] == front[0]);
        }
    }
}

/// Bytes in base 58 have a `1` for each zero byte at the front, followed by the digits of the number
/// that the bytes stand for, the first byte being worth most.
pub proof fn law_keys_are_written_in_base58(zeros: nat, bytes: Seq<u8>)
    requires
        bytes.len() == 0 || bytes[0] != 0,
    ensures
        base58_text(Seq::new(zeros, |i: int| 0u8) + bytes) == Seq::new(zeros, |i: int| '1')
            + base58_digits(big_endian(bytes)),
        forall|byte: u8|
            big_endian(#[trigger] bytes.push(byte)) == big_endian(bytes) * 256 + byte,
        big_endian(Seq::empty()) == 0,
{
    lemma_zeros_lead(zeros, bytes);
    let whole = Seq::new(zeros, |i: int| 0u8) + bytes;
    assert forall|byte: u8|
        big_endian(#[trigger] bytes.push(byte)) == big_endian(bytes) * 256 + byte by {
        assert(bytes.push(byte).drop_last() == bytes);
    }
    assert(leading_zeros(whole) == zeros);
}

/// Zero bytes at the front are counted and add nothing to the number.
proof fn lemma_zeros_lead(zeros: nat, bytes: Seq<u8>)
    requires
        bytes.len() == 0 || bytes[0] != 0,
    ensures
        leading_zeros(Seq::new(zeros, |i: int| 0u8) + bytes) == zeros,
        big_endian(Seq::new(zeros, |i: int| 0u8) + bytes) == big_endian(bytes),
    decreases zeros,
{
    let whole = Seq::new(zeros, |i: int| 0u8) + bytes;
    if zeros == 0 {
        assert(whole == bytes);
    } else {
        let fewer = Seq::new((zeros - 1) as nat, |i: int| 0u8) + bytes;
        assert(whole.drop_first() == fewer);
        lemma_zeros_lead((zeros - 1) as nat, bytes);
        lemma_zero_first(fewer);
        assert(seq![0u8] + fewer == whole);
    }
}

/// A zero byte in front adds nothing.
proof fn lemma_zero_first(bytes: Seq<u8>)
    ensures
        big_endian(seq![0u8] + bytes) == big_endian(bytes),
    decreases bytes.len(),
{
    let whole = seq![0u8] + bytes;
    if bytes.len() == 0 {
        assert(whole.drop_last() == Seq::<u8>::empty());
        assert(big_endian(whole.drop_last()) == 0);
    } else {
        lemma_zero_first(bytes.drop_last());
        assert(whole.drop_last() == seq![0u8] + bytes.drop_last());
        assert(whole.last() == bytes.last());
    }
}

/// A keypair file holds sixty-four numbers whose second half is the public key of the first. Anything
/// else is an error that names the file and never holds a byte of it.
pub proof fn law_keypairs_are_checked(path: Seq<char>, keypair: Seq<u8>, message: Seq<char>)
    ensures
        keypair_key(path, Ok(keypair)) is Ok <==> keypair.len() == 64 && keypair.subrange(32, 64)
            == ed25519_public(keypair.subrange(0, 32)),
        keypair_key(path, Ok(keypair)) matches Ok(key) ==> key == base58_text(
            keypair.subrange(32, 64),
        ),
        keypair.len() != 64 ==> keypair_key(path, Ok(keypair)) == Err::<Seq<char>, Seq<char>>(
            "active identity keypair must contain exactly 64 bytes, found "@ + text::decimal(
                keypair.len(),
            ) + " in "@ + path,
        ),
        keypair.len() == 64 && keypair_key(path, Ok(keypair)) is Err ==> keypair_key(
            path,
            Ok(keypair),
        ) == Err::<Seq<char>, Seq<char>>(
            "active identity keypair has a public key that does not match its private key: "@
                + path,
        ),
        keypair_key(path, Err(message)) == Err::<Seq<char>, Seq<char>>(
            "active identity keypair is not valid JSON: "@ + path + ": "@ + message,
        ),
        identity_answer(path, Err(message)) == ReplyView::Error(
            "could not read active identity keypair "@ + path + ": "@ + message,
        ),
{
    if keypair.len() == 64 {
        assert(keypair.skip(32) == keypair.subrange(32, 64));
        assert(keypair.take(32) == keypair.subrange(0, 32));
    }
}

/// A report fails to load only if the configuration cannot be read or parsed, the identity path is not
/// absolute, or the keypair has no key to name. A keypair that cannot be looked at, and one that others
/// may read, are no reasons.
pub proof fn law_reports_fail_only_for_a_reason(
    t: Transcript,
    paths: AppPathsView,
    facts: ServiceFacts,
)
    requires
        load_run(t, paths, facts).end is Failed,
    ensures
        ({
            let after = load_run(t, paths, facts).after;
            let last = after.asked.len() - 1;
            let reply = t.replies[last];
            &&& t.asked.len() <= last < t.replies.len()
            &&& match after.asked[last] {
                RequestView::ReadText(path) => path == paths.config && !(reply is Text),
                RequestView::ParseConfig(_) => !(reply is Config) || !process::is_absolute(
                    identity_path(reply->Config_0, paths.username),
                ),
                RequestView::IdentityKey(_) => !(reply is Text),
                RequestView::Inspect(_) => !(reply is Facts) && !(reply is NotFound) && !(reply
                    is Error),
                _ => false,
            }
        }),
{
    let read = t.text(RequestView::ReadText(paths.config));
    let parsed = read.after.config(read.value());
    assert(read.after.asked.last() == RequestView::ReadText(paths.config));
    assert(parsed.after.asked.last() == RequestView::ParseConfig(read.value()));
}

/// The user's placeholder is filled in before the name's: a user that holds the name's placeholder has it
/// filled in too, and a name that holds the user's placeholder keeps it.
pub proof fn law_users_are_filled_in_before_names(user: Seq<char>, name: Seq<char>)
    ensures
        expanded_path("{user}"@, "{name}"@, name) == name,
        expanded_path("{name}"@, user, "{user}"@) == "{user}"@,
{
    reveal_strlit("{user}");
    reveal_strlit("{name}");
    let none = Seq::<char>::empty();
    assert(none + "{user}"@ + none == "{user}"@);
    assert(none + "{name}"@ + none == "{name}"@);
    text::law_patterns_are_exchanged(none, "{user}"@, none, "{name}"@);
    text::law_patterns_are_exchanged(none, "{name}"@, none, name);
    assert(none + "{name}"@ + text::replaced_all(none, "{user}"@, "{name}"@) == "{name}"@);
    assert(none + name + none == name);
    lemma_user_is_no_name(none, user);
    text::law_patterns_are_exchanged(none, "{name}"@, none, "{user}"@);
    assert(none + "{name}"@ == "{name}"@);
}

/// What is known of a service goes into its report as it is.
pub proof fn law_facts_are_what_was_read(
    state: ServiceState,
    running: Option<String>,
    built: Option<String>,
)
    ensures
        service_facts(state, running, built).state == state@,
        running matches Some(version) ==> service_facts(state, running, built).running == Some(
            version@,
        ),
        built matches Some(version) ==> service_facts(state, running, built).built == Some(
            version@,
        ),
        running is None ==> service_facts(state, running, built).running is None,
        built is None ==> service_facts(state, running, built).built is None,
{
}

} // verus!
