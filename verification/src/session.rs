//! Procedures as functions of the replies they have received.
//!
//! A procedure asks for effects by way of [`Request`]s and decides by the [`Reply`] to each. It
//! runs over a [`Session`], which holds the replies known so far: the n-th request is answered by
//! the n-th reply. A request without a reply ends the run as [`Halt::Waiting`]; whoever runs the
//! procedure then performs [`Session::pending`], appends its reply, and runs the procedure again.
//! The requests that were already answered are made again in the same order, which
//! [`Run::resumed_by`] states.

use vstd::prelude::*;

use crate::logging::{LogEvent, LogEventView};
use crate::monitor::{GuiConfig, GuiConfigView};
use crate::process::{CommandOutcome, CommandOutcomeView, CommandSpec, CommandSpecView};
use crate::process;
use crate::process::duplicate_text;
use crate::status::{FiredancerConfig, FiredancerConfigView, StatusReport, StatusReportView};
use crate::text::join3;

verus! {

/// Why something could not be done.
#[derive(Debug, Clone, PartialEq, Eq)]
pub struct Failure {
    pub message: String,
}

impl View for Failure {
    type V = Seq<char>;

    open spec fn view(&self) -> Seq<char> {
        self.message@
    }
}

/// A cause with what was being attempted before it.
pub open spec fn in_context(attempt: Seq<char>, cause: Seq<char>) -> Seq<char> {
    attempt + ": "@ + cause
}

/// Puts what was being attempted before a cause.
pub fn with_context(attempt: &str, cause: &str) -> (failure: Failure)
    ensures
        failure@ == in_context(attempt@, cause@),
{
    Failure { message: join3(attempt, ": ", cause) }
}

/// What the file system says of a path.
#[derive(Debug, Clone, Copy, PartialEq, Eq, Structural)]
pub struct FileFacts {
    pub is_file: bool,
    pub is_dir: bool,
    pub mode: u32,
}

impl FileFacts {
    /// A file that someone may execute.
    pub open spec fn runnable(self) -> bool {
        self.is_file && self.mode & 0o111 != 0
    }

    /// Whether this is a file that someone may execute.
    pub fn is_runnable(&self) -> (found: bool)
        ensures
            found == self.runnable(),
    {
        self.is_file && self.mode & 0o111 != 0
    }
}

/// An entry of the user database.
#[derive(Debug, Clone, PartialEq, Eq)]
pub struct Account {
    pub name: String,
    pub home: String,
}

/// What an [`Account`] says.
#[verifier::ext_equal]
pub struct AccountView {
    pub name: Seq<char>,
    pub home: Seq<char>,
}

impl View for Account {
    type V = AccountView;

    open spec fn view(&self) -> AccountView {
        AccountView { name: self.name@, home: self.home@ }
    }
}

/// An environment variable that a procedure reads.
#[derive(Debug, Clone, Copy, PartialEq, Eq, Structural)]
pub enum Variable {
    SudoUser,
    User,
    Home,
}

/// An effect that a procedure asks for.
#[derive(Debug, Clone, PartialEq, Eq)]
pub enum Request {
    /// Run a command and capture its output.
    Capture(CommandSpec),
    /// Run a command while relaying and logging its output.
    Streaming(CommandSpec),
    /// Run a command attached to the terminal.
    Interactive(CommandSpec),
    /// Look at a path.
    Inspect(String),
    /// Remove a directory tree, if it exists.
    RemoveTree(String),
    /// Read the monotonic clock.
    Now,
    /// Read an environment variable.
    Variable(Variable),
    /// Name the current directory.
    WorkingDirectory,
    /// Look up the effective user.
    EffectiveAccount,
    /// Look up a user by name.
    NamedAccount(String),
    /// Read a text file.
    ReadText(String),
    /// Parse a configuration for its GUI settings.
    ParseGui(String),
    /// Parse a configuration for the settings that the status depends on.
    ParseConfig(String),
    /// Read the keypair at a path and name its public key.
    IdentityKey(String),
    /// Ask the GUI at a URL once for the current startup phase.
    CurrentPhase(String),
    /// Log an event.
    Log(LogEvent),
    /// Print a line.
    PrintLine(String),
    /// Show that a stage is running.
    BeginStage(String),
    /// Show how the running stage ended.
    FinishStage(String),
    /// Print a status report, as JSON or for reading.
    ShowStatus(StatusReport, bool),
    /// Watch the GUI at a URL until the validator is running.
    AwaitRunning(String),
    /// Watch the GUI at a URL, with every message or with the startup state alone.
    Watch(String, bool),
    /// Open or create a lock file.
    OpenLock(String),
    /// Restrict a lock file to its owner.
    SecureLock(String),
    /// Take the exclusive lock on an open lock file.
    TryLock(String),
    /// Name the running executable.
    Executable,
    /// Replace the running process by a command.
    Replace(CommandSpec),
    /// Keep the output of child processes off the terminal, or let it through again.
    CompactOutput(bool),
    /// Print an error that cannot be logged yet.
    Complain(String),
    /// Start logging in a directory, with a verbosity, to a compact terminal or not.
    StartLogging(String, u8, bool),
}

/// What a [`Request`] says.
#[verifier::ext_equal]
pub enum RequestView {
    Capture(CommandSpecView),
    Streaming(CommandSpecView),
    Interactive(CommandSpecView),
    Inspect(Seq<char>),
    RemoveTree(Seq<char>),
    Now,
    Variable(Variable),
    WorkingDirectory,
    EffectiveAccount,
    NamedAccount(Seq<char>),
    ReadText(Seq<char>),
    ParseGui(Seq<char>),
    ParseConfig(Seq<char>),
    IdentityKey(Seq<char>),
    CurrentPhase(Seq<char>),
    Log(LogEventView),
    PrintLine(Seq<char>),
    BeginStage(Seq<char>),
    FinishStage(Seq<char>),
    ShowStatus(StatusReportView, bool),
    AwaitRunning(Seq<char>),
    Watch(Seq<char>, bool),
    OpenLock(Seq<char>),
    SecureLock(Seq<char>),
    TryLock(Seq<char>),
    Executable,
    Replace(CommandSpecView),
    CompactOutput(bool),
    Complain(Seq<char>),
    StartLogging(Seq<char>, u8, bool),
}

impl View for Request {
    type V = RequestView;

    open spec fn view(&self) -> RequestView {
        match *self {
            Request::Capture(command) => RequestView::Capture(command@),
            Request::Streaming(command) => RequestView::Streaming(command@),
            Request::Interactive(command) => RequestView::Interactive(command@),
            Request::Inspect(path) => RequestView::Inspect(path@),
            Request::RemoveTree(path) => RequestView::RemoveTree(path@),
            Request::Now => RequestView::Now,
            Request::Variable(variable) => RequestView::Variable(variable),
            Request::WorkingDirectory => RequestView::WorkingDirectory,
            Request::EffectiveAccount => RequestView::EffectiveAccount,
            Request::NamedAccount(name) => RequestView::NamedAccount(name@),
            Request::ReadText(path) => RequestView::ReadText(path@),
            Request::ParseGui(text) => RequestView::ParseGui(text@),
            Request::ParseConfig(text) => RequestView::ParseConfig(text@),
            Request::IdentityKey(path) => RequestView::IdentityKey(path@),
            Request::CurrentPhase(url) => RequestView::CurrentPhase(url@),
            Request::Log(event) => RequestView::Log(event@),
            Request::PrintLine(line) => RequestView::PrintLine(line@),
            Request::BeginStage(label) => RequestView::BeginStage(label@),
            Request::FinishStage(status) => RequestView::FinishStage(status@),
            Request::ShowStatus(report, json) => RequestView::ShowStatus(report@, json),
            Request::AwaitRunning(url) => RequestView::AwaitRunning(url@),
            Request::Watch(url, all) => RequestView::Watch(url@, all),
            Request::OpenLock(path) => RequestView::OpenLock(path@),
            Request::SecureLock(path) => RequestView::SecureLock(path@),
            Request::TryLock(path) => RequestView::TryLock(path@),
            Request::Executable => RequestView::Executable,
            Request::Replace(command) => RequestView::Replace(command@),
            Request::CompactOutput(compact) => RequestView::CompactOutput(compact),
            Request::Complain(text) => RequestView::Complain(text@),
            Request::StartLogging(directory, verbosity, compact) => RequestView::StartLogging(
                directory@,
                verbosity,
                compact,
            ),
        }
    }
}

/// The answer to a request.
#[derive(Debug, Clone, PartialEq, Eq)]
pub enum Reply {
    /// The effect took place.
    Done,
    /// A command ended.
    Outcome(CommandOutcome),
    /// A path exists.
    Facts(FileFacts),
    /// The clock's reading in nanoseconds.
    Moment(u64),
    /// A text was read.
    Text(String),
    /// A text, or that there is none.
    MaybeText(Option<String>),
    /// A user, or that there is none.
    MaybeAccount(Option<Account>),
    /// The GUI settings of a configuration.
    Gui(GuiConfig),
    /// The settings of a configuration that the status depends on.
    Config(FiredancerConfig),
    /// Someone else holds the lock.
    Busy,
    /// The path does not exist; the system's message.
    NotFound(String),
    /// The effect failed; the reasons, outermost first.
    Error(String),
    /// The effect failed; the outermost reason, and the ones behind it.
    Caused(String, String),
}

/// What a [`Reply`] says.
#[verifier::ext_equal]
pub enum ReplyView {
    Done,
    Outcome(CommandOutcomeView),
    Facts(FileFacts),
    Moment(u64),
    Text(Seq<char>),
    MaybeText(Option<Seq<char>>),
    MaybeAccount(Option<AccountView>),
    Gui(GuiConfigView),
    Config(FiredancerConfigView),
    Busy,
    NotFound(Seq<char>),
    Error(Seq<char>),
    Caused(Seq<char>, Seq<char>),
}

/// What an optional account says.
pub open spec fn maybe_account(account: Option<Account>) -> Option<AccountView> {
    match account {
        Some(entry) => Some(entry@),
        None => None,
    }
}

impl View for Reply {
    type V = ReplyView;

    open spec fn view(&self) -> ReplyView {
        match *self {
            Reply::Done => ReplyView::Done,
            Reply::Outcome(outcome) => ReplyView::Outcome(outcome@),
            Reply::Facts(facts) => ReplyView::Facts(facts),
            Reply::Moment(nanos) => ReplyView::Moment(nanos),
            Reply::Text(text) => ReplyView::Text(text@),
            Reply::MaybeText(text) => ReplyView::MaybeText(process::maybe_text(text)),
            Reply::MaybeAccount(account) => ReplyView::MaybeAccount(maybe_account(account)),
            Reply::Gui(config) => ReplyView::Gui(config@),
            Reply::Config(config) => ReplyView::Config(config@),
            Reply::Busy => ReplyView::Busy,
            Reply::NotFound(text) => ReplyView::NotFound(text@),
            Reply::Error(text) => ReplyView::Error(text@),
            Reply::Caused(reason, cause) => ReplyView::Caused(reason@, cause@),
        }
    }
}

impl Reply {
    /// A reply that says the same.
    pub fn duplicate(&self) -> (reply: Reply)
        ensures
            reply@ == self@,
    {
        match self {
            Reply::Done => Reply::Done,
            Reply::Outcome(outcome) => Reply::Outcome(outcome.duplicate()),
            Reply::Facts(facts) => Reply::Facts(*facts),
            Reply::Moment(nanos) => Reply::Moment(*nanos),
            Reply::Text(text) => Reply::Text(text.clone()),
            Reply::MaybeText(text) => Reply::MaybeText(duplicate_text(text)),
            Reply::MaybeAccount(account) => Reply::MaybeAccount(
                match account {
                    Some(entry) => Some(
                        Account { name: entry.name.clone(), home: entry.home.clone() },
                    ),
                    None => None,
                },
            ),
            Reply::Gui(config) => Reply::Gui(config.duplicate()),
            Reply::Config(config) => Reply::Config(config.duplicate()),
            Reply::Busy => Reply::Busy,
            Reply::NotFound(text) => Reply::NotFound(text.clone()),
            Reply::Error(text) => Reply::Error(text.clone()),
            Reply::Caused(reason, cause) => Reply::Caused(reason.clone(), cause.clone()),
        }
    }
}

/// How far a procedure has come: the requests it has made and the replies that are known.
#[verifier::ext_equal]
pub struct Transcript {
    pub asked: Seq<RequestView>,
    pub replies: Seq<ReplyView>,
}

/// How a run of a procedure ended.
#[verifier::ext_equal]
pub enum End<T> {
    /// The last request has no reply yet.
    Waiting,
    /// The procedure completed.
    Done(T),
    /// The procedure failed with a message.
    Failed(Seq<char>),
}

/// A run of a procedure: where it left the transcript and how it ended.
#[verifier::ext_equal]
pub struct Run<T> {
    pub after: Transcript,
    pub end: End<T>,
}

/// What a reply says to someone who looked at a path.
#[verifier::ext_equal]
pub enum InspectedView {
    Present(FileFacts),
    Absent(Seq<char>),
    Unreadable(Seq<char>),
}

impl Transcript {
    /// The transcript before the first request.
    pub open spec fn start(replies: Seq<ReplyView>) -> Transcript {
        Transcript { asked: Seq::empty(), replies }
    }

    /// The transcript after one more request.
    pub open spec fn ask(self, request: RequestView) -> Transcript {
        Transcript { asked: self.asked.push(request), ..self }
    }

    /// The reply to the next request, if it is known.
    pub open spec fn reply(self) -> Option<ReplyView> {
        if self.asked.len() < self.replies.len() {
            Some(self.replies[self.asked.len() as int])
        } else {
            None
        }
    }

    /// The same transcript with more replies known.
    pub open spec fn knowing(self, more: Seq<ReplyView>) -> Transcript {
        Transcript { replies: self.replies + more, ..self }
    }

    /// Whether every request so far has a known reply.
    pub open spec fn answered(self) -> bool {
        self.asked.len() <= self.replies.len()
    }

    /// Whether this transcript goes on from an earlier one: the same replies are known, and the
    /// requests of the earlier one were made first.
    #[verifier::opaque]
    pub open spec fn continues(self, earlier: Transcript) -> bool {
        &&& self.replies == earlier.replies
        &&& earlier.asked.is_prefix_of(self.asked)
    }

    /// A request that is made whatever its reply says.
    pub open spec fn tell(self, request: RequestView) -> Run<()> {
        Run {
            after: self.ask(request),
            end: match self.reply() {
                None => End::Waiting,
                Some(_) => End::Done(()),
            },
        }
    }

    /// An event that is logged.
    pub open spec fn note(self, event: LogEventView) -> Run<()> {
        self.tell(RequestView::Log(event))
    }

    /// A request that has to take effect.
    pub open spec fn perform(self, request: RequestView) -> Run<()> {
        Run {
            after: self.ask(request),
            end: match self.reply() {
                None => End::Waiting,
                Some(ReplyView::Done) => End::Done(()),
                Some(ReplyView::Error(text)) => End::Failed(text),
                Some(_) => End::Failed(unanswered()),
            },
        }
    }

    /// A request that ends the process: only its failure has a reply.
    pub open spec fn depart(self, request: RequestView) -> Run<()> {
        Run {
            after: self.ask(request),
            end: match self.reply() {
                None => End::Waiting,
                Some(ReplyView::Error(text)) => End::Failed(text),
                Some(_) => End::Failed(unanswered()),
            },
        }
    }

    /// The outermost reason why the next request failed.
    pub open spec fn reason(self) -> Seq<char> {
        match self.reply() {
            Some(ReplyView::Error(text)) => text,
            Some(ReplyView::Caused(reason, _)) => reason,
            _ => unanswered(),
        }
    }

    /// A request for a command.
    pub open spec fn outcome(self, request: RequestView) -> Run<CommandOutcomeView> {
        Run {
            after: self.ask(request),
            end: match self.reply() {
                None => End::Waiting,
                Some(ReplyView::Outcome(outcome)) => End::Done(outcome),
                Some(ReplyView::Error(text)) => End::Failed(text),
                Some(ReplyView::Caused(reason, cause)) => End::Failed(in_context(reason, cause)),
                Some(_) => End::Failed(unanswered()),
            },
        }
    }

    /// A command that has to succeed; the description begins the message if it does not.
    pub open spec fn required(
        self,
        request: RequestView,
        description: Seq<char>,
    ) -> Run<CommandOutcomeView> {
        let run = self.outcome(request);
        match run.end {
            End::Done(outcome) => if outcome.success {
                run
            } else {
                Run { after: run.after, end: End::Failed(outcome.failure_message(description)) }
            },
            _ => run,
        }
    }

    /// A look at a path.
    pub open spec fn inspect(self, path: Seq<char>) -> Run<InspectedView> {
        Run {
            after: self.ask(RequestView::Inspect(path)),
            end: match self.reply() {
                None => End::Waiting,
                Some(ReplyView::Facts(facts)) => End::Done(InspectedView::Present(facts)),
                Some(ReplyView::NotFound(text)) => End::Done(InspectedView::Absent(text)),
                Some(ReplyView::Error(text)) => End::Done(InspectedView::Unreadable(text)),
                Some(_) => End::Done(InspectedView::Unreadable(unanswered())),
            },
        }
    }

    /// A request for a text.
    pub open spec fn text(self, request: RequestView) -> Run<Seq<char>> {
        Run {
            after: self.ask(request),
            end: match self.reply() {
                None => End::Waiting,
                Some(ReplyView::Text(text)) => End::Done(text),
                Some(ReplyView::Error(text)) => End::Failed(text),
                Some(_) => End::Failed(unanswered()),
            },
        }
    }

    /// A request for a text that may be missing; any other reply counts as missing.
    pub open spec fn maybe_text(self, request: RequestView) -> Run<Option<Seq<char>>> {
        Run {
            after: self.ask(request),
            end: match self.reply() {
                None => End::Waiting,
                Some(ReplyView::MaybeText(text)) => End::Done(text),
                Some(_) => End::Done(None),
            },
        }
    }

    /// A request for an account.
    pub open spec fn account(self, request: RequestView) -> Run<Option<AccountView>> {
        Run {
            after: self.ask(request),
            end: match self.reply() {
                None => End::Waiting,
                Some(ReplyView::MaybeAccount(account)) => End::Done(account),
                Some(ReplyView::Error(text)) => End::Failed(text),
                Some(_) => End::Failed(unanswered()),
            },
        }
    }

    /// A reading of the clock; any reply without one reads zero.
    pub open spec fn now(self) -> Run<u64> {
        Run {
            after: self.ask(RequestView::Now),
            end: match self.reply() {
                None => End::Waiting,
                Some(ReplyView::Moment(nanos)) => End::Done(nanos),
                Some(_) => End::Done(0u64),
            },
        }
    }

    /// A request for GUI settings.
    pub open spec fn gui(self, text: Seq<char>) -> Run<GuiConfigView> {
        Run {
            after: self.ask(RequestView::ParseGui(text)),
            end: match self.reply() {
                None => End::Waiting,
                Some(ReplyView::Gui(config)) => End::Done(config),
                Some(ReplyView::Error(text)) => End::Failed(text),
                Some(_) => End::Failed(unanswered()),
            },
        }
    }

    /// A request for the settings that the status depends on.
    pub open spec fn config(self, text: Seq<char>) -> Run<FiredancerConfigView> {
        Run {
            after: self.ask(RequestView::ParseConfig(text)),
            end: match self.reply() {
                None => End::Waiting,
                Some(ReplyView::Config(config)) => End::Done(config),
                Some(ReplyView::Error(text)) => End::Failed(text),
                Some(_) => End::Failed(unanswered()),
            },
        }
    }
}

/// The message for a reply of a kind that its request does not have.
pub open spec fn unanswered() -> Seq<char> {
    "the reply does not answer the request"@
}

impl<T> Run<T> {
    /// Whether the procedure completed.
    pub open spec fn done(self) -> bool {
        self.end is Done
    }

    /// The result of a completed procedure.
    pub open spec fn value(self) -> T {
        self.end->Done_0
    }

    /// A run that did not complete, as a run of a procedure with another result.
    pub open spec fn stop<U>(self) -> Run<U> {
        Run {
            after: self.after,
            end: match self.end {
                End::Failed(text) => End::Failed(text),
                _ => End::Waiting,
            },
        }
    }

    /// The same run with what was being attempted before its message, if it failed.
    pub open spec fn attempting(self, attempt: Seq<char>) -> Run<T> {
        Run {
            after: self.after,
            end: match self.end {
                End::Failed(text) => End::Failed(in_context(attempt, text)),
                end => end,
            },
        }
    }

    /// The same run with an event logged once it has completed.
    pub open spec fn noting(self, event: LogEventView) -> Run<T> {
        if self.done() {
            self.after.note(event).with(self.value())
        } else {
            self
        }
    }

    /// Whether this can be a run from a transcript: it goes on from there, a run that waits has
    /// made one request more than there are replies, and a run that ended has met a reply to each.
    pub open spec fn starts_at(self, t: Transcript) -> bool {
        &&& self.after.continues(t)
        &&& t.answered() ==> if self.end is Waiting {
            self.after.asked.len() == self.after.replies.len() + 1
        } else {
            self.after.answered()
        }
    }

    /// Whether another run, over more replies, takes this one up: a run that ended is made again
    /// in the same way, and a run that waits is continued.
    pub open spec fn resumed_by(self, later: Run<T>, more: Seq<ReplyView>) -> bool {
        if self.end is Waiting {
            later.after.continues(self.after.knowing(more))
        } else {
            later == (Run { after: self.after.knowing(more), end: self.end })
        }
    }

    /// The same run with another result.
    pub open spec fn with<U>(self, value: U) -> Run<U> {
        Run {
            after: self.after,
            end: match self.end {
                End::Done(_) => End::Done(value),
                End::Waiting => End::Waiting,
                End::Failed(text) => End::Failed(text),
            },
        }
    }
}

/// Why a procedure did not complete.
#[derive(Debug, Clone, PartialEq, Eq)]
pub enum Halt {
    /// The last request has no reply yet.
    Waiting,
    /// The procedure failed.
    Failed(Failure),
}

impl Halt {
    /// The end of a run that halted.
    pub open spec fn end<T>(self) -> End<T> {
        match self {
            Halt::Waiting => End::Waiting,
            Halt::Failed(failure) => End::Failed(failure@),
        }
    }

    /// Puts what was being attempted before the message, if there is one.
    pub fn attempting(self, attempt: &str) -> (halt: Halt)
        ensures
            halt == Halt::Waiting <==> self == Halt::Waiting,
            self matches Halt::Failed(failure) ==> (halt matches Halt::Failed(wrapped) && wrapped@
                == in_context(attempt@, failure@)),
    {
        match self {
            Halt::Waiting => Halt::Waiting,
            Halt::Failed(failure) => Halt::Failed(
                with_context(attempt, failure.message.as_str()),
            ),
        }
    }
}

/// What someone who looked at a path has learned.
#[derive(Debug, Clone, PartialEq, Eq)]
pub enum Inspected {
    /// The path exists.
    Present(FileFacts),
    /// The path does not exist; the system's message.
    Absent(String),
    /// The path could not be looked at; the system's message.
    Unreadable(String),
}

impl View for Inspected {
    type V = InspectedView;

    open spec fn view(&self) -> InspectedView {
        match *self {
            Inspected::Present(facts) => InspectedView::Present(facts),
            Inspected::Absent(text) => InspectedView::Absent(text@),
            Inspected::Unreadable(text) => InspectedView::Unreadable(text@),
        }
    }
}

/// A run of a procedure over the replies known so far.
pub struct Session {
    requests: Vec<Request>,
    replies: Vec<Reply>,
}

/// What a sequence of requests says.
pub open spec fn requests_said(requests: Seq<Request>) -> Seq<RequestView> {
    Seq::new(requests.len(), |i: int| requests[i]@)
}

/// What a sequence of replies says.
pub open spec fn replies_said(replies: Seq<Reply>) -> Seq<ReplyView> {
    Seq::new(replies.len(), |i: int| replies[i]@)
}

impl View for Session {
    type V = Transcript;

    closed spec fn view(&self) -> Transcript {
        Transcript {
            asked: requests_said(self.requests@),
            replies: replies_said(self.replies@),
        }
    }
}

impl Session {
    /// A session before the first request.
    pub fn new(replies: Vec<Reply>) -> (session: Session)
        ensures
            session@ == Transcript::start(replies_said(replies@)),
    {
        Session { requests: Vec::new(), replies }
    }

    /// The last request, if it has no reply yet.
    pub fn pending(&self) -> (request: Option<&Request>)
        ensures
            request is Some <==> self@.asked.len() > self@.replies.len(),
            request matches Some(r) ==> r@ == self@.asked.last(),
    {
        if self.requests.len() > self.replies.len() {
            Some(&self.requests[self.requests.len() - 1])
        } else {
            None
        }
    }

    /// Makes a request and takes its reply, if it is known.
    pub fn ask(&mut self, request: Request) -> (reply: Option<Reply>)
        ensures
            final(self)@ == old(self)@.ask(request@),
            reply is Some <==> old(self)@.reply() is Some,
            reply matches Some(r) ==> old(self)@.reply() == Some(r@),
    {
        let at: usize = self.requests.len();
        self.requests.push(request);
        assert(requests_said(self.requests@) == requests_said(old(self).requests@).push(request@));
        if at < self.replies.len() {
            Some(self.replies[at].duplicate())
        } else {
            None
        }
    }

    /// Makes a request whatever its reply says.
    pub fn tell(&mut self, request: Request) -> (told: Result<(), Halt>)
        ensures
            final(self)@ == old(self)@.tell(request@).after,
            old(self)@.tell(request@).end == (match told {
                Ok(_) => End::Done(()),
                Err(halt) => halt.end(),
            }),
    {
        match self.ask(request) {
            Some(_) => Ok(()),
            None => Err(Halt::Waiting),
        }
    }

    /// Logs an event.
    pub fn note(&mut self, event: LogEvent) -> (told: Result<(), Halt>)
        ensures
            final(self)@ == old(self)@.note(event@).after,
            old(self)@.note(event@).end == (match told {
                Ok(_) => End::Done(()),
                Err(halt) => halt.end(),
            }),
    {
        self.tell(Request::Log(event))
    }

    /// Makes a request that has to take effect.
    pub fn perform(&mut self, request: Request) -> (performed: Result<(), Halt>)
        ensures
            final(self)@ == old(self)@.perform(request@).after,
            old(self)@.perform(request@).end == (match performed {
                Ok(_) => End::Done(()),
                Err(halt) => halt.end(),
            }),
    {
        match self.ask(request) {
            None => Err(Halt::Waiting),
            Some(Reply::Done) => Ok(()),
            Some(Reply::Error(message)) => Err(Halt::Failed(Failure { message })),
            Some(_) => Err(unanswered_request()),
        }
    }

    /// Makes a request that ends the process; returns why it did not.
    pub fn depart(&mut self, request: Request) -> (halt: Halt)
        ensures
            final(self)@ == old(self)@.depart(request@).after,
            old(self)@.depart(request@).end == halt.end::<()>(),
    {
        match self.ask(request) {
            None => Halt::Waiting,
            Some(Reply::Error(message)) => Halt::Failed(Failure { message }),
            Some(_) => unanswered_request(),
        }
    }

    /// Runs a command.
    pub fn outcome(&mut self, request: Request) -> (outcome: Result<CommandOutcome, Halt>)
        ensures
            final(self)@ == old(self)@.outcome(request@).after,
            old(self)@.outcome(request@).end == (match outcome {
                Ok(o) => End::Done(o@),
                Err(halt) => halt.end(),
            }),
    {
        match self.ask(request) {
            None => Err(Halt::Waiting),
            Some(Reply::Outcome(outcome)) => Ok(outcome),
            Some(Reply::Error(message)) => Err(Halt::Failed(Failure { message })),
            Some(Reply::Caused(reason, cause)) => Err(
                Halt::Failed(with_context(reason.as_str(), cause.as_str())),
            ),
            Some(_) => Err(unanswered_request()),
        }
    }

    /// Runs a command that has to succeed.
    pub fn required(&mut self, request: Request, description: &str) -> (outcome: Result<
        CommandOutcome,
        Halt,
    >)
        ensures
            final(self)@ == old(self)@.required(request@, description@).after,
            old(self)@.required(request@, description@).end == (match outcome {
                Ok(o) => End::Done(o@),
                Err(halt) => halt.end(),
            }),
    {
        let outcome: CommandOutcome = self.outcome(request)?;
        match process::require_success(outcome, description) {
            Ok(checked) => Ok(checked),
            Err(failure) => Err(Halt::Failed(failure)),
        }
    }

    /// Looks at a path.
    pub fn inspect(&mut self, path: &str) -> (inspected: Result<Inspected, Halt>)
        ensures
            final(self)@ == old(self)@.inspect(path@).after,
            old(self)@.inspect(path@).end == (match inspected {
                Ok(i) => End::Done(i@),
                Err(halt) => halt.end(),
            }),
    {
        match self.ask(Request::Inspect(path.to_owned())) {
            None => Err(Halt::Waiting),
            Some(Reply::Facts(facts)) => Ok(Inspected::Present(facts)),
            Some(Reply::NotFound(text)) => Ok(Inspected::Absent(text)),
            Some(Reply::Error(text)) => Ok(Inspected::Unreadable(text)),
            Some(_) => Ok(
                Inspected::Unreadable("the reply does not answer the request".to_owned()),
            ),
        }
    }

    /// Asks for a text.
    pub fn text(&mut self, request: Request) -> (text: Result<String, Halt>)
        ensures
            final(self)@ == old(self)@.text(request@).after,
            old(self)@.text(request@).end == (match text {
                Ok(t) => End::Done(t@),
                Err(halt) => halt.end(),
            }),
    {
        match self.ask(request) {
            None => Err(Halt::Waiting),
            Some(Reply::Text(text)) => Ok(text),
            Some(Reply::Error(message)) => Err(Halt::Failed(Failure { message })),
            Some(_) => Err(unanswered_request()),
        }
    }

    /// Asks for a text that may be missing.
    pub fn maybe_text(&mut self, request: Request) -> (text: Result<Option<String>, Halt>)
        ensures
            final(self)@ == old(self)@.maybe_text(request@).after,
            old(self)@.maybe_text(request@).end == (match text {
                Ok(t) => End::Done(process::maybe_text(t)),
                Err(halt) => halt.end(),
            }),
    {
        match self.ask(request) {
            None => Err(Halt::Waiting),
            Some(Reply::MaybeText(text)) => Ok(text),
            Some(_) => Ok(None),
        }
    }

    /// Asks for an account.
    pub fn account(&mut self, request: Request) -> (account: Result<Option<Account>, Halt>)
        ensures
            final(self)@ == old(self)@.account(request@).after,
            old(self)@.account(request@).end == (match account {
                Ok(a) => End::Done(maybe_account(a)),
                Err(halt) => halt.end(),
            }),
    {
        match self.ask(request) {
            None => Err(Halt::Waiting),
            Some(Reply::MaybeAccount(account)) => Ok(account),
            Some(Reply::Error(message)) => Err(Halt::Failed(Failure { message })),
            Some(_) => Err(unanswered_request()),
        }
    }

    /// Reads the clock.
    pub fn now(&mut self) -> (nanos: Result<u64, Halt>)
        ensures
            final(self)@ == old(self)@.now().after,
            old(self)@.now().end == (match nanos {
                Ok(n) => End::Done(n),
                Err(halt) => halt.end(),
            }),
    {
        match self.ask(Request::Now) {
            None => Err(Halt::Waiting),
            Some(Reply::Moment(nanos)) => Ok(nanos),
            Some(_) => Ok(0),
        }
    }

    /// Parses GUI settings.
    pub fn gui(&mut self, text: &str) -> (config: Result<GuiConfig, Halt>)
        ensures
            final(self)@ == old(self)@.gui(text@).after,
            old(self)@.gui(text@).end == (match config {
                Ok(c) => End::Done(c@),
                Err(halt) => halt.end(),
            }),
    {
        match self.ask(Request::ParseGui(text.to_owned())) {
            None => Err(Halt::Waiting),
            Some(Reply::Gui(config)) => Ok(config),
            Some(Reply::Error(message)) => Err(Halt::Failed(Failure { message })),
            Some(_) => Err(unanswered_request()),
        }
    }

    /// Parses the settings that the status depends on.
    pub fn config(&mut self, text: &str) -> (config: Result<FiredancerConfig, Halt>)
        ensures
            final(self)@ == old(self)@.config(text@).after,
            old(self)@.config(text@).end == (match config {
                Ok(c) => End::Done(c@),
                Err(halt) => halt.end(),
            }),
    {
        match self.ask(Request::ParseConfig(text.to_owned())) {
            None => Err(Halt::Waiting),
            Some(Reply::Config(config)) => Ok(config),
            Some(Reply::Error(message)) => Err(Halt::Failed(Failure { message })),
            Some(_) => Err(unanswered_request()),
        }
    }
}

/// The failure for a reply of a kind that its request does not have.
fn unanswered_request() -> (halt: Halt)
    ensures
        halt matches Halt::Failed(failure) && failure@ == unanswered(),
{
    Halt::Failed(Failure { message: "the reply does not answer the request".to_owned() })
}

/// A procedure learns of an effect by the reply to its own request and by nothing else: a run makes
/// its one request, waits without a reply, and completes only on a reply that answers it.
pub proof fn law_replies_decide(t: Transcript, request: RequestView, description: Seq<char>)
    ensures
        t.ask(request).asked == t.asked.push(request) && t.ask(request).replies == t.replies,
        t.tell(request).after == t.ask(request),
        t.perform(request).after == t.ask(request),
        t.depart(request).after == t.ask(request),
        t.outcome(request).after == t.ask(request),
        t.required(request, description).after == t.ask(request),
        t.text(request).after == t.ask(request),
        t.maybe_text(request).after == t.ask(request),
        t.account(request).after == t.ask(request),
        t.reply() is None <==> t.asked.len() >= t.replies.len(),
        t.reply() is Some ==> t.reply() == Some(t.replies[t.asked.len() as int]),
        t.reply() is None ==> {
            &&& t.tell(request).end is Waiting
            &&& t.perform(request).end is Waiting
            &&& t.depart(request).end is Waiting
            &&& t.outcome(request).end is Waiting
            &&& t.required(request, description).end is Waiting
            &&& t.text(request).end is Waiting
            &&& t.maybe_text(request).end is Waiting
            &&& t.account(request).end is Waiting
        },
        t.reply() is Some ==> {
            &&& t.tell(request).done()
            &&& t.perform(request).done() <==> t.reply() == Some(ReplyView::Done)
            &&& t.depart(request).end is Failed
            &&& t.outcome(request).done() <==> t.reply()->0 is Outcome
            &&& t.text(request).done() <==> t.reply()->0 is Text
            &&& t.maybe_text(request).done()
            &&& t.account(request).done() <==> t.reply()->0 is MaybeAccount
        },
        t.required(request, description).done() <==> (t.reply() matches Some(
            ReplyView::Outcome(outcome),
        ) && outcome.success),
        t.reply() matches Some(ReplyView::Outcome(outcome)) ==> {
            &&& t.outcome(request).value() == outcome
            &&& outcome.success ==> t.required(request, description).value() == outcome
            &&& !outcome.success ==> t.required(request, description).end is Failed
        },
        t.reply() matches Some(ReplyView::Text(text)) ==> t.text(request).value() == text,
        t.reply() matches Some(ReplyView::MaybeText(text)) ==> t.maybe_text(request).value()
            == text,
        t.reply() matches Some(ReplyView::MaybeAccount(account)) ==> t.account(request).value()
            == account,
        t.reply() matches Some(ReplyView::Error(text)) ==> {
            &&& t.perform(request).end == End::<()>::Failed(text)
            &&& t.depart(request).end == End::<()>::Failed(text)
            &&& t.outcome(request).end == End::<CommandOutcomeView>::Failed(text)
            &&& t.required(request, description).end == End::<CommandOutcomeView>::Failed(text)
            &&& t.text(request).end == End::<Seq<char>>::Failed(text)
            &&& t.maybe_text(request).value() is None
            &&& t.account(request).end == End::<Option<AccountView>>::Failed(text)
            &&& t.reason() == text
        },
        t.reply() matches Some(ReplyView::Caused(reason, cause)) ==> {
            &&& t.outcome(request).end == End::<CommandOutcomeView>::Failed(
                reason + ": "@ + cause,
            )
            &&& t.reason() == reason
        },
{
}

/// The clock, the file system, and the parsers are believed in the same way.
pub proof fn law_readings_are_taken_as_they_are(t: Transcript, path: Seq<char>, text: Seq<char>)
    ensures
        t.now().after == t.ask(RequestView::Now),
        t.reply() matches Some(ReplyView::Moment(nanos)) ==> t.now().end == End::Done(nanos),
        t.inspect(path).after == t.ask(RequestView::Inspect(path)),
        t.reply() matches Some(ReplyView::Facts(facts)) ==> t.inspect(path).end == End::Done(
            InspectedView::Present(facts),
        ),
        t.reply() matches Some(ReplyView::NotFound(message)) ==> t.inspect(path).end == End::Done(
            InspectedView::Absent(message),
        ),
        t.reply() matches Some(ReplyView::Error(message)) ==> t.inspect(path).end == End::Done(
            InspectedView::Unreadable(message),
        ),
        t.gui(text).after == t.ask(RequestView::ParseGui(text)),
        t.gui(text).done() <==> (t.reply() matches Some(ReplyView::Gui(_))),
        t.reply() matches Some(ReplyView::Gui(config)) ==> t.gui(text).value() == config,
        t.reply() matches Some(ReplyView::Error(message)) ==> t.gui(text).end == End::<
            GuiConfigView,
        >::Failed(message),
        t.config(text).after == t.ask(RequestView::ParseConfig(text)),
        t.config(text).done() <==> (t.reply() matches Some(ReplyView::Config(_))),
        t.reply() matches Some(ReplyView::Config(config)) ==> t.config(text).value() == config,
        t.reply() matches Some(ReplyView::Error(message)) ==> t.config(text).end == End::<
            FiredancerConfigView,
        >::Failed(message),
{
}

/// A failure keeps its reason: what was attempted comes first, and success and waiting stay as they
/// are.
pub proof fn law_context_keeps_the_reason(run: Run<()>, attempt: Seq<char>)
    ensures
        run.attempting(attempt).after == run.after,
        run.end matches End::Failed(reason) ==> run.attempting(attempt).end == End::<()>::Failed(
            attempt + ": "@ + reason,
        ),
        !(run.end is Failed) ==> run.attempting(attempt) == run,
{
}

/// A file can be run if it is a plain file and someone may execute it.
pub proof fn law_runnable_files_have_an_execute_bit(facts: FileFacts)
    ensures
        facts.runnable() <==> facts.is_file && (facts.mode & 0o100 != 0 || facts.mode & 0o010 != 0
            || facts.mode & 0o001 != 0),
{
    let mode = facts.mode;
    assert(mode & 0o111 != 0 <==> (mode & 0o100 != 0 || mode & 0o010 != 0 || mode & 0o001 != 0))
        by (bit_vector);
}

/// A reply that does not answer its request is an error that says so. Only a path counts as unreadable,
/// an optional text as missing, and a clock as stopped instead, and what is only told counts as told.
pub proof fn law_stray_replies_are_errors(t: Transcript, request: RequestView, path: Seq<char>)
    requires
        t.reply() == Some(ReplyView::Busy),
    ensures
        ({
            let message = "the reply does not answer the request"@;
            &&& t.perform(request).end == End::<()>::Failed(message)
            &&& t.depart(request).end == End::<()>::Failed(message)
            &&& t.outcome(request).end == End::<CommandOutcomeView>::Failed(message)
            &&& t.required(request, path).end == End::<CommandOutcomeView>::Failed(message)
            &&& t.text(request).end == End::<Seq<char>>::Failed(message)
            &&& t.account(request).end == End::<Option<AccountView>>::Failed(message)
            &&& t.now().end == End::Done(0u64)
            &&& t.inspect(path).end == End::Done(InspectedView::Unreadable(message))
            &&& t.gui(path).end == End::<GuiConfigView>::Failed(message)
            &&& t.config(path).end == End::<FiredancerConfigView>::Failed(message)
            &&& t.maybe_text(request).value() is None
            &&& t.tell(request).done()
        }),
{
}

} // verus!
