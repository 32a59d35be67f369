//! Commands to run, their outcomes, and how their output is relayed.

use vstd::prelude::*;

use crate::logging::{FieldValueView, Level, LogEvent, LogEventView};
use crate::session::Failure;
use crate::text;
use crate::text::{join2, join3, signed_number, trim, trim_line_end};

verus! {

/// The log target under which the output of child processes is recorded.
pub const COMMAND_OUTPUT_TARGET: &'static str = "val::command_output";

/// Whether child output is kept off the terminal.
pub struct OutputMode {
    pub compact: bool,
}

impl OutputMode {
    /// Child output reaches the terminal.
    pub fn new() -> (mode: OutputMode)
        ensures
            !mode.compact,
    {
        OutputMode { compact: false }
    }
}

/// Enables or disables compact terminal output for streaming child processes.
pub fn set_compact_output(mode: &mut OutputMode, compact: bool)
    ensures
        final(mode).compact == compact,
{
    mode.compact = compact;
}

/// Returns whether streaming child output should be kept off the terminal.
pub fn compact_output(mode: &OutputMode) -> (compact: bool)
    ensures
        compact == mode.compact,
{
    mode.compact
}

/// Holds compact output on until it is released.
pub struct CompactOutputGuard;

impl CompactOutputGuard {
    /// Enables compact output until this guard is released.
    pub fn enable(mode: &mut OutputMode) -> (guard: CompactOutputGuard)
        ensures
            final(mode).compact,
    {
        set_compact_output(mode, true);
        CompactOutputGuard
    }

    /// Ends the guard: child output reaches the terminal again.
    pub fn release(self, mode: &mut OutputMode)
        ensures
            !final(mode).compact,
    {
        set_compact_output(mode, false);
    }
}

/// A command to run.
#[derive(Debug, Clone, PartialEq, Eq)]
pub struct CommandSpec {
    pub program: String,
    pub args: Vec<String>,
    pub env: Vec<(String, String)>,
    pub cwd: Option<String>,
}

/// What a [`CommandSpec`] says.
#[verifier::ext_equal]
pub struct CommandSpecView {
    pub program: Seq<char>,
    pub args: Seq<Seq<char>>,
    pub env: Seq<(Seq<char>, Seq<char>)>,
    pub cwd: Option<Seq<char>>,
}

/// The text that an optional string holds.
pub open spec fn maybe_text(value: Option<String>) -> Option<Seq<char>> {
    match value {
        Some(text) => Some(text@),
        None => None,
    }
}

/// An optional string that says the same.
pub fn duplicate_text(value: &Option<String>) -> (copy: Option<String>)
    ensures
        maybe_text(copy) == maybe_text(*value),
{
    match value {
        Some(text) => Some(text.clone()),
        None => None,
    }
}

/// The pairs of texts that a vector of pairs of strings holds.
pub open spec fn text_pairs(pairs: Seq<(String, String)>) -> Seq<(Seq<char>, Seq<char>)> {
    Seq::new(pairs.len(), |i: int| (pairs[i].0@, pairs[i].1@))
}

impl View for CommandSpec {
    type V = CommandSpecView;

    open spec fn view(&self) -> CommandSpecView {
        CommandSpecView {
            program: self.program@,
            args: text::texts(self.args@),
            env: text_pairs(self.env@),
            cwd: maybe_text(self.cwd),
        }
    }
}

impl CommandSpecView {
    /// A program without arguments.
    pub open spec fn program(program: Seq<char>) -> CommandSpecView {
        CommandSpecView { program, args: Seq::empty(), env: Seq::empty(), cwd: None }
    }

    /// A program with arguments, run in a directory.
    pub open spec fn in_directory(
        program: Seq<char>,
        args: Seq<Seq<char>>,
        cwd: Seq<char>,
    ) -> CommandSpecView {
        CommandSpecView { program, args, env: Seq::empty(), cwd: Some(cwd) }
    }

    /// The command as diagnostics show it: assignments, program, and arguments, each quoted and
    /// separated by one space.
    pub open spec fn shown(self) -> Seq<char> {
        rendered_command(
            Seq::new(self.env.len(), |i: int| (self.env[i].0, debug_quoted(self.env[i].1))),
            seq![debug_quoted(self.program)] + Seq::new(
                self.args.len(),
                |i: int| debug_quoted(self.args[i]),
            ),
        )
    }
}

/// Texts with a separator between each two.
pub open spec fn joined(parts: Seq<Seq<char>>, separator: Seq<char>) -> Seq<char>
    decreases parts.len(),
{
    if parts.len() == 0 {
        Seq::empty()
    } else if parts.len() == 1 {
        parts[0]
    } else {
        joined(parts.drop_last(), separator) + separator + parts.last()
    }
}

/// An assignment list followed by words, separated by single spaces.
pub open spec fn rendered_command(
    assignments: Seq<(Seq<char>, Seq<char>)>,
    words: Seq<Seq<char>>,
) -> Seq<char> {
    joined(
        Seq::new(
            assignments.len(),
            |i: int| assignments[i].0 + "="@ + assignments[i].1,
        ) + words,
        " "@,
    )
}

/// The quoted and escaped form that `Debug` gives a path.
pub uninterp spec fn debug_quoted(text: Seq<char>) -> Seq<char>;

/// Quotes a text for diagnostic display: the `Debug` form of `std::path::Path`, which
/// [`debug_quoted`] names.
#[verifier::external_body]
fn quoted(value: &str) -> (text: String)
    ensures
        text@ == debug_quoted(value@),
{
    format!("{:?}", std::path::Path::new(value))
}

/// Joins texts with a separator between each two.
pub fn join_parts(parts: &Vec<String>, separator: &str) -> (line: String)
    ensures
        line@ == joined(text::texts(parts@), separator@),
{
    let mut line: String = String::new();
    let mut at: usize = 0;
    while at < parts.len()
        invariant
            at <= parts@.len(),
            line@ == joined(text::texts(parts@).take(at as int), separator@),
        decreases parts.len() - at,
    {
        let ghost shorter = text::texts(parts@).take(at as int);
        let ghost longer = text::texts(parts@).take(at + 1);
        assert(longer.drop_last() == shorter);
        if at > 0 {
            line.append(separator);
        }
        let ghost so_far = line@;
        line.append(parts[at].as_str());
        assert(longer.last() == parts@[at as int]@);
        if at == 0 {
            assert(line@ == longer[0]);
        }
        at = at + 1;
    }
    assert(text::texts(parts@).take(at as int) == text::texts(parts@));
    line
}

/// Writes assignments and words on one line, separated by single spaces.
pub fn render_command(assignments: &Vec<(String, String)>, words: &Vec<String>) -> (line: String)
    ensures
        line@ == rendered_command(text_pairs(assignments@), text::texts(words@)),
{
    let ghost pairs = text_pairs(assignments@);
    let ghost assigned = Seq::new(pairs.len(), |i: int| pairs[i].0 + "="@ + pairs[i].1);
    let mut parts: Vec<String> = Vec::new();
    let mut at: usize = 0;
    while at < assignments.len()
        invariant
            at <= assignments@.len(),
            pairs == text_pairs(assignments@),
            assigned == Seq::new(pairs.len(), |i: int| pairs[i].0 + "="@ + pairs[i].1),
            text::texts(parts@) == assigned.take(at as int),
        decreases assignments.len() - at,
    {
        let pair: &(String, String) = &assignments[at];
        let ghost before = text::texts(parts@);
        parts.push(join3(pair.0.as_str(), "=", pair.1.as_str()));
        assert(text::texts(parts@) == before.push(assigned[at as int]));
        assert(assigned.take(at + 1) == assigned.take(at as int).push(assigned[at as int]));
        at = at + 1;
    }
    assert(assigned.take(at as int) == assigned);
    let mut word: usize = 0;
    assert(assigned + text::texts(words@).take(0) == assigned);
    while word < words.len()
        invariant
            word <= words@.len(),
            text::texts(parts@) == assigned + text::texts(words@).take(word as int),
        decreases words.len() - word,
    {
        let ghost before = text::texts(parts@);
        parts.push(words[word].clone());
        assert(text::texts(parts@) == before.push(words@[word as int]@));
        assert(text::texts(words@).take(word + 1) == text::texts(words@).take(word as int).push(
            words@[word as int]@,
        ));
        word = word + 1;
    }
    assert(text::texts(words@).take(word as int) == text::texts(words@));
    join_parts(&parts, " ")
}

impl CommandSpec {
    /// Creates a command specification.
    pub fn new(program: &str) -> (spec: CommandSpec)
        ensures
            spec@ == CommandSpecView::program(program@),
    {
        CommandSpec { program: program.to_owned(), args: Vec::new(), env: Vec::new(), cwd: None }
    }

    /// Appends one argument.
    pub fn arg(self, arg: &str) -> (spec: CommandSpec)
        ensures
            spec@ == (CommandSpecView { args: self@.args.push(arg@), ..self@ }),
    {
        let mut spec: CommandSpec = self;
        spec.args.push(arg.to_owned());
        assert(text::texts(spec.args@) == text::texts(self.args@).push(arg@));
        spec
    }

    /// Appends multiple arguments.
    pub fn args(self, args: &[&str]) -> (spec: CommandSpec)
        ensures
            spec@ == (CommandSpecView {
                args: self@.args + Seq::new(args@.len(), |i: int| args@[i]@),
                ..self@
            }),
    {
        let ghost added = Seq::new(args@.len(), |i: int| args@[i]@);
        let ghost start = self@;
        let mut spec: CommandSpec = self;
        let mut at: usize = 0;
        assert(start.args + added.take(0) == start.args);
        while at < args.len()
            invariant
                at <= args@.len(),
                added == Seq::new(args@.len(), |i: int| args@[i]@),
                spec@ == (CommandSpecView { args: start.args + added.take(at as int), ..start }),
            decreases args.len() - at,
        {
            assert(added.take(at + 1) == added.take(at as int).push(added[at as int]));
            spec = spec.arg(args[at]);
            at = at + 1;
        }
        assert(added.take(at as int) == added);
        spec
    }

    /// Sets an environment variable in the child process.
    pub fn env(self, key: &str, value: &str) -> (spec: CommandSpec)
        ensures
            spec@ == (CommandSpecView { env: self@.env.push((key@, value@)), ..self@ }),
    {
        let mut spec: CommandSpec = self;
        spec.env.push((key.to_owned(), value.to_owned()));
        assert(text_pairs(spec.env@) == text_pairs(self.env@).push((key@, value@)));
        spec
    }

    /// Sets the child working directory.
    pub fn cwd(self, path: &str) -> (spec: CommandSpec)
        ensures
            spec@ == (CommandSpecView { cwd: Some(path@), ..self@ }),
    {
        let mut spec: CommandSpec = self;
        spec.cwd = Some(path.to_owned());
        spec
    }

    /// Formats the command for diagnostic logs.
    pub fn display(&self) -> (line: String)
        ensures
            line@ == self@.shown(),
    {
        let ghost shown_env = Seq::new(
            self@.env.len(),
            |i: int| (self@.env[i].0, debug_quoted(self@.env[i].1)),
        );
        let ghost shown_args = Seq::new(self@.args.len(), |i: int| debug_quoted(self@.args[i]));
        let mut assignments: Vec<(String, String)> = Vec::new();
        let mut at: usize = 0;
        while at < self.env.len()
            invariant
                at <= self.env@.len(),
                shown_env == Seq::new(
                    self@.env.len(),
                    |i: int| (self@.env[i].0, debug_quoted(self@.env[i].1)),
                ),
                text_pairs(assignments@) == shown_env.take(at as int),
            decreases self.env.len() - at,
        {
            let pair: &(String, String) = &self.env[at];
            let ghost before = text_pairs(assignments@);
            assignments.push((pair.0.clone(), quoted(pair.1.as_str())));
            assert(text_pairs(assignments@) == before.push(shown_env[at as int]));
            assert(shown_env.take(at + 1) == shown_env.take(at as int).push(shown_env[at as int]));
            at = at + 1;
        }
        assert(shown_env.take(at as int) == shown_env);
        let mut words: Vec<String> = Vec::new();
        words.push(quoted(self.program.as_str()));
        let ghost first = seq![debug_quoted(self.program@)];
        assert(text::texts(words@) == first + shown_args.take(0));
        let mut word: usize = 0;
        while word < self.args.len()
            invariant
                word <= self.args@.len(),
                shown_args == Seq::new(self@.args.len(), |i: int| debug_quoted(self@.args[i])),
                text::texts(words@) == first + shown_args.take(word as int),
            decreases self.args.len() - word,
        {
            let ghost before = text::texts(words@);
            words.push(quoted(self.args[word].as_str()));
            assert(text::texts(words@) == before.push(shown_args[word as int]));
            assert(shown_args.take(word + 1) == shown_args.take(word as int).push(
                shown_args[word as int],
            ));
            word = word + 1;
        }
        assert(shown_args.take(word as int) == shown_args);
        render_command(&assignments, &words)
    }

    /// A specification that says the same.
    pub fn duplicate(&self) -> (spec: CommandSpec)
        ensures
            spec@ == self@,
    {
        let mut args: Vec<String> = Vec::new();
        let mut at: usize = 0;
        while at < self.args.len()
            invariant
                at <= self.args@.len(),
                text::texts(args@) == text::texts(self.args@).take(at as int),
            decreases self.args.len() - at,
        {
            let ghost before = text::texts(args@);
            args.push(self.args[at].clone());
            assert(text::texts(args@) == before.push(self.args@[at as int]@));
            assert(text::texts(self.args@).take(at + 1) == text::texts(self.args@).take(at as int).push(
                self.args@[at as int]@,
            ));
            at = at + 1;
        }
        assert(text::texts(self.args@).take(at as int) == text::texts(self.args@));
        let mut env: Vec<(String, String)> = Vec::new();
        let mut pair: usize = 0;
        while pair < self.env.len()
            invariant
                pair <= self.env@.len(),
                text_pairs(env@) == text_pairs(self.env@).take(pair as int),
            decreases self.env.len() - pair,
        {
            let entry: &(String, String) = &self.env[pair];
            let ghost before = text_pairs(env@);
            env.push((entry.0.clone(), entry.1.clone()));
            assert(text_pairs(env@) == before.push((entry.0@, entry.1@)));
            assert(text_pairs(self.env@).take(pair + 1) == text_pairs(self.env@).take(
                pair as int,
            ).push((entry.0@, entry.1@)));
            pair = pair + 1;
        }
        assert(text_pairs(self.env@).take(pair as int) == text_pairs(self.env@));
        CommandSpec {
            program: self.program.clone(),
            args,
            env,
            cwd: duplicate_text(&self.cwd),
        }
    }
}

/// How a command ended.
#[derive(Debug, Clone, PartialEq, Eq)]
pub struct CommandOutcome {
    pub success: bool,
    pub code: Option<i32>,
    pub stdout: String,
    pub stderr: String,
}

/// What a [`CommandOutcome`] says.
#[verifier::ext_equal]
pub struct CommandOutcomeView {
    pub success: bool,
    pub code: Option<i32>,
    pub stdout: Seq<char>,
    pub stderr: Seq<char>,
}

impl View for CommandOutcome {
    type V = CommandOutcomeView;

    open spec fn view(&self) -> CommandOutcomeView {
        CommandOutcomeView {
            success: self.success,
            code: self.code,
            stdout: self.stdout@,
            stderr: self.stderr@,
        }
    }
}

impl CommandOutcomeView {
    /// The exit code, or that a signal ended the process.
    pub open spec fn exit_description(self) -> Seq<char> {
        match self.code {
            Some(code) => "exit code "@ + text::signed_decimal(code as int),
            None => "terminated by signal"@,
        }
    }

    /// The message for a command that had to succeed and did not: what was attempted, how it
    /// ended, and what it wrote on its error stream, if anything.
    pub open spec fn failure_message(self, description: Seq<char>) -> Seq<char> {
        let ended = description + " failed with "@ + self.exit_description();
        if text::trimmed(self.stderr).len() == 0 {
            ended
        } else {
            ended + ": "@ + text::trimmed(self.stderr)
        }
    }
}

impl CommandOutcome {
    /// A successful outcome with the given output.
    pub fn success(stdout: &str) -> (outcome: CommandOutcome)
        ensures
            outcome@ == (CommandOutcomeView {
                success: true,
                code: Some(0i32),
                stdout: stdout@,
                stderr: Seq::empty(),
            }),
    {
        CommandOutcome {
            success: true,
            code: Some(0),
            stdout: stdout.to_owned(),
            stderr: String::new(),
        }
    }

    /// A failed outcome with the given exit code and error output.
    pub fn failure(code: i32, stderr: &str) -> (outcome: CommandOutcome)
        ensures
            outcome@ == (CommandOutcomeView {
                success: false,
                code: Some(code),
                stdout: Seq::empty(),
                stderr: stderr@,
            }),
    {
        CommandOutcome {
            success: false,
            code: Some(code),
            stdout: String::new(),
            stderr: stderr.to_owned(),
        }
    }

    /// Describes the process exit result.
    pub fn exit_description(&self) -> (text: String)
        ensures
            text@ == self@.exit_description(),
    {
        match self.code {
            Some(code) => join2("exit code ", signed_number(code).as_str()),
            None => "terminated by signal".to_owned(),
        }
    }

    /// An outcome that says the same.
    pub fn duplicate(&self) -> (outcome: CommandOutcome)
        ensures
            outcome@ == self@,
    {
        CommandOutcome {
            success: self.success,
            code: self.code,
            stdout: self.stdout.clone(),
            stderr: self.stderr.clone(),
        }
    }
}

/// Converts a failed command outcome into an error.
pub fn require_success(outcome: CommandOutcome, description: &str) -> (checked: Result<
    CommandOutcome,
    Failure,
>)
    ensures
        checked is Ok <==> outcome.success,
        checked matches Ok(kept) ==> kept == outcome,
        checked matches Err(failure) ==> failure@ == outcome@.failure_message(description@),
{
    if outcome.success {
        return Ok(outcome);
    }
    let ended: String = join3(
        description,
        " failed with ",
        outcome.exit_description().as_str(),
    );
    let detail: String = trim(outcome.stderr.as_str());
    if detail.as_str().is_empty() {
        Err(Failure { message: ended })
    } else {
        Err(Failure { message: join3(ended.as_str(), ": ", detail.as_str()) })
    }
}

/// Whether a path starts at the root.
pub open spec fn is_absolute(path: Seq<char>) -> bool {
    path.len() > 0 && path[0] == '/'
}

/// A path below a directory; an absolute path stands for itself.
pub open spec fn path_in(directory: Seq<char>, relative: Seq<char>) -> Seq<char> {
    if is_absolute(relative) {
        relative
    } else if directory.len() == 0 || directory.last() == '/' {
        directory + relative
    } else {
        directory + "/"@ + relative
    }
}

/// Whether a path starts at the root.
pub fn absolute(path: &str) -> (found: bool)
    ensures
        found == is_absolute(path@),
{
    path.unicode_len() > 0 && path.get_char(0) == '/'
}

/// Resolves an executable path inside a directory.
pub fn executable_in(directory: &str, relative: &str) -> (path: String)
    ensures
        path@ == path_in(directory@, relative@),
{
    if absolute(relative) {
        return relative.to_owned();
    }
    let size: usize = directory.unicode_len();
    if size == 0 || directory.get_char(size - 1) == '/' {
        join2(directory, relative)
    } else {
        join3(directory, "/", relative)
    }
}

/// One output stream of a child process.
#[derive(Debug, Clone, Copy, PartialEq, Eq, Structural)]
pub enum Stream {
    Stdout,
    Stderr,
}

impl Stream {
    /// The name of the stream.
    pub open spec fn called(self) -> Seq<char> {
        match self {
            Stream::Stdout => "stdout"@,
            Stream::Stderr => "stderr"@,
        }
    }

    /// Returns the stream name used in structured logs.
    pub fn name(self) -> (name: &'static str)
        ensures
            name@ == self.called(),
    {
        match self {
            Stream::Stdout => "stdout",
            Stream::Stderr => "stderr",
        }
    }
}

/// What a sequence of events says.
pub open spec fn events_said(events: Seq<LogEvent>) -> Seq<LogEventView> {
    Seq::new(events.len(), |i: int| events[i]@)
}

/// An event of the command output log.
pub open spec fn output_event(level: Level, message: Seq<char>, stream: Stream) -> LogEventView {
    LogEventView::new(level, "val::command_output"@, message).text("stream"@, stream.called())
}

/// What is logged of one line of output: that the terminal was lost, if it just was, and the line
/// without its line end.
pub open spec fn relay_events(
    stream: Stream,
    line: Seq<char>,
    lost: Option<Seq<char>>,
) -> Seq<LogEventView> {
    let logged = output_event(Level::Info, text::without_line_end(line), stream);
    match lost {
        None => seq![logged],
        Some(error) => seq![
            output_event(
                Level::Warn,
                "terminal output closed; continuing to drain child output"@,
                stream,
            ).shown("error"@, error),
            logged,
        ],
    }
}

/// Where the lines of one child stream go: every line is logged, and it is shown on the terminal
/// until output is compact or the terminal has failed.
#[derive(Debug, Clone, PartialEq, Eq)]
pub struct Relay {
    pub terminal_open: bool,
}

impl Relay {
    /// Starts relaying in the given output mode.
    pub fn new(mode: &OutputMode) -> (relay: Relay)
        ensures
            relay.terminal_open == !mode.compact,
    {
        Relay { terminal_open: !compact_output(mode) }
    }

    /// Takes one line of output with the error of writing it to the terminal, if it was written
    /// there and that failed. Returns what has to be logged. Once the terminal has failed, nothing
    /// more is written there, and lines go on being logged.
    pub fn relayed(&mut self, stream: Stream, line: &str, failed: Option<String>) -> (events: Vec<
        LogEvent,
    >)
        ensures
            final(self).terminal_open == (old(self).terminal_open && failed is None),
            events_said(events@) == relay_events(
                stream,
                line@,
                if old(self).terminal_open {
                    maybe_text(failed)
                } else {
                    None
                },
            ),
    {
        let mut events: Vec<LogEvent> = Vec::new();
        if self.terminal_open {
            if let Some(error) = failed {
                self.terminal_open = false;
                events.push(
                    LogEvent::new(
                        Level::Warn,
                        COMMAND_OUTPUT_TARGET,
                        "terminal output closed; continuing to drain child output",
                    ).text("stream", stream.name()).shown("error", error.as_str()),
                );
            }
        }
        events.push(
            LogEvent::new(
                Level::Info,
                COMMAND_OUTPUT_TARGET,
                trim_line_end(line).as_str(),
            ).text("stream", stream.name()),
        );
        events
    }
}

/// A message about a failed command says what was attempted and how it ended. What the command wrote
/// on its error stream follows without the white space around it, and blank output adds nothing.
pub proof fn law_failures_say_what_happened(
    outcome: CommandOutcomeView,
    description: Seq<char>,
    before: Seq<char>,
    said: Seq<char>,
    after: Seq<char>,
)
    requires
        text::is_blank(before),
        text::is_blank(after),
    ensures
        outcome.code is None ==> (CommandOutcomeView {
            stderr: before,
            ..outcome
        }).failure_message(description) == description + " failed with terminated by signal"@,
        outcome.code matches Some(code) ==> (CommandOutcomeView {
            stderr: before,
            ..outcome
        }).failure_message(description) == description + " failed with exit code "@
            + text::signed_decimal(code as int),
        said.len() > 0 && !text::is_white_space(said[0]) && !text::is_white_space(said.last()) ==> (
        CommandOutcomeView { stderr: before + said + after, ..outcome }).failure_message(description)
            == (CommandOutcomeView { stderr: before, ..outcome }).failure_message(description)
            + ": "@ + said,
{
    text::law_trimming_takes_blank_ends(before);
    if said.len() > 0 && !text::is_white_space(said[0]) && !text::is_white_space(said.last()) {
        text::law_trimming_undoes_padding(before, said, after);
    }
    reveal_strlit(" failed with ");
    reveal_strlit("terminated by signal");
    reveal_strlit(" failed with terminated by signal");
    reveal_strlit("exit code ");
    reveal_strlit(" failed with exit code ");
    assert(" failed with "@ + "terminated by signal"@ == " failed with terminated by signal"@);
    assert(" failed with "@ + "exit code "@ == " failed with exit code "@);
    let silent = CommandOutcomeView { stderr: before, ..outcome };
    match outcome.code {
        None => {
            assert(silent.failure_message(description) == description + (" failed with "@
                + "terminated by signal"@));
        },
        Some(code) => {
            assert(silent.failure_message(description) == description + (" failed with "@
                + "exit code "@) + text::signed_decimal(code as int));
        },
    }
}

/// Paths are put together with exactly one slash between them. An absolute path stands for itself,
/// and what is below an absolute directory is absolute.
pub proof fn law_paths_are_put_together(directory: Seq<char>, relative: Seq<char>)
    requires
        directory.len() > 0,
        directory.last() != '/',
    ensures
        relative.len() > 0 && relative[0] == '/' ==> path_in(directory, relative) == relative,
        !(relative.len() > 0 && relative[0] == '/') ==> {
            &&& path_in(directory, relative) == directory + seq!['/'] + relative
            &&& path_in(directory + seq!['/'], relative) == path_in(directory, relative)
            &&& is_absolute(path_in(directory, relative)) == is_absolute(directory)
        },
        is_absolute(seq!['/'] + relative),
        !is_absolute(Seq::empty()),
        relative.len() > 0 && relative[0] != '/' ==> !is_absolute(relative),
        path_in(Seq::empty(), relative) == relative,
{
    reveal_strlit("/");
    assert("/"@ == seq!['/']);
    assert((directory + seq!['/']).last() == '/');
    assert(Seq::<char>::empty() + relative == relative);
}

/// The first of several parts is followed by the separator and the others.
pub proof fn law_parts_are_separated(first: Seq<char>, rest: Seq<Seq<char>>, separator: Seq<char>)
    ensures
        joined(seq![first], separator) == first,
        rest.len() > 0 ==> joined(seq![first] + rest, separator) == first + separator + joined(
            rest,
            separator,
        ),
    decreases rest.len(),
{
    if rest.len() == 1 {
        let two = seq![first] + rest;
        assert(two.drop_last() == seq![first]);
        assert(two.last() == rest[0]);
        assert(joined(seq![first], separator) == first);
        assert(joined(rest, separator) == rest[0]);
    } else if rest.len() > 1 {
        law_parts_are_separated(first, rest.drop_last(), separator);
        assert((seq![first] + rest).drop_last() == seq![first] + rest.drop_last());
        assert((seq![first] + rest).last() == rest.last());
        let shorter = joined(rest.drop_last(), separator);
        assert(first + separator + shorter + separator + rest.last() == first + separator + (shorter
            + separator + rest.last()));
    }
}

/// A command is shown with its assignments, its program, and its arguments, each quoted, in this
/// order and with one space between each two.
pub proof fn law_commands_are_shown_in_order(
    program: Seq<char>,
    arg: Seq<char>,
    name: Seq<char>,
    value: Seq<char>,
)
    ensures
        CommandSpecView::program(program).shown() == debug_quoted(program),
        (CommandSpecView { args: seq![arg], ..CommandSpecView::program(program) }).shown()
            == debug_quoted(program) + seq![' '] + debug_quoted(arg),
        (CommandSpecView {
            env: seq![(name, value)],
            args: seq![arg],
            ..CommandSpecView::program(program)
        }).shown() == name + seq!['='] + debug_quoted(value) + seq![' '] + debug_quoted(program)
            + seq![' '] + debug_quoted(arg),
{
    reveal_strlit(" ");
    reveal_strlit("=");
    assert(" "@ == seq![' ']);
    assert("="@ == seq!['=']);
    let word = debug_quoted(program);
    let last = debug_quoted(arg);
    let plain = CommandSpecView::program(program);
    let with_arg = CommandSpecView { args: seq![arg], ..plain };
    let with_both = CommandSpecView { env: seq![(name, value)], args: seq![arg], ..plain };
    let assigned = name + "="@ + debug_quoted(value);
    law_parts_are_separated(word, seq![last], " "@);
    law_parts_are_separated(last, Seq::empty(), " "@);
    law_parts_are_separated(assigned, seq![word, last], " "@);
    assert(seq![word] + seq![last] == seq![word, last]);
    let none = Seq::<Seq<char>>::empty();
    let no_pairs = Seq::<(Seq<char>, Seq<char>)>::empty();
    let nothing = Seq::new(no_pairs.len(), |i: int| no_pairs[i].0 + "="@ + no_pairs[i].1);
    assert(nothing == none);
    let plain_env = Seq::new(plain.env.len(), |i: int| (plain.env[i].0, debug_quoted(plain.env[i].1)));
    assert(plain_env == no_pairs);
    let plain_words = seq![word] + Seq::new(plain.args.len(), |i: int| debug_quoted(plain.args[i]));
    assert(plain_words == seq![word]);
    assert(nothing + plain_words == seq![word]);
    let env = Seq::new(
        with_arg.env.len(),
        |i: int| (with_arg.env[i].0, debug_quoted(with_arg.env[i].1)),
    );
    assert(env == no_pairs);
    let words = seq![word] + Seq::new(with_arg.args.len(), |i: int| debug_quoted(with_arg.args[i]));
    assert(words == seq![word, last]);
    assert(nothing + words == seq![word, last]);
    let pairs = Seq::new(
        with_both.env.len(),
        |i: int| (with_both.env[i].0, debug_quoted(with_both.env[i].1)),
    );
    assert(pairs == seq![(name, debug_quoted(value))]);
    let both_words = seq![word] + Seq::new(
        with_both.args.len(),
        |i: int| debug_quoted(with_both.args[i]),
    );
    assert(both_words == seq![word, last]);
    let assignments = Seq::new(pairs.len(), |i: int| pairs[i].0 + "="@ + pairs[i].1);
    assert(assignments == seq![assigned]);
    assert(assignments + both_words == seq![assigned] + seq![word, last]);
    assert(assigned + " "@ + (word + " "@ + last) == assigned + " "@ + word + " "@ + last);
}

/// Every line of output is logged as it is, without its line end, under the name of its stream. A
/// terminal that was just lost is warned about first, with the error.
pub proof fn law_every_line_is_logged(
    stream: Stream,
    line: Seq<char>,
    ending: Seq<char>,
    lost: Option<Seq<char>>,
)
    requires
        line.len() == 0 || (line.last() != '\r' && line.last() != '\n'),
        forall|i: int| 0 <= i < ending.len() ==> (#[trigger] ending[i] == '\r' || ending[i] == '\n'),
    ensures
        ({
            let events = relay_events(stream, line + ending, lost);
            &&& events.len() == if lost is Some { 2nat } else { 1nat }
            &&& events.last().level is Info
            &&& events.last().message == line
            &&& events.last().target == "val::command_output"@
            &&& events.last().fields.len() == 1
            &&& events.last().fields[0].value == FieldValueView::Text(
                if stream is Stdout {
                    "stdout"@
                } else {
                    "stderr"@
                },
            )
            &&& lost matches Some(error) ==> {
                &&& events[0].level is Warn
                &&& events[0].target == "val::command_output"@
                &&& events[0].fields.len() == 2
                &&& events[0].fields[0] == events.last().fields[0]
                &&& events[0].fields[1].value == FieldValueView::Shown(error)
            }
        }),
{
    let whole = line + ending;
    text::law_line_ends_are_taken(whole);
    let kept = text::without_line_end(whole);
    if kept.len() < line.len() {
        assert(whole[line.len() - 1] == line.last());
    } else if kept.len() > line.len() {
        assert(kept.last() == whole[kept.len() - 1]);
        assert(whole[kept.len() - 1] == ending[kept.len() - 1 - line.len()]);
    }
    assert(whole.take(line.len() as int) == line);
}

} // verus!
