//! What is logged where, and how the log file rotates.

use vstd::prelude::*;

use crate::process::COMMAND_OUTPUT_TARGET;
use crate::text;
use crate::text::{join3, number, same_text};

verus! {

/// How serious a logged event is.
#[derive(Debug, Clone, Copy, PartialEq, Eq, Structural)]
pub enum Level {
    Error,
    Warn,
    Info,
    Debug,
    Trace,
}

/// What a field of a logged event holds.
#[derive(Debug, Clone, PartialEq, Eq)]
pub enum FieldValue {
    /// A text that is shown in quotes.
    Text(String),
    /// A text that is shown as it is.
    Shown(String),
    Number(u64),
    Flag(bool),
}

/// What a [`FieldValue`] says.
#[verifier::ext_equal]
pub enum FieldValueView {
    Text(Seq<char>),
    Shown(Seq<char>),
    Number(u64),
    Flag(bool),
}

impl View for FieldValue {
    type V = FieldValueView;

    open spec fn view(&self) -> FieldValueView {
        match *self {
            FieldValue::Text(value) => FieldValueView::Text(value@),
            FieldValue::Shown(value) => FieldValueView::Shown(value@),
            FieldValue::Number(value) => FieldValueView::Number(value),
            FieldValue::Flag(value) => FieldValueView::Flag(value),
        }
    }
}

/// A named value of a logged event.
#[derive(Debug, Clone, PartialEq, Eq)]
pub struct Field {
    pub name: &'static str,
    pub value: FieldValue,
}

/// What a [`Field`] says.
#[verifier::ext_equal]
pub struct FieldView {
    pub name: Seq<char>,
    pub value: FieldValueView,
}

impl View for Field {
    type V = FieldView;

    open spec fn view(&self) -> FieldView {
        FieldView { name: self.name@, value: self.value@ }
    }
}

/// What a sequence of fields says.
pub open spec fn fields_said(fields: Seq<Field>) -> Seq<FieldView> {
    Seq::new(fields.len(), |i: int| fields[i]@)
}

/// An event that is logged: the target says where in the program it happened, and the fields hold
/// what the message is about.
#[derive(Debug, Clone, PartialEq, Eq)]
pub struct LogEvent {
    pub level: Level,
    pub target: &'static str,
    pub message: String,
    pub fields: Vec<Field>,
}

/// What a [`LogEvent`] says.
#[verifier::ext_equal]
pub struct LogEventView {
    pub level: Level,
    pub target: Seq<char>,
    pub message: Seq<char>,
    pub fields: Seq<FieldView>,
}

impl View for LogEvent {
    type V = LogEventView;

    open spec fn view(&self) -> LogEventView {
        LogEventView {
            level: self.level,
            target: self.target@,
            message: self.message@,
            fields: fields_said(self.fields@),
        }
    }
}

impl LogEventView {
    /// An event without fields.
    pub open spec fn new(level: Level, target: Seq<char>, message: Seq<char>) -> LogEventView {
        LogEventView { level, target, message, fields: Seq::empty() }
    }

    /// The event with one more field.
    pub open spec fn field(self, name: Seq<char>, value: FieldValueView) -> LogEventView {
        LogEventView { fields: self.fields.push(FieldView { name, value }), ..self }
    }

    /// The event with a text that is shown in quotes.
    pub open spec fn text(self, name: Seq<char>, value: Seq<char>) -> LogEventView {
        self.field(name, FieldValueView::Text(value))
    }

    /// The event with a text that is shown as it is.
    pub open spec fn shown(self, name: Seq<char>, value: Seq<char>) -> LogEventView {
        self.field(name, FieldValueView::Shown(value))
    }

    /// The event with a number.
    pub open spec fn number(self, name: Seq<char>, value: u64) -> LogEventView {
        self.field(name, FieldValueView::Number(value))
    }

    /// The event with a flag.
    pub open spec fn flag(self, name: Seq<char>, value: bool) -> LogEventView {
        self.field(name, FieldValueView::Flag(value))
    }
}

impl LogEvent {
    /// An event without fields.
    pub fn new(level: Level, target: &'static str, message: &str) -> (event: LogEvent)
        ensures
            event@ == LogEventView::new(level, target@, message@),
    {
        LogEvent { level, target, message: message.to_owned(), fields: Vec::new() }
    }

    /// Adds a field.
    fn field(self, name: &'static str, value: FieldValue) -> (event: LogEvent)
        ensures
            event@ == self@.field(name@, value@),
    {
        let mut event: LogEvent = self;
        event.fields.push(Field { name, value });
        assert(event@ == self@.field(name@, value@));
        event
    }

    /// Adds a text that is shown in quotes.
    pub fn text(self, name: &'static str, value: &str) -> (event: LogEvent)
        ensures
            event@ == self@.text(name@, value@),
    {
        self.field(name, FieldValue::Text(value.to_owned()))
    }

    /// Adds a text that is shown as it is.
    pub fn shown(self, name: &'static str, value: &str) -> (event: LogEvent)
        ensures
            event@ == self@.shown(name@, value@),
    {
        self.field(name, FieldValue::Shown(value.to_owned()))
    }

    /// Adds a number.
    pub fn number(self, name: &'static str, value: u64) -> (event: LogEvent)
        ensures
            event@ == self@.number(name@, value),
    {
        self.field(name, FieldValue::Number(value))
    }

    /// Adds a flag.
    pub fn flag(self, name: &'static str, value: bool) -> (event: LogEvent)
        ensures
            event@ == self@.flag(name@, value),
    {
        self.field(name, FieldValue::Flag(value))
    }
}

/// The permissions of the log file and its backups: only the owner may read and write them.
pub const LOG_MODE: u32 = 0o600;

/// The size at which the log file rotates.
pub const MAX_LOG_BYTES: u64 = 26_214_400;

/// How many rotated log files are kept.
pub const LOG_BACKUPS: usize = 5;

/// Returns the log filter for a verbosity.
pub fn default_filter(verbosity: u8) -> (filter: &'static str)
    ensures
        filter@ == (if verbosity == 0 {
            "info"@
        } else if verbosity == 1 {
            "debug"@
        } else {
            "trace"@
        }),
{
    if verbosity == 0 {
        "info"
    } else if verbosity == 1 {
        "debug"
    } else {
        "trace"
    }
}

/// Returns whether an event should appear on the operator's terminal: never the output of child
/// processes, and on a compact terminal only warnings and errors.
pub fn terminal_event_enabled(target: &str, level: Level, compact_terminal: bool) -> (enabled: bool)
    ensures
        enabled == (target@ != "val::command_output"@ && (!compact_terminal || level == Level::Warn
            || level == Level::Error)),
{
    if same_text(target, COMMAND_OUTPUT_TARGET) {
        return false;
    }
    if compact_terminal {
        match level {
            Level::Error | Level::Warn => true,
            _ => false,
        }
    } else {
        true
    }
}

/// A change to the files of a log.
#[derive(Debug, Clone, PartialEq, Eq)]
pub enum FileStep {
    /// Remove a file, if it exists.
    Remove(String),
    /// Give a file another name, if it exists; a file of that name is replaced.
    Rename(String, String),
}

/// What a [`FileStep`] says.
#[verifier::ext_equal]
pub enum FileStepView {
    Remove(Seq<char>),
    Rename(Seq<char>, Seq<char>),
}

impl View for FileStep {
    type V = FileStepView;

    open spec fn view(&self) -> FileStepView {
        match *self {
            FileStep::Remove(path) => FileStepView::Remove(path@),
            FileStep::Rename(from, to) => FileStepView::Rename(from@, to@),
        }
    }
}

/// What a sequence of steps says.
pub open spec fn steps_said(steps: Seq<FileStep>) -> Seq<FileStepView> {
    Seq::new(steps.len(), |i: int| steps[i]@)
}

/// A numbered backup of a log.
pub open spec fn backup_name(path: Seq<char>, index: nat) -> Seq<char> {
    path + "."@ + text::decimal(index)
}

/// Moving every backup up to a number one further, the last one first.
pub open spec fn shifts(path: Seq<char>, upto: nat) -> Seq<FileStepView>
    decreases upto,
{
    if upto == 0 {
        Seq::empty()
    } else {
        seq![FileStepView::Rename(backup_name(path, upto), backup_name(path, upto + 1))] + shifts(
            path,
            (upto - 1) as nat,
        )
    }
}

/// Rotating a log: the oldest backup goes, every other one moves one further, and the log becomes
/// the first one. Without backups the log itself goes.
pub open spec fn rotation(path: Seq<char>, backups: nat) -> Seq<FileStepView> {
    if backups == 0 {
        seq![FileStepView::Remove(path)]
    } else {
        seq![FileStepView::Remove(backup_name(path, backups))] + shifts(
            path,
            (backups - 1) as nat,
        ) + seq![FileStepView::Rename(path, backup_name(path, 1))]
    }
}

/// A sum that stops at the largest number.
pub open spec fn capped_sum(left: u64, right: u64) -> u64 {
    if left + right <= u64::MAX {
        (left + right) as u64
    } else {
        u64::MAX
    }
}

/// Whether a log has to rotate before it grows.
pub open spec fn rotates_before(bytes: u64, incoming: u64, max_bytes: u64) -> bool {
    bytes > 0 && capped_sum(bytes, incoming) > max_bytes
}

/// A bounded log: where it is, how large it is, and how large it may become.
#[derive(Debug, Clone, PartialEq, Eq)]
pub struct SecureRotatingFile {
    pub path: String,
    pub bytes: u64,
    pub max_bytes: u64,
    pub backups: usize,
}

impl SecureRotatingFile {
    /// Takes a log that was opened at a size.
    pub fn new(path: &str, bytes: u64, max_bytes: u64, backups: usize) -> (log: SecureRotatingFile)
        ensures
            log.path@ == path@,
            log.bytes == bytes,
            log.max_bytes == max_bytes,
            log.backups == backups,
    {
        SecureRotatingFile { path: path.to_owned(), bytes, max_bytes, backups }
    }

    /// Returns whether a log that was just opened has to rotate first.
    pub fn is_full(&self) -> (full: bool)
        ensures
            full == (self.bytes >= self.max_bytes),
    {
        self.bytes >= self.max_bytes
    }

    /// Returns whether the log has to rotate before so many bytes are written.
    pub fn must_rotate(&self, incoming: u64) -> (rotate: bool)
        ensures
            rotate == rotates_before(self.bytes, incoming, self.max_bytes),
    {
        self.bytes > 0 && self.bytes.saturating_add(incoming) > self.max_bytes
    }

    /// Returns the numbered backup path.
    pub fn backup_path(&self, index: usize) -> (path: String)
        ensures
            path@ == backup_name(self.path@, index as nat),
    {
        join3(self.path.as_str(), ".", number(index as u64).as_str())
    }

    /// Rotates the active log and prunes the oldest backup: returns the changes in order. The log
    /// is then opened anew and empty.
    pub fn rotate(&mut self) -> (steps: Vec<FileStep>)
        ensures
            steps_said(steps@) == rotation(old(self).path@, old(self).backups as nat),
            final(self).path@ == old(self).path@,
            final(self).max_bytes == old(self).max_bytes,
            final(self).backups == old(self).backups,
            final(self).bytes == 0,
    {
        let mut steps: Vec<FileStep> = Vec::new();
        if self.backups == 0 {
            steps.push(FileStep::Remove(self.path.clone()));
        } else {
            steps.push(FileStep::Remove(self.backup_path(self.backups)));
            let ghost removed = FileStepView::Remove(
                backup_name(self.path@, self.backups as nat),
            );
            let mut index: usize = self.backups - 1;
            assert(steps_said(steps@) + shifts(self.path@, index as nat) == seq![removed] + shifts(
                self.path@,
                index as nat,
            ));
            while index > 0
                invariant
                    index < self.backups,
                    self.path@ == old(self).path@,
                    self.backups == old(self).backups,
                    self.max_bytes == old(self).max_bytes,
                    steps_said(steps@) + shifts(self.path@, index as nat) == seq![removed] + shifts(
                        self.path@,
                        (self.backups - 1) as nat,
                    ),
                decreases index,
            {
                let ghost before = steps_said(steps@);
                let ghost step = FileStepView::Rename(
                    backup_name(self.path@, index as nat),
                    backup_name(self.path@, (index + 1) as nat),
                );
                steps.push(FileStep::Rename(self.backup_path(index), self.backup_path(index + 1)));
                assert(steps_said(steps@) == before.push(step));
                assert(before + shifts(self.path@, index as nat) == before.push(step) + shifts(
                    self.path@,
                    (index - 1) as nat,
                ));
                index = index - 1;
            }
            let ghost before = steps_said(steps@);
            assert(before + shifts(self.path@, 0) == before);
            steps.push(FileStep::Rename(self.path.clone(), self.backup_path(1)));
            assert(steps_said(steps@) == before + seq![
                FileStepView::Rename(self.path@, backup_name(self.path@, 1)),
            ]);
        }
        self.bytes = 0;
        steps
    }

    /// Counts what was written.
    pub fn wrote(&mut self, written: u64)
        ensures
            final(self).path@ == old(self).path@,
            final(self).max_bytes == old(self).max_bytes,
            final(self).backups == old(self).backups,
            final(self).bytes == capped_sum(old(self).bytes, written),
    {
        self.bytes = self.bytes.saturating_add(written);
    }
}

/// What stands at a path, if anything does.
pub open spec fn file_at<V>(files: Map<Seq<char>, V>, path: Seq<char>) -> Option<V> {
    if files.dom().contains(path) {
        Some(files[path])
    } else {
        None
    }
}

/// Files after one change.
pub open spec fn changed<V>(files: Map<Seq<char>, V>, step: FileStepView) -> Map<Seq<char>, V> {
    match step {
        FileStepView::Remove(path) => files.remove(path),
        FileStepView::Rename(from, to) => if files.dom().contains(from) {
            files.remove(from).insert(to, files[from])
        } else {
            files
        },
    }
}

/// Files after changes in order.
pub open spec fn applied<V>(files: Map<Seq<char>, V>, steps: Seq<FileStepView>) -> Map<Seq<char>, V>
    decreases steps.len(),
{
    if steps.len() == 0 {
        files
    } else {
        applied(changed(files, steps[0]), steps.drop_first())
    }
}

/// Whether a path is a backup of a log up to a number.
pub open spec fn is_backup(path: Seq<char>, log: Seq<char>, upto: nat) -> bool {
    exists|i: nat| 1 <= i <= upto && path == #[trigger] backup_name(log, i)
}

/// Backups with different numbers have different names, and none has the name of the log.
proof fn lemma_backup_names_differ(path: Seq<char>, left: nat, right: nat)
    ensures
        backup_name(path, left) != path,
        left != right ==> backup_name(path, left) != backup_name(path, right),
{
    reveal_strlit(".");
    assert(backup_name(path, left).len() > path.len());
    if backup_name(path, left) == backup_name(path, right) {
        let start = path.len() + 1;
        assert(backup_name(path, left).skip(start as int) == text::decimal(left));
        assert(backup_name(path, right).skip(start as int) == text::decimal(right));
        text::lemma_decimal_tells_numbers_apart(left, right);
    }
}

/// Changes one after the other.
proof fn lemma_applied_in_parts<V>(
    files: Map<Seq<char>, V>,
    first: Seq<FileStepView>,
    second: Seq<FileStepView>,
)
    ensures
        applied(files, first + second) == applied(applied(files, first), second),
    decreases first.len(),
{
    if first.len() == 0 {
        assert(first + second == second);
    } else {
        assert((first + second).drop_first() == first.drop_first() + second);
        lemma_applied_in_parts(changed(files, first[0]), first.drop_first(), second);
    }
}

/// A single change.
proof fn lemma_applied_once<V>(files: Map<Seq<char>, V>, step: FileStepView)
    ensures
        applied(files, seq![step]) == changed(files, step),
{
    reveal_with_fuel(applied, 2);
    assert(seq![step].drop_first() == Seq::<FileStepView>::empty());
}

/// Moving backups one further, when the place behind the last one is free.
proof fn lemma_shifted<V>(files: Map<Seq<char>, V>, path: Seq<char>, upto: nat)
    requires
        !files.dom().contains(backup_name(path, upto + 1)),
    ensures
        !applied(files, shifts(path, upto)).dom().contains(backup_name(path, 1)),
        forall|i: nat|
            2 <= i <= upto + 1 ==> file_at(
                applied(files, shifts(path, upto)),
                #[trigger] backup_name(path, i),
            ) == file_at(files, backup_name(path, (i - 1) as nat)),
        forall|other: Seq<char>|
            !is_backup(other, path, upto + 1) ==> #[trigger] file_at(
                applied(files, shifts(path, upto)),
                other,
            ) == file_at(files, other),
    decreases upto,
{
    let after = applied(files, shifts(path, upto));
    if upto > 0 {
        let step = shifts(path, upto)[0];
        let moved = changed(files, step);
        assert(shifts(path, upto).drop_first() == shifts(path, (upto - 1) as nat));
        lemma_backup_names_differ(path, upto, upto + 1);
        lemma_shifted(moved, path, (upto - 1) as nat);
        assert forall|i: nat| 2 <= i <= upto + 1 implies file_at(
            after,
            #[trigger] backup_name(path, i),
        ) == file_at(files, backup_name(path, (i - 1) as nat)) by {
            if i == upto + 1 {
                assert forall|j: nat| 1 <= j <= upto implies #[trigger] backup_name(path, j)
                    != backup_name(path, i) by {
                    lemma_backup_names_differ(path, j, i);
                }
                assert(!is_backup(backup_name(path, i), path, upto));
                assert(file_at(after, backup_name(path, i)) == file_at(
                    moved,
                    backup_name(path, i),
                ));
            } else {
                lemma_backup_names_differ(path, (i - 1) as nat, upto);
                lemma_backup_names_differ(path, (i - 1) as nat, upto + 1);
            }
        }
        assert forall|other: Seq<char>|
            !is_backup(other, path, upto + 1) implies #[trigger] file_at(after, other) == file_at(
            files,
            other,
        ) by {
            assert forall|j: nat| 1 <= j <= upto implies other != #[trigger] backup_name(
                path,
                j,
            ) by {
                assert(1 <= j <= upto + 1);
            }
            assert(!is_backup(other, path, upto));
            assert(other != backup_name(path, upto));
            assert(other != backup_name(path, upto + 1));
        }
    } else {
        assert forall|i: nat| 2 <= i <= upto + 1 implies file_at(
            after,
            #[trigger] backup_name(path, i),
        ) == file_at(files, backup_name(path, (i - 1) as nat)) by {}
    }
}

/// Rotating moves the log to its first backup and every backup one further. Of what the log and
/// its backups held, only the oldest backup goes, and no other file changes.
pub proof fn law_rotation_keeps_the_newest<V>(
    files: Map<Seq<char>, V>,
    path: Seq<char>,
    backups: nat,
)
    ensures
        !applied(files, rotation(path, backups)).dom().contains(path),
        backups >= 1 ==> file_at(applied(files, rotation(path, backups)), backup_name(path, 1))
            == file_at(files, path),
        forall|i: nat|
            2 <= i <= backups ==> file_at(
                applied(files, rotation(path, backups)),
                #[trigger] backup_name(path, i),
            ) == file_at(files, backup_name(path, (i - 1) as nat)),
        forall|other: Seq<char>|
            other != path && !is_backup(other, path, backups) ==> #[trigger] file_at(
                applied(files, rotation(path, backups)),
                other,
            ) == file_at(files, other),
{
    let steps = rotation(path, backups);
    let after = applied(files, steps);
    if backups == 0 {
        lemma_applied_once(files, FileStepView::Remove(path));
    } else {
        let oldest = backup_name(path, backups);
        let removal = seq![FileStepView::Remove(oldest)];
        let moves = shifts(path, (backups - 1) as nat);
        let last = seq![FileStepView::Rename(path, backup_name(path, 1))];
        let pruned = files.remove(oldest);
        let moved = applied(pruned, moves);
        lemma_applied_in_parts(files, removal + moves, last);
        lemma_applied_in_parts(files, removal, moves);
        lemma_applied_once(files, removal[0]);
        lemma_applied_once(moved, last[0]);
        lemma_shifted(pruned, path, (backups - 1) as nat);
        assert forall|j: nat| 1 <= j <= backups implies path != #[trigger] backup_name(path, j) by {
            lemma_backup_names_differ(path, j, j);
        }
        assert(!is_backup(path, path, backups));
        assert(file_at(moved, path) == file_at(files, path));
        lemma_backup_names_differ(path, 1, 1);
        assert forall|i: nat| 2 <= i <= backups implies file_at(
            after,
            #[trigger] backup_name(path, i),
        ) == file_at(files, backup_name(path, (i - 1) as nat)) by {
            lemma_backup_names_differ(path, i, 1);
            lemma_backup_names_differ(path, (i - 1) as nat, backups);
            assert(file_at(moved, backup_name(path, i)) == file_at(
                pruned,
                backup_name(path, (i - 1) as nat),
            ));
        }
        assert forall|other: Seq<char>|
            other != path && !is_backup(other, path, backups) implies #[trigger] file_at(
            after,
            other,
        ) == file_at(files, other) by {
            assert(file_at(moved, other) == file_at(pruned, other));
            assert(other != backup_name(path, 1));
            assert(other != oldest);
        }
    }
}

/// A log that starts within its limit stays within it, unless a single write is larger than the
/// limit: then the log holds that write alone.
pub proof fn law_log_stays_within_its_limit(
    bytes: u64,
    incoming: u64,
    written: u64,
    max_bytes: u64,
)
    requires
        bytes <= max_bytes,
        written <= incoming,
    ensures
        ({
            let kept = if rotates_before(bytes, incoming, max_bytes) {
                0u64
            } else {
                bytes
            };
            let after = capped_sum(kept, written);
            after <= max_bytes || (kept == 0 && after == written)
        }),
{
}

/// Logs are for their owner alone: the owner may read and write them, nobody may run them, and nobody
/// else may do anything. A log and its backups together never take more than a hundred and fifty
/// mebibytes.
pub proof fn law_logs_are_private_and_bounded()
    ensures
        LOG_MODE == 0o400 + 0o200,
        LOG_MODE & 0o077 == 0,
        (LOG_BACKUPS + 1) * MAX_LOG_BYTES == 150 * 1024 * 1024,
        MAX_LOG_BYTES == 25 * 1024 * 1024,
{
    assert(0o600u32 & 0o077 == 0) by (bit_vector);
}

/// A log rotates before it would outgrow its limit, and an empty one never does.
pub proof fn law_logs_rotate_before_they_outgrow_their_limit(
    bytes: u64,
    incoming: u64,
    max_bytes: u64,
)
    ensures
        rotates_before(bytes, incoming, max_bytes) && max_bytes < u64::MAX <==> bytes > 0 && bytes
            + incoming > max_bytes && max_bytes < u64::MAX,
        bytes == 0 ==> !rotates_before(bytes, incoming, max_bytes),
        bytes + incoming <= u64::MAX ==> capped_sum(bytes, incoming) == bytes + incoming,
        bytes + incoming > u64::MAX ==> capped_sum(bytes, incoming) == u64::MAX,
{
}

/// A backup is named like its log, with a dot and its number behind it.
pub proof fn law_backups_are_numbered(path: Seq<char>, index: nat)
    ensures
        backup_name(path, index) == path + seq!['.'] + text::decimal(index),
{
    reveal_strlit(".");
    assert("."@ == seq!['.']);
}

} // verus!
