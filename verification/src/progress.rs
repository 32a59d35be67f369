//! Compact in-place progress for long-running stages.

use vstd::prelude::*;

use crate::text;
use crate::text::{join2, join3, join4, join5, number};

verus! {

/// The spinner's characters, in the order in which they are shown.
pub const SPINNER_FRAMES: [char; 4] = ['|', '/', '-', '\\'];

/// The time between two spinner frames, in milliseconds.
pub const SPINNER_INTERVAL_MILLIS: u64 = 100;

/// Column where the status text begins, matching the restart detail lines.
pub const STATUS_COLUMN: usize = 45;

/// The fewest dots between a label and what follows it.
pub const FEWEST_DOTS: usize = 3;

/// Nanoseconds in a second.
pub const NANOS_PER_SECOND: u64 = 1_000_000_000;

/// A compact duration: `12s` below a minute, `3m 28s` from there on.
pub open spec fn duration_text(total_seconds: u64) -> Seq<char> {
    let minutes = (total_seconds / 60) as nat;
    let seconds = (total_seconds % 60) as nat;
    if minutes == 0 {
        text::decimal(seconds) + "s"@
    } else {
        text::decimal(minutes) + "m "@ + text::decimal(seconds) + "s"@
    }
}

/// Formats a compact duration as `12s` or `3m 28s`.
pub fn format_duration(total_seconds: u64) -> (formatted: String)
    ensures
        formatted@ == duration_text(total_seconds),
{
    let minutes: u64 = total_seconds / 60;
    let seconds: u64 = total_seconds % 60;
    if minutes == 0 {
        join2(number(seconds).as_str(), "s")
    } else {
        join4(number(minutes).as_str(), "m ", number(seconds).as_str(), "s")
    }
}

/// How many bytes a text takes.
pub open spec fn byte_len(text: Seq<char>) -> nat {
    vstd::utf8::encode_utf8(text).len()
}

/// How many dots bring what follows a label to a column, when `between` bytes stand between the
/// label and the column besides the dots.
pub open spec fn dot_count(label: Seq<char>, between: nat, column: nat) -> nat {
    if byte_len(label) + between + FEWEST_DOTS <= column {
        (column - byte_len(label) - between) as nat
    } else {
        FEWEST_DOTS as nat
    }
}

/// A run of dots.
pub open spec fn dots(count: nat) -> Seq<char> {
    Seq::new(count, |i: int| '.')
}

/// Writes a run of dots that brings what follows a label to a column.
pub fn leader(label: &str, between: usize, column: usize) -> (leader: String)
    ensures
        leader@ == dots(dot_count(label@, between as nat, column as nat)),
{
    let taken: usize = label.as_bytes().len().saturating_add(between);
    let room: usize = column.saturating_sub(taken);
    let count: usize = if room < FEWEST_DOTS {
        FEWEST_DOTS
    } else {
        room
    };
    let mut leader: String = String::new();
    let mut written: usize = 0;
    while written < count
        invariant
            written <= count,
            leader@ == dots(written as nat),
        decreases count - written,
    {
        leader.push('.');
        written = written + 1;
        assert(leader@ == dots(written as nat));
    }
    leader
}

/// A label, dots up to the status column, and a status.
pub open spec fn status_text(label: Seq<char>, status: Seq<char>) -> Seq<char> {
    label + " "@ + dots(dot_count(label, 2, STATUS_COLUMN as nat)) + " "@ + status
}

/// Aligns a status behind a label.
pub fn status_line(label: &str, status: &str) -> (line: String)
    ensures
        line@ == status_text(label@, status@),
{
    join5(label, " ", leader(label, 2, STATUS_COLUMN).as_str(), " ", status)
}

/// Marks a stage as running.
pub fn in_progress_line(label: &str) -> (line: String)
    ensures
        line@ == status_text(label@, "in progress"@),
{
    status_line(label, "in progress")
}

/// A stage with its elapsed time and a spinner.
pub open spec fn frame_text(label: Seq<char>, elapsed_seconds: u64, frame: usize) -> Seq<char> {
    status_text(
        label,
        duration_text(elapsed_seconds) + " "@ + seq![SPINNER_FRAMES[(frame % 4) as int]],
    )
}

/// Renders one frame of a running stage.
pub fn live_frame(label: &str, elapsed_seconds: u64, frame: usize) -> (line: String)
    ensures
        line@ == frame_text(label@, elapsed_seconds, frame),
{
    let mut status: String = join2(format_duration(elapsed_seconds).as_str(), " ");
    status.push(SPINNER_FRAMES[frame % 4]);
    assert(status@ == duration_text(elapsed_seconds) + " "@ + seq![
        SPINNER_FRAMES[(frame % 4) as int],
    ]);
    status_line(label, status.as_str())
}

/// A line that replaces the terminal's current one.
pub open spec fn in_place(line: Seq<char>) -> Seq<char> {
    "\r"@ + line + "\x1b[K"@
}

/// Makes a line replace the terminal's current one.
pub fn in_place_line(line: &str) -> (written: String)
    ensures
        written@ == in_place(line@),
{
    join3("\r", line, "\x1b[K")
}

/// The spinners that are running and the pauses that are held.
#[derive(Debug, Clone, Copy, PartialEq, Eq, Structural)]
pub struct Spinners {
    pub live: usize,
    pub paused: usize,
}

impl Spinners {
    /// Whether a spinner's line is on the terminal.
    pub open spec fn shows(self) -> bool {
        self.live > 0 && self.paused == 0
    }

    /// One more pause is held.
    pub open spec fn paused_once_more(self) -> Spinners {
        Spinners { paused: (self.paused + 1) as usize, ..self }
    }

    /// One pause less is held.
    pub open spec fn paused_once_less(self) -> Spinners {
        Spinners { paused: (self.paused - 1) as usize, ..self }
    }

    /// No spinner and no pause.
    pub fn new() -> (spinners: Spinners)
        ensures
            spinners.live == 0,
            spinners.paused == 0,
    {
        Spinners { live: 0, paused: 0 }
    }
}

/// Pauses terminal spinners so a child that inherits the terminal cannot be overwritten.
///
/// `systemctl` and `fdctl configure` attach to the terminal. A live in-place spinner would clobber
/// their output and a sudo password prompt. The pause ends when it is released.
#[must_use]
pub struct LiveProgressPause {
    /// Whether the spinner's line has to be ended before the child writes.
    pub parks: bool,
}

impl LiveProgressPause {
    /// Stops spinner frames and parks the current line before inherited I/O.
    pub fn new(spinners: &mut Spinners) -> (pause: LiveProgressPause)
        requires
            old(spinners).paused < usize::MAX,
        ensures
            *final(spinners) == old(spinners).paused_once_more(),
            pause.parks == old(spinners).shows(),
    {
        let first: bool = spinners.paused == 0;
        spinners.paused = spinners.paused + 1;
        LiveProgressPause { parks: first && spinners.live > 0 }
    }

    /// Ends the pause; returns whether the current line has to be ended.
    pub fn release(self, spinners: &mut Spinners) -> (parks: bool)
        requires
            old(spinners).paused > 0,
        ensures
            *final(spinners) == old(spinners).paused_once_less(),
            parks == final(spinners).shows(),
    {
        let last: bool = spinners.paused == 1;
        spinners.paused = spinners.paused - 1;
        last && spinners.live > 0
    }
}

/// Status line for one compact stage.
pub struct StageProgress {
    pub enabled: bool,
    pub tty: bool,
    pub label: String,
}

/// What starting a stage writes: its first frame on a terminal, unless spinners are paused, and a
/// static line elsewhere.
pub open spec fn started_text(
    enabled: bool,
    tty: bool,
    label: Seq<char>,
    spinners: Spinners,
) -> Seq<char> {
    if !enabled {
        Seq::empty()
    } else if !tty {
        status_text(label, "in progress"@) + "\n"@
    } else if spinners.paused > 0 {
        Seq::empty()
    } else {
        in_place(frame_text(label, 0, 0))
    }
}

/// What finishing a stage writes.
pub open spec fn finished_text(
    enabled: bool,
    tty: bool,
    label: Seq<char>,
    status: Seq<char>,
) -> Seq<char> {
    if !enabled {
        Seq::empty()
    } else if tty {
        in_place(status_text(label, status)) + "\n"@
    } else {
        status_text(label, status) + "\n"@
    }
}

impl StageProgress {
    /// Whether the stage has a spinner.
    pub open spec fn spins(self) -> bool {
        self.enabled && self.tty
    }

    /// Starts a stage: spinner and elapsed time on a terminal, otherwise a static line. Returns the
    /// stage with what has to be written.
    pub fn start(enabled: bool, tty: bool, label: &str, spinners: &mut Spinners) -> (started: (
        StageProgress,
        String,
    ))
        requires
            old(spinners).live < usize::MAX,
        ensures
            started.0.enabled == enabled,
            started.0.tty == tty,
            started.0.label@ == label@,
            started.1@ == started_text(enabled, tty, label@, *old(spinners)),
            final(spinners).paused == old(spinners).paused,
            final(spinners).live == old(spinners).live + (if enabled && tty {
                1int
            } else {
                0
            }),
    {
        let written: String = if enabled && tty {
            let paused: bool = spinners.paused > 0;
            spinners.live = spinners.live + 1;
            if paused {
                String::new()
            } else {
                in_place_line(live_frame(label, 0, 0).as_str())
            }
        } else if enabled {
            join2(in_progress_line(label).as_str(), "\n")
        } else {
            String::new()
        };
        (StageProgress { enabled, tty, label: label.to_owned() }, written)
    }

    /// The next frame of the stage's spinner, unless spinners are paused.
    pub fn frame(
        &self,
        elapsed_seconds: u64,
        frame: usize,
        spinners: &Spinners,
    ) -> (written: Option<String>)
        ensures
            written is Some <==> spinners.paused == 0,
            written matches Some(w) ==> w@ == in_place(
                frame_text(self.label@, elapsed_seconds, frame),
            ),
    {
        if spinners.paused > 0 {
            None
        } else {
            Some(in_place_line(live_frame(self.label.as_str(), elapsed_seconds, frame).as_str()))
        }
    }

    /// Ends the stage's spinner.
    fn stop_worker(&self, spinners: &mut Spinners)
        requires
            self.spins() ==> old(spinners).live > 0,
        ensures
            final(spinners).paused == old(spinners).paused,
            final(spinners).live == old(spinners).live - (if self.spins() {
                1int
            } else {
                0
            }),
    {
        if self.enabled && self.tty {
            spinners.live = spinners.live - 1;
        }
    }

    /// Ends the spinner and returns the final status of this stage as it has to be written.
    pub fn finish(self, status: &str, spinners: &mut Spinners) -> (written: String)
        requires
            self.spins() ==> old(spinners).live > 0,
        ensures
            written@ == finished_text(self.enabled, self.tty, self.label@, status@),
            final(spinners).paused == old(spinners).paused,
            final(spinners).live == old(spinners).live - (if self.spins() {
                1int
            } else {
                0
            }),
    {
        self.stop_worker(spinners);
        if !self.enabled {
            return String::new();
        }
        let line: String = status_line(self.label.as_str(), status);
        if self.tty {
            join2(in_place_line(line.as_str()).as_str(), "\n")
        } else {
            join2(line.as_str(), "\n")
        }
    }

    /// Ends a stage that has no final status; a spinner's line is ended.
    pub fn abandon(self, spinners: &mut Spinners) -> (written: String)
        requires
            self.spins() ==> old(spinners).live > 0,
        ensures
            written@ == (if self.spins() {
                "\n"@
            } else {
                Seq::empty()
            }),
            final(spinners).paused == old(spinners).paused,
            final(spinners).live == old(spinners).live - (if self.spins() {
                1int
            } else {
                0
            }),
    {
        self.stop_worker(spinners);
        if self.enabled && self.tty {
            "\n".to_owned()
        } else {
            String::new()
        }
    }
}

/// Pauses nest: a pause within another one parks nothing and leaves the other one in force, and
/// once both are released everything is as before.
pub proof fn law_pauses_nest(spinners: Spinners)
    requires
        spinners.paused + 2 <= usize::MAX,
    ensures
        !spinners.paused_once_more().shows(),
        !spinners.paused_once_more().paused_once_more().paused_once_less().shows(),
        spinners.paused_once_more().paused_once_more().paused_once_less()
            == spinners.paused_once_more(),
        spinners.paused_once_more().paused_once_less() == spinners,
{
}

/// The status of a label that leaves room for it begins at the status column.
pub proof fn law_status_begins_at_the_column(label: Seq<char>, status: Seq<char>)
    requires
        byte_len(label) + 2 + FEWEST_DOTS <= STATUS_COLUMN,
    ensures
        byte_len(status_text(label, status)) == STATUS_COLUMN + byte_len(status),
{
    let count = dot_count(label, 2, STATUS_COLUMN as nat);
    reveal_strlit(" ");
    lemma_bytes_of_dots(count);
    lemma_bytes_add_up(label, " "@);
    lemma_bytes_add_up(label + " "@, dots(count));
    lemma_bytes_add_up(label + " "@ + dots(count), " "@);
    lemma_bytes_add_up(label + " "@ + dots(count) + " "@, status);
    lemma_byte_of_ascii(' ');
    assert(" "@ == seq![' ']);
}

/// The bytes of two texts add up.
proof fn lemma_bytes_add_up(first: Seq<char>, second: Seq<char>)
    ensures
        byte_len(first + second) == byte_len(first) + byte_len(second),
    decreases first.len(),
{
    if first.len() == 0 {
        assert(first + second == second);
    } else {
        assert((first + second).drop_first() == first.drop_first() + second);
        lemma_bytes_add_up(first.drop_first(), second);
    }
}

/// An ASCII character takes one byte.
proof fn lemma_byte_of_ascii(c: char)
    requires
        (c as u32) < 0x80,
    ensures
        byte_len(seq![c]) == 1,
{
    vstd::utf8::is_ascii_chars_encode_utf8(seq![c]);
}

/// Every dot takes one byte.
proof fn lemma_bytes_of_dots(count: nat)
    ensures
        byte_len(dots(count)) == count,
    decreases count,
{
    if count > 0 {
        lemma_bytes_of_dots((count - 1) as nat);
        lemma_byte_of_ascii('.');
        lemma_bytes_add_up(dots((count - 1) as nat), seq!['.']);
        assert(dots((count - 1) as nat) + seq!['.'] == dots(count));
    }
}

/// A time is shown in minutes and seconds, and in seconds alone below a minute.
pub proof fn law_durations_are_minutes_and_seconds(minutes: u64, seconds: u64)
    requires
        minutes * 60 + seconds <= u64::MAX,
        seconds < 60,
    ensures
        minutes > 0 ==> duration_text((minutes * 60 + seconds) as u64) == text::decimal(
            minutes as nat,
        ) + "m "@ + text::decimal(seconds as nat) + "s"@,
        minutes == 0 ==> duration_text(seconds) == text::decimal(seconds as nat) + "s"@,
{
    let total = (minutes * 60 + seconds) as u64;
    assert(total / 60 == minutes && total % 60 == seconds) by (nonlinear_arith)
        requires
            total == minutes * 60 + seconds,
            seconds < 60,
    ;
}

/// A status line is the label, dots, and the status, separated by single spaces, and never has fewer
/// than three dots.
pub proof fn law_status_lines_have_dots(label: Seq<char>, status: Seq<char>)
    ensures
        exists|count: nat|
            count >= 3 && status_text(label, status) == label + seq![' '] + #[trigger] dots(count)
                + seq![' '] + status,
        byte_len(label) + 5 > 45 ==> status_text(label, status) == label + seq![' '] + dots(3)
            + seq![' '] + status,
        byte_len(label) + 5 <= 45 ==> byte_len(status_text(label, status)) == 45 + byte_len(status),
        forall|count: nat|
            (#[trigger] dots(count)).len() == count && forall|i: int|
                0 <= i < count ==> dots(count)[i] == '.',
{
    reveal_strlit(" ");
    assert(" "@ == seq![' ']);
    let count = dot_count(label, 2, STATUS_COLUMN as nat);
    assert(status_text(label, status) == label + seq![' '] + dots(count) + seq![' '] + status);
    if byte_len(label) + 5 <= 45 {
        law_status_begins_at_the_column(label, status);
    }
}

/// A running stage shows its elapsed time and one of the four spinner characters, which come round
/// every four frames.
pub proof fn law_spinners_go_round(label: Seq<char>, elapsed_seconds: u64, round: usize)
    requires
        round * 4 + 3 <= usize::MAX,
    ensures
        frame_text(label, elapsed_seconds, (round * 4) as usize) == status_text(
            label,
            duration_text(elapsed_seconds) + seq![' ', '|'],
        ),
        frame_text(label, elapsed_seconds, (round * 4 + 1) as usize) == status_text(
            label,
            duration_text(elapsed_seconds) + seq![' ', '/'],
        ),
        frame_text(label, elapsed_seconds, (round * 4 + 2) as usize) == status_text(
            label,
            duration_text(elapsed_seconds) + seq![' ', '-'],
        ),
        frame_text(label, elapsed_seconds, (round * 4 + 3) as usize) == status_text(
            label,
            duration_text(elapsed_seconds) + seq![' ', '\\'],
        ),
{
    reveal_strlit(" ");
    let time = duration_text(elapsed_seconds);
    assert(time + " "@ + seq!['|'] == time + seq![' ', '|']);
    assert(time + " "@ + seq!['/'] == time + seq![' ', '/']);
    assert(time + " "@ + seq!['-'] == time + seq![' ', '-']);
    assert(time + " "@ + seq!['\\'] == time + seq![' ', '\\']);
}

/// Every stage that progress shows ends with its status on a line of its own, and a stage that it
/// does not show writes nothing. On a terminal the line replaces the spinner's; elsewhere no control
/// sequence is written.
pub proof fn law_stages_end_with_their_status(
    label: Seq<char>,
    status: Seq<char>,
    spinners: Spinners,
)
    ensures
        finished_text(false, true, label, status) == Seq::<char>::empty(),
        finished_text(false, false, label, status) == Seq::<char>::empty(),
        finished_text(true, false, label, status) == status_text(label, status) + seq!['\n'],
        finished_text(true, true, label, status) == seq!['\r'] + status_text(label, status)
            + seq!['\x1b', '[', 'K', '\n'],
        started_text(false, true, label, spinners) == Seq::<char>::empty(),
        started_text(false, false, label, spinners) == Seq::<char>::empty(),
        started_text(true, false, label, spinners) == status_text(label, "in progress"@)
            + seq!['\n'],
        spinners.paused > 0 ==> started_text(true, true, label, spinners) == Seq::<char>::empty(),
        spinners.paused == 0 ==> started_text(true, true, label, spinners) == seq!['\r']
            + status_text(label, "0s |"@) + seq!['\x1b', '[', 'K'],
{
    reveal_strlit("\n");
    reveal_strlit("\r");
    reveal_strlit("\x1b[K");
    reveal_strlit("0s |");
    reveal_strlit("s");
    reveal_strlit(" ");
    let line = status_text(label, status);
    assert(in_place(line) + "\n"@ == seq!['\r'] + line + seq!['\x1b', '[', 'K', '\n']);
    assert(line + "\n"@ == line + seq!['\n']);
    assert(status_text(label, "in progress"@) + "\n"@ == status_text(label, "in progress"@)
        + seq!['\n']);
    assert(duration_text(0) + " "@ + seq!['|'] == "0s |"@) by {
        assert(text::decimal(0) == seq!['0']);
    }
    assert(in_place(status_text(label, "0s |"@)) == seq!['\r'] + status_text(label, "0s |"@)
        + seq!['\x1b', '[', 'K']);
}

} // verus!
