//! Cross-process command serialization.

use vstd::prelude::*;

use crate::process;
use crate::process::executable_in;
use crate::session::{
    with_context, End, Failure, Halt, Inspected, InspectedView, Reply, ReplyView, Request,
    RequestView, Run, Session, Transcript,
};
use crate::session;
use crate::text::join2;

verus! {

/// The lock that a command holds.
#[derive(Debug, PartialEq, Eq)]
pub struct CommandLock {
    pub path: String,
}

/// The lock file of a base path.
pub open spec fn lock_path(base: Seq<char>) -> Seq<char> {
    process::path_in(base, ".val.lock"@)
}

/// Taking the lock on an open lock file.
pub open spec fn take_run(t: Transcript, path: Seq<char>) -> Run<Seq<char>> {
    Run {
        after: t.ask(RequestView::TryLock(path)),
        end: match t.reply() {
            None => End::Waiting,
            Some(ReplyView::Done) => End::Done(path),
            Some(ReplyView::Busy) => End::Failed("another val command is already running"@),
            Some(ReplyView::Error(text)) => End::Failed(
                session::in_context("could not acquire command lock "@ + path, text),
            ),
            Some(_) => End::Failed(
                session::in_context(
                    "could not acquire command lock "@ + path,
                    session::unanswered(),
                ),
            ),
        },
    }
}

/// Acquiring the lock of a base path: the base has to be a directory, and the lock file is opened
/// and restricted to its owner before the lock is taken.
pub open spec fn acquire_run(t: Transcript, base: Seq<char>) -> Run<Seq<char>> {
    let path = lock_path(base);
    let seen = t.inspect(base);
    if !seen.done() {
        seen.stop()
    } else {
        match seen.value() {
            InspectedView::Absent(text) | InspectedView::Unreadable(text) => Run {
                after: seen.after,
                end: End::Failed(
                    session::in_context("base path does not exist: "@ + base, text),
                ),
            },
            InspectedView::Present(facts) => if !facts.is_dir {
                Run {
                    after: seen.after,
                    end: End::Failed("base path is not a directory: "@ + base),
                }
            } else {
                let open = seen.after.perform(RequestView::OpenLock(path)).attempting(
                    "could not open command lock "@ + path,
                );
                if !open.done() {
                    open.stop()
                } else {
                    let secured = open.after.perform(RequestView::SecureLock(path)).attempting(
                        "could not secure command lock "@ + path,
                    );
                    if !secured.done() {
                        secured.stop()
                    } else {
                        take_run(secured.after, path)
                    }
                }
            },
        }
    }
}

impl CommandLock {
    /// Acquires the validator user's exclusive val command lock.
    pub fn acquire(session: &mut Session, base_path: &str) -> (lock: Result<CommandLock, Halt>)
        ensures
            final(session)@ == acquire_run(old(session)@, base_path@).after,
            acquire_run(old(session)@, base_path@).end == (match lock {
                Ok(l) => End::Done(l.path@),
                Err(halt) => halt.end(),
            }),
    {
        match session.inspect(base_path)? {
            Inspected::Absent(text) | Inspected::Unreadable(text) => {
                let attempt: String = join2("base path does not exist: ", base_path);
                return Err(Halt::Failed(with_context(attempt.as_str(), text.as_str())));
            },
            Inspected::Present(facts) => {
                if !facts.is_dir {
                    let message: String = join2("base path is not a directory: ", base_path);
                    return Err(Halt::Failed(Failure { message }));
                }
            },
        }
        let path: String = executable_in(base_path, ".val.lock");
        match session.perform(Request::OpenLock(path.clone())) {
            Ok(_) => {},
            Err(halt) => {
                let attempt: String = join2("could not open command lock ", path.as_str());
                return Err(halt.attempting(attempt.as_str()));
            },
        }
        match session.perform(Request::SecureLock(path.clone())) {
            Ok(_) => {},
            Err(halt) => {
                let attempt: String = join2("could not secure command lock ", path.as_str());
                return Err(halt.attempting(attempt.as_str()));
            },
        }
        let attempt: String = join2("could not acquire command lock ", path.as_str());
        match session.ask(Request::TryLock(path.clone())) {
            None => Err(Halt::Waiting),
            Some(Reply::Done) => Ok(CommandLock { path }),
            Some(Reply::Busy) => Err(
                Halt::Failed(
                    Failure { message: "another val command is already running".to_owned() },
                ),
            ),
            Some(Reply::Error(text)) => Err(
                Halt::Failed(with_context(attempt.as_str(), text.as_str())),
            ),
            Some(_) => Err(
                Halt::Failed(
                    with_context(attempt.as_str(), "the reply does not answer the request"),
                ),
            ),
        }
    }
}

/// What exclusive file locks answer at once: that a file is busy while it is held, and that it has
/// been taken while nobody holds it.
pub open spec fn exclusive_answer(held: Set<Seq<char>>, path: Seq<char>) -> ReplyView {
    if held.contains(path) {
        ReplyView::Busy
    } else {
        ReplyView::Done
    }
}

/// Whether a command that acquires the lock of a base path finds a directory there and a lock file
/// that can be opened, and is answered by exclusive locks of which some are held.
pub open spec fn answered_among(t: Transcript, base: Seq<char>, held: Set<Seq<char>>) -> bool {
    let next = t.asked.len() as int;
    &&& t.replies.len() >= next + 4
    &&& t.replies[next] matches ReplyView::Facts(facts)
    &&& facts.is_dir
    &&& t.replies[next + 1] == ReplyView::Done
    &&& t.replies[next + 2] == ReplyView::Done
    &&& t.replies[next + 3] == exclusive_answer(held, lock_path(base))
}

/// Only one command runs at a time: a first command acquires a free lock, a second one is refused
/// at once as long as the first holds it, and a third one acquires it again after that. That file
/// locks are exclusive is up to the system.
pub proof fn law_one_command_at_a_time(
    first: Transcript,
    second: Transcript,
    third: Transcript,
    base: Seq<char>,
    held: Set<Seq<char>>,
)
    requires
        !held.contains(lock_path(base)),
        answered_among(first, base, held),
        answered_among(second, base, held.insert(lock_path(base))),
        answered_among(third, base, held.insert(lock_path(base)).remove(lock_path(base))),
    ensures
        acquire_run(first, base).end == End::Done(lock_path(base)),
        acquire_run(second, base).end == End::<Seq<char>>::Failed(
            "another val command is already running"@,
        ),
        acquire_run(third, base).end == End::Done(lock_path(base)),
{
}

/// The lock is a file of its own in the base path. It is opened and restricted to its owner before it
/// is taken, and only a base that is a directory gets one. A lock that is busy, and only that, means
/// that another command is running.
pub proof fn law_locks_are_secured_before_they_are_taken(
    t: Transcript,
    base: Seq<char>,
    facts: session::FileFacts,
    answer: ReplyView,
)
    requires
        t.asked.len() + 3 < t.replies.len(),
        t.replies[t.asked.len() as int] == ReplyView::Facts(facts),
        t.replies[t.asked.len() as int + 1] == ReplyView::Done,
        t.replies[t.asked.len() as int + 2] == ReplyView::Done,
        t.replies[t.asked.len() as int + 3] == answer,
    ensures
        ({
            let run = acquire_run(t, base);
            let path = process::path_in(base, ".val.lock"@);
            let looked = t.asked.push(RequestView::Inspect(base));
            &&& !facts.is_dir ==> run.after.asked == looked && run.end == End::<Seq<char>>::Failed(
                "base path is not a directory: "@ + base,
            )
            &&& facts.is_dir ==> {
                &&& run.after.asked == looked.push(RequestView::OpenLock(path)).push(
                    RequestView::SecureLock(path),
                ).push(RequestView::TryLock(path))
                &&& run.done() <==> answer is Done
                &&& run.done() ==> run.value() == path
                &&& answer is Busy ==> run.end == End::<Seq<char>>::Failed(
                    "another val command is already running"@,
                )
                &&& answer matches ReplyView::Error(reason) ==> run.end == End::<Seq<char>>::Failed(
                    "could not acquire command lock "@ + path + ": "@ + reason,
                )
            }
        }),
{
    let path = process::path_in(base, ".val.lock"@);
    let one = t.ask(RequestView::Inspect(base));
    let two = one.ask(RequestView::OpenLock(path));
    let three = two.ask(RequestView::SecureLock(path));
    assert(one.asked.len() == t.asked.len() + 1);
    assert(two.asked.len() == t.asked.len() + 2);
    assert(three.asked.len() == t.asked.len() + 3);
}

} // verus!
