//! Privilege checks and validator-user re-execution.

use vstd::prelude::*;

use crate::cli::Commands;
use crate::paths;
use crate::paths::non_root_sudo_user;
use crate::process::{CommandSpec, CommandSpecView};
use crate::session::{
    End, Failure, Halt, ReplyView, Request, RequestView, Run, Session, Transcript, Variable,
};
use crate::text;
use crate::text::{join2, join5};

verus! {

/// The command that runs an executable again as another user.
pub open spec fn reexec_command(
    user: Seq<char>,
    executable: Seq<char>,
    arguments: Seq<Seq<char>>,
) -> CommandSpecView {
    CommandSpecView {
        program: "sudo"@,
        args: seq!["-u"@, user, "-H"@, "--"@, executable] + arguments,
        env: Seq::empty(),
        cwd: None,
    }
}

/// The message for a command that root may not run directly.
pub open spec fn direct_root_message(command: Commands) -> Seq<char> {
    command.called()
        + " must not run from a direct root login; run it as the validator user or via sudo from that user"@
}

/// Leaving root: nothing to do for other users; root's sudo user takes over, and this process does
/// not go on; a direct root login may only run commands that leave the checkout alone.
pub open spec fn reexec_run(
    t: Transcript,
    root: bool,
    command: Commands,
    arguments: Seq<Seq<char>>,
) -> Run<()> {
    if !root {
        Run { after: t, end: End::Done(()) }
    } else {
        let sudo = paths::sudo_user_run(t);
        if !sudo.done() {
            sudo.stop()
        } else {
            match sudo.value() {
                None => Run {
                    after: sudo.after,
                    end: if command.touches_checkout() {
                        End::Failed(direct_root_message(command))
                    } else {
                        End::Done(())
                    },
                },
                Some(user) => {
                    let executable = sudo.after.text(RequestView::Executable).attempting(
                        "could not resolve the val executable path"@,
                    );
                    if !executable.done() {
                        executable.stop()
                    } else {
                        executable.after.depart(
                            RequestView::Replace(
                                reexec_command(user, executable.value(), arguments),
                            ),
                        ).attempting(
                            "could not re-execute "@ + command.called() + " as validator user '"@
                                + user + "'"@,
                        )
                    }
                },
            }
        }
    }
}

/// Forms the command that runs an executable again as another user.
fn reexec_spec(user: &str, executable: &str, arguments: &Vec<String>) -> (command: CommandSpec)
    ensures
        command@ == reexec_command(user@, executable@, text::texts(arguments@)),
{
    let mut command: CommandSpec = CommandSpec::new("sudo").arg("-u").arg(user).arg("-H").arg(
        "--",
    ).arg(executable);
    let ghost all = text::texts(arguments@);
    let mut at: usize = 0;
    assert(command@ == reexec_command(user@, executable@, all.take(0)));
    while at < arguments.len()
        invariant
            at <= arguments@.len(),
            all == text::texts(arguments@),
            command@ == reexec_command(user@, executable@, all.take(at as int)),
        decreases arguments.len() - at,
    {
        command = command.arg(arguments[at].as_str());
        at = at + 1;
        assert(command@ == reexec_command(user@, executable@, all.take(at as int)));
    }
    assert(all.take(at as int) == all);
    command
}

/// Re-executes sudo invocations as the validator user when needed.
pub fn reexec_as_validator_user_if_needed(
    session: &mut Session,
    root: bool,
    command: &Commands,
    arguments: &Vec<String>,
) -> (left: Result<(), Halt>)
    ensures
        final(session)@ == reexec_run(
            old(session)@,
            root,
            *command,
            text::texts(arguments@),
        ).after,
        reexec_run(old(session)@, root, *command, text::texts(arguments@)).end == (match left {
            Ok(_) => End::Done(()),
            Err(halt) => halt.end(),
        }),
{
    if !root {
        return Ok(());
    }
    let user: String = match non_root_sudo_user(session)? {
        Some(user) => user,
        None => {
            if command.requires_validator_user() {
                let message: String = join2(
                    command.name(),
                    " must not run from a direct root login; run it as the validator user or via sudo from that user",
                );
                return Err(Halt::Failed(Failure { message }));
            }
            return Ok(());
        },
    };
    let executable: String = match session.text(Request::Executable) {
        Ok(executable) => executable,
        Err(halt) => {
            return Err(halt.attempting("could not resolve the val executable path"));
        },
    };
    let again: CommandSpec = reexec_spec(user.as_str(), executable.as_str(), arguments);
    let halt: Halt = session.depart(Request::Replace(again));
    let attempt: String = join5(
        "could not re-execute ",
        command.name(),
        " as validator user '",
        user.as_str(),
        "'",
    );
    Err(halt.attempting(attempt.as_str()))
}

/// Root whom another user's sudo made root is replaced by that user: the program is run again under
/// sudo with that user's home, with the same executable and the same arguments, and nothing else is
/// asked for. Without such a user, commands that touch the checkout are refused and others go on.
pub proof fn law_sudo_users_take_over(
    t: Transcript,
    command: Commands,
    arguments: Seq<Seq<char>>,
    sudo: Option<Seq<char>>,
    executable: Seq<char>,
)
    requires
        t.asked.len() + 1 < t.replies.len(),
        t.replies[t.asked.len() as int] == ReplyView::MaybeText(sudo),
        t.replies[t.asked.len() as int + 1] == ReplyView::Text(executable),
    ensures
        ({
            let run = reexec_run(t, true, command, arguments);
            let by_sudo = sudo is Some && sudo->0.len() > 0 && sudo->0 != "root"@;
            let first = t.asked.push(RequestView::Variable(Variable::SudoUser));
            let replaced = RequestView::Replace(
                CommandSpecView {
                    program: "sudo"@,
                    args: seq!["-u"@, sudo->0, "-H"@, "--"@, executable] + arguments,
                    env: Seq::empty(),
                    cwd: None,
                },
            );
            let writes = command is UpdateFiredancer || command is UpdateFull || command
                is MakeFiredancer || command is ConfigureFiredancer || command
                is RestartFiredancer;
            &&& by_sudo ==> run.after.asked == first.push(RequestView::Executable).push(replaced)
                && !run.done()
            &&& !by_sudo ==> run.after.asked == first
            &&& !by_sudo && !writes ==> run.done()
            &&& !by_sudo && writes ==> run.end == End::<()>::Failed(
                command.called()
                    + " must not run from a direct root login; run it as the validator user or via sudo from that user"@,
            )
            &&& by_sudo && t.asked.len() + 2 < t.replies.len() ==> (t.replies[t.asked.len() as int
                + 2] matches ReplyView::Error(reason) ==> run.end == End::<()>::Failed(
                "could not re-execute "@ + command.called() + " as validator user '"@ + sudo->0
                    + "'"@ + ": "@ + reason,
            ))
        }),
        reexec_run(t, false, command, arguments).after == t,
        reexec_run(t, false, command, arguments).done(),
{
    assert(t.ask(RequestView::Variable(Variable::SudoUser)).asked.len() == t.asked.len() + 1);
    assert(t.ask(RequestView::Variable(Variable::SudoUser)).ask(
        RequestView::Executable,
    ).asked.len() == t.asked.len() + 2);
}

} // verus!
