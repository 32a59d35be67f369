//! Firedancer repository update and build operations.

use vstd::prelude::*;

use crate::configure;
use crate::logging::{FieldValueView, FieldView, Level, LogEvent, LogEventView};
use crate::process::{executable_in, CommandOutcome, CommandSpec, CommandSpecView};
use crate::process;
use crate::session::{
    with_context, End, Failure, Halt, Inspected, InspectedView, ReplyView, Request, RequestView,
    Run, Session, Transcript,
};
use crate::session;
use crate::text;
use crate::text::{
    any_control_char, join2, join3, only_hex_digits, same_text, starts_with, trim,
};

verus! {

/// A git command in a checkout.
pub open spec fn git(args: Seq<Seq<char>>, repository: Seq<char>) -> CommandSpecView {
    CommandSpecView::in_directory("git"@, args, repository)
}

/// Why a text cannot be a git ref, if it cannot.
pub open spec fn git_ref_fault(git_ref: Seq<char>) -> Option<Seq<char>> {
    if git_ref.len() == 0 {
        Some("git ref cannot be empty"@)
    } else if git_ref[0] == '-' {
        Some("git ref cannot begin with '-'"@)
    } else if text::has_control_char(git_ref) {
        Some("git ref cannot contain control characters"@)
    } else {
        None
    }
}

/// Rejects empty, option-like, or control-character Git refs.
pub fn validate_git_ref(git_ref: &str) -> (checked: Result<(), Failure>)
    ensures
        checked is Ok <==> git_ref_fault(git_ref@) is None,
        checked matches Err(failure) ==> git_ref_fault(git_ref@) == Some(failure@),
{
    if git_ref.is_empty() {
        return Err(Failure { message: "git ref cannot be empty".to_owned() });
    }
    if git_ref.get_char(0) == '-' {
        return Err(Failure { message: "git ref cannot begin with '-'".to_owned() });
    }
    if any_control_char(git_ref) {
        return Err(Failure { message: "git ref cannot contain control characters".to_owned() });
    }
    Ok(())
}

/// Whether git's answer says that a path is a working tree: either a plain `true`, or the path
/// of the tree's top level.
pub open spec fn names_work_tree(
    outcome: process::CommandOutcomeView,
    repository: Seq<char>,
) -> bool {
    outcome.success && (text::trimmed(outcome.stdout) == "true"@ || text::trimmed(outcome.stdout)
        == repository)
}

/// Checking that a path is a git working tree.
pub open spec fn repository_run(t: Transcript, repository: Seq<char>) -> Run<()> {
    let seen = t.inspect(repository);
    if !seen.done() {
        seen.stop()
    } else {
        match seen.value() {
            InspectedView::Present(facts) => if !facts.is_dir {
                Run {
                    after: seen.after,
                    end: End::Failed(
                        "Firedancer repository path is not a directory: "@ + repository,
                    ),
                }
            } else {
                let asked = seen.after.outcome(
                    RequestView::Capture(
                        git(seq!["rev-parse"@, "--is-inside-work-tree"@], repository),
                    ),
                );
                if !asked.done() {
                    asked.stop()
                } else if names_work_tree(asked.value(), repository) {
                    asked.with(())
                } else {
                    Run {
                        after: asked.after,
                        end: End::Failed("path is not a git working tree: "@ + repository),
                    }
                }
            },
            InspectedView::Absent(text) | InspectedView::Unreadable(text) => Run {
                after: seen.after,
                end: End::Failed(
                    session::in_context("Firedancer repository not found: "@ + repository, text),
                ),
            },
        }
    }
}

/// Verifies that the configured path is a Git working tree.
pub fn validate_repository(session: &mut Session, repository: &str) -> (checked: Result<(), Halt>)
    ensures
        final(session)@ == repository_run(old(session)@, repository@).after,
        repository_run(old(session)@, repository@).end == (match checked {
            Ok(_) => End::Done(()),
            Err(halt) => halt.end(),
        }),
{
    match session.inspect(repository)? {
        Inspected::Present(facts) => {
            if !facts.is_dir {
                let message: String = join2(
                    "Firedancer repository path is not a directory: ",
                    repository,
                );
                return Err(Halt::Failed(Failure { message }));
            }
        },
        Inspected::Absent(text) | Inspected::Unreadable(text) => {
            let attempt: String = join2("Firedancer repository not found: ", repository);
            return Err(Halt::Failed(with_context(attempt.as_str(), text.as_str())));
        },
    }
    let command: CommandSpec = CommandSpec::new("git").arg("rev-parse").arg(
        "--is-inside-work-tree",
    ).cwd(repository);
    assert(command@ == git(seq!["rev-parse"@, "--is-inside-work-tree"@], repository@));
    let outcome: CommandOutcome = session.outcome(Request::Capture(command))?;
    let answer: String = trim(outcome.stdout.as_str());
    if outcome.success && (same_text(answer.as_str(), "true") || same_text(
        answer.as_str(),
        repository,
    )) {
        Ok(())
    } else {
        let message: String = join2("path is not a git working tree: ", repository);
        Err(Halt::Failed(Failure { message }))
    }
}

/// The revisions under which a ref is looked for, in order: a full ref or a commit as it is, and
/// any other ref as a tag, as a branch of the origin, and as it is.
pub open spec fn candidates(git_ref: Seq<char>) -> Seq<Seq<char>> {
    if "refs/"@.is_prefix_of(git_ref) || (git_ref.len() >= 7 && text::all_hex_digits(git_ref)) {
        seq![git_ref]
    } else {
        seq!["refs/tags/"@ + git_ref, "refs/remotes/origin/"@ + git_ref, git_ref]
    }
}

/// Whether a text can be a commit ID: 40 to 64 hexadecimal digits.
pub open spec fn is_commit_id(commit: Seq<char>) -> bool {
    40 <= commit.len() <= 64 && text::all_hex_digits(commit)
}

/// The command that resolves a revision to a commit.
pub open spec fn resolve_command(revision: Seq<char>, repository: Seq<char>) -> CommandSpecView {
    git(
        seq![
            "rev-parse"@,
            "--verify"@,
            "--end-of-options"@,
            revision + "^{commit}"@,
        ],
        repository,
    )
}

/// Resolving a ref by the first of some revisions that git knows.
pub open spec fn resolve_run(
    t: Transcript,
    repository: Seq<char>,
    git_ref: Seq<char>,
    revisions: Seq<Seq<char>>,
) -> Run<Seq<char>>
    decreases revisions.len(),
{
    if revisions.len() == 0 {
        Run {
            after: t,
            end: End::Failed("git ref '"@ + git_ref + "' was not found after fetching origin"@),
        }
    } else {
        let found = t.outcome(RequestView::Capture(resolve_command(revisions[0], repository)));
        if !found.done() {
            found.stop()
        } else if !found.value().success {
            resolve_run(found.after, repository, git_ref, revisions.drop_first())
        } else if is_commit_id(text::trimmed(found.value().stdout)) {
            found.with(text::trimmed(found.value().stdout))
        } else {
            Run {
                after: found.after,
                end: End::Failed("git ref '"@ + git_ref + "' resolved to an invalid commit id"@),
            }
        }
    }
}

/// Lists the revisions under which a ref is looked for.
fn list_candidates(git_ref: &str) -> (revisions: Vec<String>)
    ensures
        text::texts(revisions@) == candidates(git_ref@),
{
    let mut revisions: Vec<String> = Vec::new();
    if starts_with(git_ref, "refs/") || (git_ref.unicode_len() >= 7 && only_hex_digits(git_ref)) {
        revisions.push(git_ref.to_owned());
    } else {
        revisions.push(join2("refs/tags/", git_ref));
        revisions.push(join2("refs/remotes/origin/", git_ref));
        revisions.push(git_ref.to_owned());
    }
    revisions
}

/// Resolves a tag, fetched origin branch, or commit to a full commit ID.
pub fn resolve_git_ref(session: &mut Session, repository: &str, git_ref: &str) -> (commit: Result<
    String,
    Halt,
>)
    ensures
        final(session)@ == resolve_run(
            old(session)@,
            repository@,
            git_ref@,
            candidates(git_ref@),
        ).after,
        resolve_run(old(session)@, repository@, git_ref@, candidates(git_ref@)).end == (
        match commit {
            Ok(c) => End::Done(c@),
            Err(halt) => halt.end(),
        }),
{
    let revisions: Vec<String> = list_candidates(git_ref);
    let ghost all = candidates(git_ref@);
    let ghost whole = resolve_run(session@, repository@, git_ref@, all);
    let mut at: usize = 0;
    assert(all.skip(0) == all);
    while at < revisions.len()
        invariant
            at <= revisions@.len(),
            all == candidates(git_ref@),
            text::texts(revisions@) == all,
            whole == resolve_run(old(session)@, repository@, git_ref@, all),
            whole == resolve_run(session@, repository@, git_ref@, all.skip(at as int)),
        decreases revisions.len() - at,
    {
        let revision: String = join2(revisions[at].as_str(), "^{commit}");
        let command: CommandSpec = CommandSpec::new("git").arg("rev-parse").arg("--verify").arg(
            "--end-of-options",
        ).arg(revision.as_str()).cwd(repository);
        assert(all.skip(at as int)[0] == revisions@[at as int]@);
        assert(command@ == resolve_command(all.skip(at as int)[0], repository@));
        assert(all.skip(at as int).drop_first() == all.skip(at + 1));
        let outcome: CommandOutcome = session.outcome(Request::Capture(command))?;
        if outcome.success {
            let commit: String = trim(outcome.stdout.as_str());
            let size: usize = commit.as_str().unicode_len();
            if 40 <= size && size <= 64 && only_hex_digits(commit.as_str()) {
                return Ok(commit);
            }
            let message: String = join3(
                "git ref '",
                git_ref,
                "' resolved to an invalid commit id",
            );
            return Err(Halt::Failed(Failure { message }));
        }
        at = at + 1;
    }
    let message: String = join3("git ref '", git_ref, "' was not found after fetching origin");
    Err(Halt::Failed(Failure { message }))
}

/// The command that lists leftover changes of a checkout and its submodules.
pub open spec fn status_command(repository: Seq<char>) -> CommandSpecView {
    git(
        seq![
            "status"@,
            "--porcelain=v1"@,
            "--untracked-files=normal"@,
            "--ignore-submodules=none"@,
        ],
        repository,
    )
}

/// Listing leftover changes.
pub open spec fn worktree_status_run(t: Transcript, repository: Seq<char>) -> Run<Seq<char>> {
    let listed = t.required(
        RequestView::Capture(status_command(repository)),
        "checking Firedancer working tree"@,
    );
    listed.with(listed.value().stdout)
}

/// Returns porcelain status for the superproject and submodules.
pub fn worktree_status(session: &mut Session, repository: &str) -> (status: Result<String, Halt>)
    ensures
        final(session)@ == worktree_status_run(old(session)@, repository@).after,
        worktree_status_run(old(session)@, repository@).end == (match status {
            Ok(s) => End::Done(s@),
            Err(halt) => halt.end(),
        }),
{
    let command: CommandSpec = CommandSpec::new("git").arg("status").arg("--porcelain=v1").arg(
        "--untracked-files=normal",
    ).arg("--ignore-submodules=none").cwd(repository);
    assert(command@ == status_command(repository@));
    let outcome: CommandOutcome = session.required(
        Request::Capture(command),
        "checking Firedancer working tree",
    )?;
    Ok(outcome.stdout)
}

/// A command that is run with its output relayed, and what it is called in messages.
pub struct Stage {
    pub command: CommandSpec,
    pub description: &'static str,
}

/// What a [`Stage`] says.
#[verifier::ext_equal]
pub struct StageView {
    pub command: CommandSpecView,
    pub description: Seq<char>,
}

impl View for Stage {
    type V = StageView;

    open spec fn view(&self) -> StageView {
        StageView { command: self.command@, description: self.description@ }
    }
}

/// What a sequence of stages says.
pub open spec fn stages_said(stages: Seq<Stage>) -> Seq<StageView> {
    Seq::new(stages.len(), |i: int| stages[i]@)
}

/// Running stages in order, each of which has to succeed.
pub open spec fn stages_run(t: Transcript, stages: Seq<StageView>) -> Run<()>
    decreases stages.len(),
{
    if stages.len() == 0 {
        Run { after: t, end: End::Done(()) }
    } else {
        let first = t.required(
            RequestView::Streaming(stages[0].command),
            stages[0].description,
        );
        if !first.done() {
            first.stop()
        } else {
            stages_run(first.after, stages.drop_first())
        }
    }
}

/// Runs stages in order; the first that fails ends the run.
pub fn run_stages(session: &mut Session, stages: &Vec<Stage>) -> (ran: Result<(), Halt>)
    ensures
        final(session)@ == stages_run(old(session)@, stages_said(stages@)).after,
        stages_run(old(session)@, stages_said(stages@)).end == (match ran {
            Ok(_) => End::Done(()),
            Err(halt) => halt.end(),
        }),
{
    let ghost all = stages_said(stages@);
    let ghost whole = stages_run(session@, all);
    let mut at: usize = 0;
    assert(all.skip(0) == all);
    while at < stages.len()
        invariant
            at <= stages@.len(),
            all == stages_said(stages@),
            whole == stages_run(old(session)@, all),
            whole == stages_run(session@, all.skip(at as int)),
        decreases stages.len() - at,
    {
        assert(all.skip(at as int)[0] == stages@[at as int]@);
        assert(all.skip(at as int).drop_first() == all.skip(at + 1));
        let _outcome: CommandOutcome = session.required(
            Request::Streaming(stages[at].command.duplicate()),
            stages[at].description,
        )?;
        at = at + 1;
    }
    Ok(())
}

/// An event of this module.
pub open spec fn repository_event(level: Level, message: Seq<char>) -> LogEventView {
    LogEventView::new(level, "val::repository"@, message)
}

/// An event of this module.
fn event(level: Level, message: &str) -> (event: LogEvent)
    ensures
        event@ == repository_event(level, message@),
{
    LogEvent::new(level, "val::repository", message)
}

/// Running a stage that may fail: a failure is logged.
pub open spec fn tolerated_run(t: Transcript, stage: StageView) -> Run<()> {
    let ran = t.outcome(RequestView::Streaming(stage.command));
    if !ran.done() {
        ran.stop()
    } else if ran.value().success {
        ran.with(())
    } else {
        ran.after.note(
            repository_event(
                Level::Warn,
                "continuing Firedancer update after git command failed"@,
            ).text("command"@, stage.description).shown(
                "result"@,
                ran.value().exit_description(),
            ),
        )
    }
}

/// Runs a stage and continues if it fails. Execution errors still propagate.
pub fn continue_after_failure(session: &mut Session, stage: Stage) -> (ran: Result<(), Halt>)
    ensures
        final(session)@ == tolerated_run(old(session)@, stage@).after,
        tolerated_run(old(session)@, stage@).end == (match ran {
            Ok(_) => End::Done(()),
            Err(halt) => halt.end(),
        }),
{
    let outcome: CommandOutcome = session.outcome(Request::Streaming(stage.command))?;
    if outcome.success {
        return Ok(());
    }
    session.note(
        event(Level::Warn, "continuing Firedancer update after git command failed").text(
            "command",
            stage.description,
        ).shown("result", outcome.exit_description().as_str()),
    )
}

/// Discarding the superproject's changes.
pub open spec fn discard_stages(repository: Seq<char>) -> Seq<StageView> {
    seq![
        StageView {
            command: git(seq!["reset"@, "--hard"@, "HEAD"@], repository),
            description: "git reset"@,
        },
        StageView {
            command: git(seq!["clean"@, "-ffd"@], repository),
            description: "git clean"@,
        },
    ]
}

/// Resetting every submodule.
pub open spec fn submodule_reset_stage(repository: Seq<char>) -> StageView {
    StageView {
        command: git(
            seq![
                "submodule"@,
                "foreach"@,
                "--recursive"@,
                "git"@,
                "reset"@,
                "--hard"@,
            ],
            repository,
        ),
        description: "git submodule reset"@,
    }
}

/// Cleaning every submodule.
pub open spec fn submodule_clean_stage(repository: Seq<char>) -> StageView {
    StageView {
        command: git(
            seq!["submodule"@, "foreach"@, "--recursive"@, "git"@, "clean"@, "-ffd"@],
            repository,
        ),
        description: "git submodule clean"@,
    }
}

/// What is logged before leftover changes are discarded.
pub open spec fn leftovers_event(status: Seq<char>) -> LogEventView {
    repository_event(
        Level::Warn,
        "discarding leftover Firedancer checkout changes before update"@,
    ).shown("status"@, text::trimmed(status))
}

/// Discarding leftover changes, if there are any. Submodule failures do not end the run.
pub open spec fn reset_run(t: Transcript, repository: Seq<char>) -> Run<()> {
    let status = worktree_status_run(t, repository);
    if !status.done() {
        status.stop()
    } else if text::trimmed(status.value()).len() == 0 {
        status.with(())
    } else {
        let warned = status.after.note(leftovers_event(status.value()));
        if !warned.done() {
            warned
        } else {
            let discarded = stages_run(warned.after, discard_stages(repository));
            if !discarded.done() {
                discarded
            } else {
                let reset = tolerated_run(discarded.after, submodule_reset_stage(repository));
                if !reset.done() {
                    reset
                } else {
                    tolerated_run(reset.after, submodule_clean_stage(repository))
                }
            }
        }
    }
}

/// Discards leftover checkout dirt so a managed update can switch refs.
///
/// The checkout is a deployment artifact, not a developer worktree. A previous `deps.sh` or
/// `make` commonly leaves the `agave` submodule with modified or untracked files, and a failed or
/// partial update can leave the submodule pin behind HEAD. Autonomous updates cannot stop for
/// stash or commit, so those changes are logged and thrown away. Ignored outputs such as `build/`
/// and `opt/` are kept.
pub fn reset_managed_worktree(session: &mut Session, repository: &str) -> (reset: Result<(), Halt>)
    ensures
        final(session)@ == reset_run(old(session)@, repository@).after,
        reset_run(old(session)@, repository@).end == (match reset {
            Ok(_) => End::Done(()),
            Err(halt) => halt.end(),
        }),
{
    let status: String = worktree_status(session, repository)?;
    let leftover: String = trim(status.as_str());
    if leftover.as_str().is_empty() {
        return Ok(());
    }
    session.note(
        event(
            Level::Warn,
            "discarding leftover Firedancer checkout changes before update",
        ).shown("status", leftover.as_str()),
    )?;
    let mut stages: Vec<Stage> = Vec::new();
    stages.push(
        Stage {
            command: CommandSpec::new("git").arg("reset").arg("--hard").arg("HEAD").cwd(repository),
            description: "git reset",
        },
    );
    stages.push(
        Stage {
            command: CommandSpec::new("git").arg("clean").arg("-ffd").cwd(repository),
            description: "git clean",
        },
    );
    proof {
        let wanted = discard_stages(repository@);
        assert(stages@[0]@ == wanted[0]);
        assert(stages@[1]@ == wanted[1]);
        assert(stages_said(stages@) == wanted);
    }
    run_stages(session, &stages)?;
    let reset: Stage = Stage {
        command: CommandSpec::new("git").arg("submodule").arg("foreach").arg("--recursive").arg(
            "git",
        ).arg("reset").arg("--hard").cwd(repository),
        description: "git submodule reset",
    };
    assert(reset@ == submodule_reset_stage(repository@));
    continue_after_failure(session, reset)?;
    let clean: Stage = Stage {
        command: CommandSpec::new("git").arg("submodule").arg("foreach").arg("--recursive").arg(
            "git",
        ).arg("clean").arg("-ffd").cwd(repository),
        description: "git submodule clean",
    };
    assert(clean@ == submodule_clean_stage(repository@));
    continue_after_failure(session, clean)
}

/// Fetching tags and refs.
pub open spec fn fetch_command(repository: Seq<char>) -> CommandSpecView {
    git(seq!["fetch"@, "--tags"@, "origin"@], repository)
}

/// Reading the commit that is checked out.
pub open spec fn head_command(repository: Seq<char>) -> CommandSpecView {
    git(seq!["rev-parse"@, "--verify"@, "HEAD"@], repository)
}

/// Checking out a commit with its submodules.
pub open spec fn checkout_stages(repository: Seq<char>, commit: Seq<char>) -> Seq<StageView> {
    seq![
        StageView {
            command: git(seq!["checkout"@, "--force"@, "--detach"@, commit], repository),
            description: "git checkout"@,
        },
        StageView {
            command: git(seq!["submodule"@, "sync"@, "--recursive"@], repository),
            description: "git submodule sync"@,
        },
        StageView {
            command: git(
                seq![
                    "submodule"@,
                    "update"@,
                    "--init"@,
                    "--recursive"@,
                    "--force"@,
                    "--checkout"@,
                ],
                repository,
            ),
            description: "git submodule update"@,
        },
    ]
}

/// The dependency installer of a checkout.
pub open spec fn deps_path(repository: Seq<char>) -> Seq<char> {
    process::path_in(repository, "deps.sh"@)
}

/// Installing dependencies without a prompt.
pub open spec fn deps_command(repository: Seq<char>) -> CommandSpecView {
    CommandSpecView {
        program: deps_path(repository),
        args: seq!["fetch"@, "check"@, "install"@],
        env: seq![("FD_AUTO_INSTALL_PACKAGES"@, "1"@)],
        cwd: Some(repository),
    }
}

/// Whether a look at a path found a file.
pub open spec fn found_file(seen: InspectedView) -> bool {
    seen matches InspectedView::Present(facts) && facts.is_file
}

/// Installing dependencies, if the installer exists.
pub open spec fn deps_run(t: Transcript, repository: Seq<char>) -> Run<()> {
    let seen = t.inspect(deps_path(repository));
    if !seen.done() {
        seen.stop()
    } else if !found_file(seen.value()) {
        Run {
            after: seen.after,
            end: End::Failed("dependency installer does not exist: "@ + deps_path(repository)),
        }
    } else {
        let begun = seen.after.note(
            repository_event(Level::Info, "running Firedancer dependency installer"@),
        );
        if !begun.done() {
            begun
        } else {
            begun.after.required(
                RequestView::Streaming(deps_command(repository)),
                "Firedancer deps.sh"@,
            ).with(())
        }
    }
}

/// What is logged of a commit that is checked out already.
pub open spec fn current_event(commit: Seq<char>) -> LogEventView {
    repository_event(Level::Info, "repository is already at the requested commit"@).text(
        "commit"@,
        commit,
    )
}

/// Moving a checkout to a resolved commit: note what is checked out, discard leftovers, check the
/// commit out, and install its dependencies.
pub open spec fn move_run(t: Transcript, repository: Seq<char>, commit: Seq<char>) -> Run<()> {
    let head = t.outcome(RequestView::Capture(head_command(repository)));
    if !head.done() {
        head.stop()
    } else {
        let noted = if head.value().success && text::trimmed(head.value().stdout) == commit {
            head.after.note(current_event(commit))
        } else {
            head.with(())
        };
        if !noted.done() {
            noted
        } else {
            let reset = reset_run(noted.after, repository);
            if !reset.done() {
                reset
            } else {
                let moved = stages_run(reset.after, checkout_stages(repository, commit));
                if !moved.done() {
                    moved
                } else {
                    deps_run(moved.after, repository)
                }
            }
        }
    }
}

/// What is logged before the origin is fetched.
pub open spec fn fetch_event(repository: Seq<char>, git_ref: Seq<char>) -> LogEventView {
    repository_event(Level::Info, "fetching Firedancer"@).text("reference"@, git_ref).shown(
        "repository"@,
        repository,
    )
}

/// What is logged once a checkout has been updated.
pub open spec fn updated_event(git_ref: Seq<char>, commit: Seq<char>) -> LogEventView {
    repository_event(Level::Info, "Firedancer update completed"@).text(
        "reference"@,
        git_ref,
    ).text("commit"@, commit)
}

/// Locating a ref: check the ref and the path, fetch, and resolve the ref to a commit.
pub open spec fn locate_run(
    t: Transcript,
    repository: Seq<char>,
    git_ref: Seq<char>,
) -> Run<Seq<char>> {
    match git_ref_fault(git_ref) {
        Some(message) => Run { after: t, end: End::Failed(message) },
        None => {
            let checked = repository_run(t, repository);
            if !checked.done() {
                checked.stop()
            } else {
                let begun = checked.after.note(fetch_event(repository, git_ref));
                if !begun.done() {
                    begun.stop()
                } else {
                    let fetched = begun.after.required(
                        RequestView::Streaming(fetch_command(repository)),
                        "git fetch"@,
                    );
                    if !fetched.done() {
                        fetched.stop()
                    } else {
                        resolve_run(fetched.after, repository, git_ref, candidates(git_ref))
                    }
                }
            }
        },
    }
}

/// Updating a checkout: locate the ref, and only then move to it.
pub open spec fn update_run(
    t: Transcript,
    repository: Seq<char>,
    git_ref: Seq<char>,
) -> Run<()> {
    let located = locate_run(t, repository, git_ref);
    if !located.done() {
        located.stop()
    } else {
        move_run(located.after, repository, located.value()).noting(
            updated_event(git_ref, located.value()),
        )
    }
}

/// Installs dependencies, if the installer exists.
fn install_dependencies(session: &mut Session, repository: &str) -> (installed: Result<(), Halt>)
    ensures
        final(session)@ == deps_run(old(session)@, repository@).after,
        deps_run(old(session)@, repository@).end == (match installed {
            Ok(_) => End::Done(()),
            Err(halt) => halt.end(),
        }),
{
    let deps: String = executable_in(repository, "deps.sh");
    let exists: bool = match session.inspect(deps.as_str())? {
        Inspected::Present(facts) => facts.is_file,
        _ => false,
    };
    if !exists {
        let message: String = join2("dependency installer does not exist: ", deps.as_str());
        return Err(Halt::Failed(Failure { message }));
    }
    session.note(event(Level::Info, "running Firedancer dependency installer"))?;
    // Without arguments deps.sh asks whether to continue. Passing the default actions skips that
    // prompt. FD_AUTO_INSTALL_PACKAGES answers the later package and rustup prompts so an
    // unattended update does not block.
    let command: CommandSpec = CommandSpec::new(deps.as_str()).arg("fetch").arg("check").arg(
        "install",
    ).env("FD_AUTO_INSTALL_PACKAGES", "1").cwd(repository);
    assert(command@ == deps_command(repository@));
    let _outcome: CommandOutcome = session.required(
        Request::Streaming(command),
        "Firedancer deps.sh",
    )?;
    Ok(())
}

/// Moves a checkout to a resolved commit.
fn move_to_commit(session: &mut Session, repository: &str, commit: &str) -> (moved: Result<
    (),
    Halt,
>)
    ensures
        final(session)@ == move_run(old(session)@, repository@, commit@).after,
        move_run(old(session)@, repository@, commit@).end == (match moved {
            Ok(_) => End::Done(()),
            Err(halt) => halt.end(),
        }),
{
    let command: CommandSpec = CommandSpec::new("git").arg("rev-parse").arg("--verify").arg(
        "HEAD",
    ).cwd(repository);
    assert(command@ == head_command(repository@));
    let current: CommandOutcome = session.outcome(Request::Capture(command))?;
    if current.success && same_text(trim(current.stdout.as_str()).as_str(), commit) {
        session.note(
            event(Level::Info, "repository is already at the requested commit").text(
                "commit",
                commit,
            ),
        )?;
    }
    reset_managed_worktree(session, repository)?;
    let mut stages: Vec<Stage> = Vec::new();
    stages.push(
        Stage {
            command: CommandSpec::new("git").arg("checkout").arg("--force").arg("--detach").arg(
                commit,
            ).cwd(repository),
            description: "git checkout",
        },
    );
    stages.push(
        Stage {
            command: CommandSpec::new("git").arg("submodule").arg("sync").arg("--recursive").cwd(
                repository,
            ),
            description: "git submodule sync",
        },
    );
    stages.push(
        Stage {
            command: CommandSpec::new("git").arg("submodule").arg("update").arg("--init").arg(
                "--recursive",
            ).arg("--force").arg("--checkout").cwd(repository),
            description: "git submodule update",
        },
    );
    proof {
        let wanted = checkout_stages(repository@, commit@);
        assert(stages@[0]@ == wanted[0]);
        assert(stages@[1]@ == wanted[1]);
        assert(stages@[2]@ == wanted[2]);
        assert(stages_said(stages@) == wanted);
    }
    run_stages(session, &stages)?;
    install_dependencies(session, repository)
}

/// Updates the Firedancer checkout and installs its dependencies.
pub fn update_firedancer(session: &mut Session, repository: &str, git_ref: &str) -> (updated:
    Result<(), Halt>)
    ensures
        final(session)@ == update_run(old(session)@, repository@, git_ref@).after,
        update_run(old(session)@, repository@, git_ref@).end == (match updated {
            Ok(_) => End::Done(()),
            Err(halt) => halt.end(),
        }),
{
    match validate_git_ref(git_ref) {
        Ok(_) => {},
        Err(failure) => {
            return Err(Halt::Failed(failure));
        },
    }
    validate_repository(session, repository)?;
    session.note(
        event(Level::Info, "fetching Firedancer").text("reference", git_ref).shown(
            "repository",
            repository,
        ),
    )?;
    let command: CommandSpec = CommandSpec::new("git").arg("fetch").arg("--tags").arg(
        "origin",
    ).cwd(repository);
    assert(command@ == fetch_command(repository@));
    let _fetched: CommandOutcome = session.required(Request::Streaming(command), "git fetch")?;
    // Leftover changes are discarded only after the requested ref is known to exist, so that a
    // fetch or resolve failure does not wipe the checkout.
    let commit: String = resolve_git_ref(session, repository, git_ref)?;
    move_to_commit(session, repository, commit.as_str())?;
    session.note(
        event(Level::Info, "Firedancer update completed").text("reference", git_ref).text(
            "commit",
            commit.as_str(),
        ),
    )
}

/// The command that builds the binaries.
pub open spec fn make_command(repository: Seq<char>) -> CommandSpecView {
    CommandSpecView::in_directory("make"@, seq!["-j"@, "fdctl"@, "solana"@], repository)
}

/// The time between two readings of the clock.
pub open spec fn elapsed(started: u64, ended: u64) -> u64 {
    if ended >= started {
        (ended - started) as u64
    } else {
        0
    }
}

/// What is logged of a build: how many whole seconds it took.
pub open spec fn build_event(level: Level, message: Seq<char>, nanos: u64) -> LogEventView {
    repository_event(level, message).number("elapsed_seconds"@, nanos / 1_000_000_000)
}

/// Running make, which was begun at a reading of the clock: the time that it took is logged with
/// its success or its failure.
pub open spec fn timed_make_run(t: Transcript, repository: Seq<char>, started: u64) -> Run<u64> {
    let made = t.outcome(RequestView::Streaming(make_command(repository)));
    if !made.done() {
        made.stop()
    } else {
        let ended = made.after.now();
        let nanos = elapsed(started, ended.value());
        if !ended.done() {
            ended.stop()
        } else if made.value().success {
            ended.with(nanos).noting(
                build_event(Level::Info, "Firedancer build completed"@, nanos),
            )
        } else {
            let warned = ended.after.note(
                build_event(Level::Warn, "Firedancer build failed"@, nanos).shown(
                    "result"@,
                    made.value().exit_description(),
                ),
            );
            if !warned.done() {
                warned.stop()
            } else {
                Run {
                    after: warned.after,
                    end: End::Failed(made.value().failure_message("Firedancer build"@)),
                }
            }
        }
    }
}

/// What is logged before a build.
pub open spec fn building_event(repository: Seq<char>) -> LogEventView {
    repository_event(Level::Info, "building Firedancer"@).shown("repository"@, repository)
}

/// Building: check the path, remove the build directory, and make; the result is the time that
/// make took, in nanoseconds.
pub open spec fn make_run(t: Transcript, repository: Seq<char>) -> Run<u64> {
    let checked = repository_run(t, repository);
    if !checked.done() {
        checked.stop()
    } else {
        let build = process::path_in(repository, "build"@);
        let removed = checked.after.perform(RequestView::RemoveTree(build)).attempting(
            "could not remove build directory "@ + build,
        );
        if !removed.done() {
            removed.stop()
        } else {
            let started = removed.after.now();
            if !started.done() {
                started.stop()
            } else {
                let begun = started.after.note(building_event(repository));
                if !begun.done() {
                    begun.stop()
                } else {
                    timed_make_run(begun.after, repository, started.value())
                }
            }
        }
    }
}

/// Builds Firedancer and returns the elapsed time in nanoseconds.
pub fn make_firedancer(session: &mut Session, repository: &str) -> (duration: Result<u64, Halt>)
    ensures
        final(session)@ == make_run(old(session)@, repository@).after,
        make_run(old(session)@, repository@).end == (match duration {
            Ok(nanos) => End::Done(nanos),
            Err(halt) => halt.end(),
        }),
{
    validate_repository(session, repository)?;
    let build: String = executable_in(repository, "build");
    match session.perform(Request::RemoveTree(build.clone())) {
        Ok(_) => {},
        Err(halt) => {
            let attempt: String = join2("could not remove build directory ", build.as_str());
            return Err(halt.attempting(attempt.as_str()));
        },
    }
    let started: u64 = session.now()?;
    session.note(event(Level::Info, "building Firedancer").shown("repository", repository))?;
    let command: CommandSpec = CommandSpec::new("make").arg("-j").arg("fdctl").arg("solana").cwd(
        repository,
    );
    assert(command@ == make_command(repository@));
    let outcome: CommandOutcome = session.outcome(Request::Streaming(command))?;
    let ended: u64 = session.now()?;
    let nanos: u64 = if ended >= started {
        ended - started
    } else {
        0
    };
    let seconds: u64 = nanos / 1_000_000_000;
    if !outcome.success {
        session.note(
            event(Level::Warn, "Firedancer build failed").number("elapsed_seconds", seconds).shown(
                "result",
                outcome.exit_description().as_str(),
            ),
        )?;
    }
    match process::require_success(outcome, "Firedancer build") {
        Ok(_) => {
            session.note(
                event(Level::Info, "Firedancer build completed").number(
                    "elapsed_seconds",
                    seconds,
                ),
            )?;
            Ok(nanos)
        },
        Err(failure) => Err(Halt::Failed(failure)),
    }
}

/// Reading the version of the built binary, if there is one.
pub open spec fn built_version_run(t: Transcript, repository: Seq<char>) -> Run<Option<Seq<char>>> {
    let fdctl = configure::fdctl_path(repository);
    let seen = t.inspect(fdctl);
    if !seen.done() {
        seen.stop()
    } else {
        match seen.value() {
            InspectedView::Absent(_) => seen.with(None),
            InspectedView::Unreadable(text) => Run {
                after: seen.after,
                end: End::Failed(
                    session::in_context("could not inspect built fdctl: "@ + fdctl, text),
                ),
            },
            InspectedView::Present(facts) => if !facts.runnable() {
                Run {
                    after: seen.after,
                    end: End::Failed("built fdctl is not executable: "@ + fdctl),
                }
            } else {
                let read = seen.after.required(
                    RequestView::Capture(
                        CommandSpecView::in_directory(fdctl, seq!["version"@], repository),
                    ),
                    "querying the built fdctl version"@,
                );
                if !read.done() {
                    read.stop()
                } else if text::trimmed(read.value().stdout).len() == 0 {
                    Run {
                        after: read.after,
                        end: End::Failed("built fdctl returned an empty version"@),
                    }
                } else {
                    read.with(Some(text::trimmed(read.value().stdout)))
                }
            },
        }
    }
}

/// Reads the version reported by the fdctl binary in the current checkout.
pub fn built_fdctl_version(session: &mut Session, repository: &str) -> (version: Result<
    Option<String>,
    Halt,
>)
    ensures
        final(session)@ == built_version_run(old(session)@, repository@).after,
        built_version_run(old(session)@, repository@).end == (match version {
            Ok(v) => End::Done(process::maybe_text(v)),
            Err(halt) => halt.end(),
        }),
{
    let fdctl: String = executable_in(repository, "build/native/gcc/bin/fdctl");
    match session.inspect(fdctl.as_str())? {
        Inspected::Absent(_) => {
            return Ok(None);
        },
        Inspected::Unreadable(text) => {
            let attempt: String = join2("could not inspect built fdctl: ", fdctl.as_str());
            return Err(Halt::Failed(with_context(attempt.as_str(), text.as_str())));
        },
        Inspected::Present(facts) => {
            if !facts.is_runnable() {
                let message: String = join2("built fdctl is not executable: ", fdctl.as_str());
                return Err(Halt::Failed(Failure { message }));
            }
        },
    }
    let command: CommandSpec = CommandSpec::new(fdctl.as_str()).arg("version").cwd(repository);
    assert(command@ == CommandSpecView::in_directory(fdctl@, seq!["version"@], repository@));
    let read: CommandOutcome = session.required(
        Request::Capture(command),
        "querying the built fdctl version",
    )?;
    let version: String = trim(read.stdout.as_str());
    if version.as_str().is_empty() {
        return Err(
            Halt::Failed(Failure { message: "built fdctl returned an empty version".to_owned() }),
        );
    }
    Ok(Some(version))
}

/// Every ref is looked for as it is given. A full ref, and seven or more hexadecimal digits, which
/// name a commit, are looked for only so. Any other ref is looked for first as a tag and then as a
/// branch of the origin.
pub proof fn law_refs_are_looked_for_as_given(git_ref: Seq<char>)
    ensures
        candidates(git_ref).contains(git_ref),
        candidates(git_ref).last() == git_ref,
        ({
            let full = git_ref.len() >= 5 && git_ref.take(5) == seq!['r', 'e', 'f', 's', '/'];
            let commit = git_ref.len() >= 7 && forall|i: int|
                0 <= i < git_ref.len() ==> "0123456789abcdefABCDEF"@.contains(#[trigger] git_ref[i]);
            &&& full || commit ==> candidates(git_ref).len() == 1
            &&& !full && !commit ==> {
                &&& candidates(git_ref).len() == 3
                &&& candidates(git_ref)[0] == "refs/tags/"@ + git_ref
                &&& candidates(git_ref)[1] == "refs/remotes/origin/"@ + git_ref
            }
        }),
{
    assert(candidates(git_ref).last() == git_ref);
    reveal_strlit("refs/");
    assert("refs/"@ == seq!['r', 'e', 'f', 's', '/']);
    if git_ref.len() >= 5 {
        assert(git_ref.take(5) == git_ref.subrange(0, 5));
    }
    assert forall|i: int| 0 <= i < git_ref.len() implies text::is_hex_digit(#[trigger] git_ref[i])
        == "0123456789abcdefABCDEF"@.contains(git_ref[i]) by {
        text::law_character_classes(git_ref[i]);
    }
}

/// A ref names something, is no option, and holds no control character.
pub proof fn law_refs_are_checked(git_ref: Seq<char>)
    ensures
        git_ref_fault(git_ref) is None <==> git_ref.len() > 0 && git_ref[0] != '-' && forall|i: int|
            0 <= i < git_ref.len() ==> (' ' <= #[trigger] git_ref[i] <= '~' || git_ref[i] as u32
                >= 0xa0),
        git_ref.len() == 0 ==> git_ref_fault(git_ref) == Some("git ref cannot be empty"@),
        git_ref.len() > 0 && git_ref[0] == '-' ==> git_ref_fault(git_ref) == Some(
            "git ref cannot begin with '-'"@,
        ),
        git_ref.len() > 0 && git_ref[0] != '-' && git_ref_fault(git_ref) is Some ==> git_ref_fault(
            git_ref,
        ) == Some("git ref cannot contain control characters"@),
{
    assert forall|i: int| 0 <= i < git_ref.len() implies text::is_control_char(#[trigger] git_ref[i])
        == !(' ' <= git_ref[i] <= '~' || git_ref[i] as u32 >= 0xa0) by {
        text::law_character_classes(git_ref[i]);
    }
}

/// A commit ID has 40 to 64 hexadecimal digits and nothing else.
pub proof fn law_commit_ids_are_hexadecimal(commit: Seq<char>)
    ensures
        is_commit_id(commit) <==> 40 <= commit.len() <= 64 && forall|i: int|
            0 <= i < commit.len() ==> "0123456789abcdefABCDEF"@.contains(#[trigger] commit[i]),
{
    assert forall|i: int| 0 <= i < commit.len() implies text::is_hex_digit(#[trigger] commit[i])
        == "0123456789abcdefABCDEF"@.contains(commit[i]) by {
        text::law_character_classes(commit[i]);
    }
}

/// What git is asked to resolve a revision.
pub open spec fn asks_for(revision: Seq<char>, repository: Seq<char>) -> RequestView {
    RequestView::Capture(
        CommandSpecView {
            program: "git"@,
            args: seq![
                "rev-parse"@,
                "--verify"@,
                "--end-of-options"@,
                revision + seq!['^', '{', 'c', 'o', 'm', 'm', 'i', 't', '}'],
            ],
            env: Seq::empty(),
            cwd: Some(repository),
        },
    )
}

/// The command that resolves a revision is that question.
pub proof fn lemma_asks_for(revision: Seq<char>, repository: Seq<char>)
    ensures
        RequestView::Capture(resolve_command(revision, repository)) == asks_for(
            revision,
            repository,
        ),
{
    reveal_strlit("^{commit}");
    assert("^{commit}"@ == seq!['^', '{', 'c', 'o', 'm', 'm', 'i', 't', '}']);
    let command = resolve_command(revision, repository);
    assert(command.env == Seq::<(Seq<char>, Seq<char>)>::empty());
}

/// A full ref or a commit is resolved with one question to git, for the ref itself and nothing put
/// before it. The answer is the commit if git knows one, and an error otherwise.
pub proof fn law_full_refs_are_asked_for_directly(
    t: Transcript,
    repository: Seq<char>,
    git_ref: Seq<char>,
    outcome: process::CommandOutcomeView,
)
    requires
        t.reply() == Some(ReplyView::Outcome(outcome)),
        candidates(git_ref).len() == 1,
    ensures
        ({
            let run = resolve_run(t, repository, git_ref, candidates(git_ref));
            let answer = text::trimmed(outcome.stdout);
            &&& run.after.asked == t.asked.push(asks_for(git_ref, repository))
            &&& run.done() <==> outcome.success && is_commit_id(answer)
            &&& run.done() ==> run.value() == answer
            &&& !outcome.success ==> run.end == End::<Seq<char>>::Failed(
                "git ref '"@ + git_ref + "' was not found after fetching origin"@,
            )
            &&& outcome.success && !is_commit_id(answer) ==> run.end == End::<Seq<char>>::Failed(
                "git ref '"@ + git_ref + "' resolved to an invalid commit id"@,
            )
        }),
{
    reveal_with_fuel(resolve_run, 3);
    law_refs_are_looked_for_as_given(git_ref);
    lemma_asks_for(git_ref, repository);
    assert(candidates(git_ref)[0] == git_ref);
}

/// Any other ref is asked for as a tag, then as a branch of the origin, then as it is, and only as
/// long as git knows none of these. The first that git knows decides.
pub proof fn law_tags_come_before_branches(
    t: Transcript,
    repository: Seq<char>,
    git_ref: Seq<char>,
    tag: process::CommandOutcomeView,
    branch: process::CommandOutcomeView,
    other: process::CommandOutcomeView,
)
    requires
        t.asked.len() + 2 < t.replies.len(),
        t.replies[t.asked.len() as int] == ReplyView::Outcome(tag),
        t.replies[t.asked.len() as int + 1] == ReplyView::Outcome(branch),
        t.replies[t.asked.len() as int + 2] == ReplyView::Outcome(other),
        candidates(git_ref).len() == 3,
    ensures
        ({
            let run = resolve_run(t, repository, git_ref, candidates(git_ref));
            let first = asks_for("refs/tags/"@ + git_ref, repository);
            let second = asks_for("refs/remotes/origin/"@ + git_ref, repository);
            let third = asks_for(git_ref, repository);
            let known = tag.success || branch.success || other.success;
            let decides = if tag.success {
                tag
            } else if branch.success {
                branch
            } else {
                other
            };
            let answer = text::trimmed(decides.stdout);
            &&& tag.success ==> run.after.asked == t.asked + seq![first]
            &&& !tag.success && branch.success ==> run.after.asked == t.asked + seq![first, second]
            &&& !tag.success && !branch.success ==> run.after.asked == t.asked + seq![
                first,
                second,
                third,
            ]
            &&& run.done() <==> known && is_commit_id(answer)
            &&& run.done() ==> run.value() == answer
            &&& !known ==> run.end == End::<Seq<char>>::Failed(
                "git ref '"@ + git_ref + "' was not found after fetching origin"@,
            )
        }),
{
    reveal_with_fuel(resolve_run, 5);
    law_refs_are_looked_for_as_given(git_ref);
    let all = candidates(git_ref);
    lemma_asks_for(all[0], repository);
    lemma_asks_for(all[1], repository);
    lemma_asks_for(all[2], repository);
    let one = t.ask(asks_for(all[0], repository));
    let two = one.ask(asks_for(all[1], repository));
    let three = two.ask(asks_for(all[2], repository));
    assert(one.asked.len() == t.asked.len() + 1);
    assert(two.asked.len() == t.asked.len() + 2);
    assert(one.asked == t.asked + seq![asks_for(all[0], repository)]);
    assert(two.asked == t.asked + seq![asks_for(all[0], repository), asks_for(all[1], repository)]);
    assert(three.asked == t.asked + seq![
        asks_for(all[0], repository),
        asks_for(all[1], repository),
        asks_for(all[2], repository),
    ]);
    assert(all.drop_first()[0] == all[1]);
    assert(all.drop_first().drop_first()[0] == all[2]);
    assert(all.drop_first().drop_first().drop_first().len() == 0);
}

/// Nothing is asked of git about a path that is not a directory. A directory is a checkout if git
/// says so and succeeds.
pub proof fn law_checkouts_are_recognized_by_git(
    t: Transcript,
    repository: Seq<char>,
    facts: session::FileFacts,
    outcome: process::CommandOutcomeView,
)
    requires
        t.asked.len() + 1 < t.replies.len(),
        t.replies[t.asked.len() as int] == ReplyView::Facts(facts),
        t.replies[t.asked.len() as int + 1] == ReplyView::Outcome(outcome),
    ensures
        ({
            let run = repository_run(t, repository);
            let looked = t.asked.push(RequestView::Inspect(repository));
            let answer = text::trimmed(outcome.stdout);
            &&& !facts.is_dir ==> run.after.asked == looked && run.end == End::<()>::Failed(
                "Firedancer repository path is not a directory: "@ + repository,
            )
            &&& facts.is_dir ==> {
                &&& run.after.asked == looked.push(
                    RequestView::Capture(
                        CommandSpecView {
                            program: "git"@,
                            args: seq!["rev-parse"@, "--is-inside-work-tree"@],
                            env: Seq::empty(),
                            cwd: Some(repository),
                        },
                    ),
                )
                &&& run.done() <==> outcome.success && (answer == "true"@ || answer == repository)
                &&& !run.done() ==> run.end == End::<()>::Failed(
                    "path is not a git working tree: "@ + repository,
                )
            }
        }),
{
    let command = git(seq!["rev-parse"@, "--is-inside-work-tree"@], repository);
    assert(command.env == Seq::<(Seq<char>, Seq<char>)>::empty());
}

/// A clean checkout is left alone. One with changes is warned about and then reset, from the
/// superproject on; a status that git cannot give ends the run.
pub proof fn law_only_changes_are_discarded(
    t: Transcript,
    repository: Seq<char>,
    outcome: process::CommandOutcomeView,
)
    requires
        t.asked.len() + 1 < t.replies.len(),
        t.replies[t.asked.len() as int] == ReplyView::Outcome(outcome),
    ensures
        ({
            let run = reset_run(t, repository);
            let place = t.asked.len() as int;
            let listed = t.asked.push(
                RequestView::Capture(
                    CommandSpecView {
                        program: "git"@,
                        args: seq![
                            "status"@,
                            "--porcelain=v1"@,
                            "--untracked-files=normal"@,
                            "--ignore-submodules=none"@,
                        ],
                        env: Seq::empty(),
                        cwd: Some(repository),
                    },
                ),
            );
            &&& !outcome.success ==> run.end is Failed && run.after.asked == listed
            &&& outcome.success && text::is_blank(outcome.stdout) ==> run.done() && run.after.asked
                == listed
            &&& outcome.success && !text::is_blank(outcome.stdout) ==> {
                &&& run.after.asked.len() >= place + 3
                &&& run.after.asked[place] == listed[place]
                &&& run.after.asked[place + 1] matches RequestView::Log(event) && event.level
                    is Warn
                &&& run.after.asked[place + 2] == RequestView::Streaming(
                    CommandSpecView {
                        program: "git"@,
                        args: seq!["reset"@, "--hard"@, "HEAD"@],
                        env: Seq::empty(),
                        cwd: Some(repository),
                    },
                )
            }
        }),
{
    let status = outcome.stdout;
    text::law_trimming_takes_blank_ends(status);
    let command = status_command(repository);
    assert(command.env == Seq::<(Seq<char>, Seq<char>)>::empty());
    reveal_with_fuel(stages_run, 4);
    let listed = worktree_status_run(t, repository);
    let warned = listed.after.note(leftovers_event(status));
    let stages = discard_stages(repository);
    assert(stages[0].command.env == Seq::<(Seq<char>, Seq<char>)>::empty());
    assert(stages.drop_first()[0] == stages[1]);
}

/// A build takes the time between the two readings of the clock around it, and none if the clock went
/// back.
pub proof fn law_elapsed_time_is_the_difference(started: u64, nanos: u64)
    requires
        started + nanos <= u64::MAX,
    ensures
        elapsed(started, (started + nanos) as u64) == nanos,
        elapsed((started + nanos) as u64, started) == 0,
{
}

/// A build that make fails is logged with how long it took and how make ended, and is an error. One
/// that make completes has taken the time between the clock readings around it.
pub proof fn law_builds_end_as_make_does(
    t: Transcript,
    repository: Seq<char>,
    started: u64,
    outcome: process::CommandOutcomeView,
    ended: u64,
)
    requires
        t.asked.len() + 2 < t.replies.len(),
        t.replies[t.asked.len() as int] == ReplyView::Outcome(outcome),
        t.replies[t.asked.len() as int + 1] == ReplyView::Moment(ended),
        started <= ended,
    ensures
        ({
            let run = timed_make_run(t, repository, started);
            let place = t.asked.len() as int;
            &&& run.after.asked.len() == place + 3
            &&& run.after.asked[place] is Streaming
            &&& run.after.asked[place + 1] is Now
            &&& run.done() <==> outcome.success
            &&& outcome.success ==> run.value() == ended - started
            &&& !outcome.success ==> run.end == End::<u64>::Failed(
                outcome.failure_message("Firedancer build"@),
            )
            &&& run.after.asked[place + 2] matches RequestView::Log(event) && (if outcome.success {
                event == build_event(
                    Level::Info,
                    "Firedancer build completed"@,
                    (ended - started) as u64,
                )
            } else {
                &&& event.level is Warn
                &&& event.message == "Firedancer build failed"@
                &&& event.fields.len() == 2
                &&& event.fields[1].value == FieldValueView::Shown(outcome.exit_description())
            })
        }),
{
}

/// The built version is what the checkout's `fdctl version` prints, and there is none if nothing was
/// built. A binary that cannot be run or that prints nothing is an error.
pub proof fn law_built_versions_are_asked_for(
    t: Transcript,
    repository: Seq<char>,
    outcome: process::CommandOutcomeView,
)
    requires
        t.asked.len() + 1 < t.replies.len(),
        t.replies[t.asked.len() as int + 1] == ReplyView::Outcome(outcome),
    ensures
        ({
            let run = built_version_run(t, repository);
            let fdctl = process::path_in(repository, "build/native/gcc/bin/fdctl"@);
            let looked = t.asked.push(RequestView::Inspect(fdctl));
            let answer = text::trimmed(outcome.stdout);
            &&& t.replies[t.asked.len() as int] is NotFound ==> run.after.asked == looked
                && run.end == End::<Option<Seq<char>>>::Done(None)
            &&& t.replies[t.asked.len() as int] matches ReplyView::Facts(facts) ==> {
                &&& !facts.runnable() ==> run.end is Failed && run.after.asked == looked
                &&& facts.runnable() ==> run.after.asked == looked.push(
                    RequestView::Capture(
                        CommandSpecView {
                            program: fdctl,
                            args: seq!["version"@],
                            env: Seq::empty(),
                            cwd: Some(repository),
                        },
                    ),
                )
                &&& run.done() <==> facts.runnable() && outcome.success && answer.len() > 0
                &&& run.done() ==> run.value() == Some(answer)
            }
        }),
{
    let fdctl = process::path_in(repository, "build/native/gcc/bin/fdctl"@);
    let command = CommandSpecView::in_directory(fdctl, seq!["version"@], repository);
    assert(command.env == Seq::<(Seq<char>, Seq<char>)>::empty());
}

/// Dependencies are installed only by an installer that is a file; without one nothing runs.
pub proof fn law_installers_must_exist(t: Transcript, repository: Seq<char>)
    requires
        t.asked.len() + 2 < t.replies.len(),
    ensures
        ({
            let run = deps_run(t, repository);
            let installer = process::path_in(repository, "deps.sh"@);
            let place = t.asked.len() as int;
            let there = t.replies[place] matches ReplyView::Facts(facts) && facts.is_file;
            &&& run.after.asked[place] == RequestView::Inspect(installer)
            &&& !there && (t.replies[place] is Facts || t.replies[place] is NotFound
                || t.replies[place] is Error) ==> run.after.asked.len() == place + 1 && run.end
                == End::<()>::Failed("dependency installer does not exist: "@ + installer)
            &&& there ==> {
                &&& run.after.asked.len() == place + 3
                &&& run.after.asked[place + 2] is Streaming
                &&& run.done() <==> (t.replies[place + 2] matches ReplyView::Outcome(outcome)
                    && outcome.success)
                &&& t.replies[place + 2] matches ReplyView::Outcome(outcome) ==> !outcome.success
                    ==> run.end == End::<()>::Failed(outcome.failure_message("Firedancer deps.sh"@))
            }
        }),
{
    let seen = t.inspect(process::path_in(repository, "deps.sh"@));
    assert(seen.after.asked.len() == t.asked.len() + 1);
}

/// A built binary that cannot be looked at is an error, not a missing one.
pub proof fn law_unreadable_binaries_are_errors(
    t: Transcript,
    repository: Seq<char>,
    reason: Seq<char>,
)
    requires
        t.reply() == Some(ReplyView::Error(reason)),
    ensures
        built_version_run(t, repository).end == End::<Option<Seq<char>>>::Failed(
            "could not inspect built fdctl: "@ + process::path_in(
                repository,
                "build/native/gcc/bin/fdctl"@,
            ) + ": "@ + reason,
        ),
        repository_run(t, repository).end == End::<()>::Failed(
            "Firedancer repository not found: "@ + repository + ": "@ + reason,
        ),
{
}

/// A stage that has to succeed ends the run with its own error if it does not, and the stages after it
/// do not run.
pub proof fn law_stages_stop_at_the_first_failure(
    t: Transcript,
    stages: Seq<StageView>,
    outcome: process::CommandOutcomeView,
)
    requires
        stages.len() > 0,
        t.reply() == Some(ReplyView::Outcome(outcome)),
    ensures
        !outcome.success ==> stages_run(t, stages).after.asked == t.asked.push(
            RequestView::Streaming(stages[0].command),
        ) && stages_run(t, stages).end == End::<()>::Failed(
            outcome.failure_message(stages[0].description),
        ),
        outcome.success ==> stages_run(t, stages) == stages_run(
            t.ask(RequestView::Streaming(stages[0].command)),
            stages.drop_first(),
        ),
        stages_run(t, Seq::empty()).after == t,
        stages_run(t, Seq::empty()).done(),
{
}

/// The stages of an update are called by the git command that they run.
pub proof fn law_stages_are_called_by_their_command(repository: Seq<char>, commit: Seq<char>)
    ensures
        discard_stages(repository).len() == 2,
        discard_stages(repository)[0].description == "git reset"@,
        discard_stages(repository)[1].description == "git clean"@,
        submodule_reset_stage(repository).description == "git submodule reset"@,
        submodule_clean_stage(repository).description == "git submodule clean"@,
        checkout_stages(repository, commit).len() == 3,
        checkout_stages(repository, commit)[0].description == "git checkout"@,
        checkout_stages(repository, commit)[1].description == "git submodule sync"@,
        checkout_stages(repository, commit)[2].description == "git submodule update"@,
{
}

/// What is logged of an update names the ref, the checkout, and the commit; what is logged of leftover
/// changes names them; what is logged of a build names its whole seconds.
pub proof fn law_repository_events_name_their_subject(
    repository: Seq<char>,
    git_ref: Seq<char>,
    commit: Seq<char>,
    seconds: u64,
)
    requires
        seconds * 1_000_000_000 <= u64::MAX,
    ensures
        ({
            let event = fetch_event(repository, git_ref);
            &&& event.level is Info
            &&& event.target == "val::repository"@
            &&& event.message == "fetching Firedancer"@
            &&& event.fields == seq![
                FieldView { name: "reference"@, value: FieldValueView::Text(git_ref) },
                FieldView { name: "repository"@, value: FieldValueView::Shown(repository) },
            ]
        }),
        ({
            let event = updated_event(git_ref, commit);
            &&& event.level is Info
            &&& event.message == "Firedancer update completed"@
            &&& event.fields == seq![
                FieldView { name: "reference"@, value: FieldValueView::Text(git_ref) },
                FieldView { name: "commit"@, value: FieldValueView::Text(commit) },
            ]
        }),
        ({
            let event = current_event(commit);
            &&& event.level is Info
            &&& event.message == "repository is already at the requested commit"@
            &&& event.fields == seq![
                FieldView { name: "commit"@, value: FieldValueView::Text(commit) },
            ]
        }),
        ({
            let event = leftovers_event(commit);
            &&& event.level is Warn
            &&& event.message == "discarding leftover Firedancer checkout changes before update"@
            &&& event.fields == seq![
                FieldView {
                    name: "status"@,
                    value: FieldValueView::Shown(text::trimmed(commit)),
                },
            ]
        }),
        ({
            let event = building_event(repository);
            &&& event.level is Info
            &&& event.message == "building Firedancer"@
            &&& event.fields == seq![
                FieldView { name: "repository"@, value: FieldValueView::Shown(repository) },
            ]
        }),
        ({
            let event = build_event(Level::Info, git_ref, (seconds * 1_000_000_000) as u64);
            &&& event.message == git_ref
            &&& event.fields == seq![
                FieldView { name: "elapsed_seconds"@, value: FieldValueView::Number(seconds) },
            ]
        }),
{
    let nanos = (seconds * 1_000_000_000) as u64;
    assert(nanos / 1_000_000_000 == seconds) by (nonlinear_arith)
        requires
            nanos == seconds * 1_000_000_000,
    ;
}

/// Whether a reply is not what was hoped for: a file where a path was looked at, and success where a
/// command ran.
pub open spec fn unwelcome(request: RequestView, reply: ReplyView) -> bool {
    if request is Inspect {
        !(reply matches ReplyView::Facts(facts) && facts.is_file)
    } else {
        !(reply matches ReplyView::Outcome(outcome) && outcome.success)
    }
}

/// Whether the last reply that a run got was an unwelcome one.
pub open spec fn ended_unwelcome(earlier: Transcript, later: Transcript) -> bool {
    &&& earlier.asked.len() < later.asked.len() <= earlier.replies.len()
    &&& unwelcome(later.asked.last(), earlier.replies[later.asked.len() - 1])
}

/// Stages fail only with the last one that ran.
proof fn lemma_stages_fail(t: Transcript, stages: Seq<StageView>)
    ensures
        stages_run(t, stages).after.replies == t.replies,
        stages_run(t, stages).after.asked.len() >= t.asked.len(),
        stages_run(t, stages).end is Failed ==> ended_unwelcome(t, stages_run(t, stages).after),
    decreases stages.len(),
{
    if stages.len() > 0 {
        let first = t.required(
            RequestView::Streaming(stages[0].command),
            stages[0].description,
        );
        lemma_stages_fail(first.after, stages.drop_first());
    }
}

/// Discarding leftovers fails only on an unwelcome reply.
proof fn lemma_reset_fails(t: Transcript, repository: Seq<char>)
    ensures
        reset_run(t, repository).after.replies == t.replies,
        reset_run(t, repository).after.asked.len() >= t.asked.len(),
        reset_run(t, repository).end is Failed ==> ended_unwelcome(
            t,
            reset_run(t, repository).after,
        ),
{
    let status = worktree_status_run(t, repository);
    let warned = status.after.note(leftovers_event(status.value()));
    lemma_stages_fail(warned.after, discard_stages(repository));
}

/// Moving to a resolved commit fails only where something went wrong: whenever it fails, the last reply
/// was not what was hoped for. That the commit is checked out already, that there are leftover
/// changes, and that submodules cannot be cleaned up are no reasons to fail.
pub proof fn law_moves_fail_only_on_failures(
    t: Transcript,
    repository: Seq<char>,
    commit: Seq<char>,
)
    ensures
        move_run(t, repository, commit).end is Failed ==> ended_unwelcome(
            t,
            move_run(t, repository, commit).after,
        ),
        reset_run(t, repository).end is Failed ==> ended_unwelcome(
            t,
            reset_run(t, repository).after,
        ),
{
    let head = t.outcome(RequestView::Capture(head_command(repository)));
    let noted = if head.value().success && text::trimmed(head.value().stdout) == commit {
        head.after.note(current_event(commit))
    } else {
        head.with(())
    };
    lemma_reset_fails(t, repository);
    let reset = reset_run(noted.after, repository);
    lemma_reset_fails(noted.after, repository);
    lemma_stages_fail(reset.after, checkout_stages(repository, commit));
}

/// The commit that is checked out is asked of git first when a checkout is moved, and only what git
/// answers is logged: that the commit is there already.
pub proof fn law_the_current_commit_is_asked_for(
    t: Transcript,
    repository: Seq<char>,
    commit: Seq<char>,
    outcome: process::CommandOutcomeView,
)
    requires
        t.asked.len() + 1 < t.replies.len(),
        t.replies[t.asked.len() as int] == ReplyView::Outcome(outcome),
    ensures
        ({
            let first = t.ask(
                RequestView::Capture(
                    CommandSpecView {
                        program: "git"@,
                        args: seq!["rev-parse"@, "--verify"@, "HEAD"@],
                        env: Seq::empty(),
                        cwd: Some(repository),
                    },
                ),
            );
            let there = outcome.success && text::trimmed(outcome.stdout) == commit;
            let next = if there {
                first.ask(RequestView::Log(current_event(commit)))
            } else {
                first
            };
            let reset = reset_run(next, repository);
            let run = move_run(t, repository, commit);
            &&& !reset.done() ==> run == reset
            &&& reset.done() ==> {
                let moved = stages_run(reset.after, checkout_stages(repository, commit));
                &&& !moved.done() ==> run == moved
                &&& moved.done() ==> run == deps_run(moved.after, repository)
            }
        }),
{
    assert(head_command(repository).env == Seq::<(Seq<char>, Seq<char>)>::empty());
    assert(t.ask(RequestView::Capture(head_command(repository))).asked.len() == t.asked.len() + 1);
}

/// An update fails only if the ref is unfit, the path is no checkout, the origin cannot be fetched, the
/// ref cannot be resolved, or the checkout cannot be moved, and then with that error.
pub proof fn law_updates_fail_only_for_a_reason(
    t: Transcript,
    repository: Seq<char>,
    git_ref: Seq<char>,
    message: Seq<char>,
)
    requires
        update_run(t, repository, git_ref).end == End::<()>::Failed(message),
    ensures
        ({
            let checked = repository_run(t, repository);
            let fetched = checked.after.ask(RequestView::Log(fetch_event(repository, git_ref)));
            let asked = fetched.ask(RequestView::Streaming(fetch_command(repository)));
            let resolved = resolve_run(asked, repository, git_ref, candidates(git_ref));
            ||| git_ref_fault(git_ref) == Some(message)
            ||| checked.end == End::<()>::Failed(message)
            ||| fetched.reply() is Some && unwelcome(asked.asked.last(), fetched.reply()->0)
            ||| resolved.end == End::<Seq<char>>::Failed(message)
            ||| resolved.done() && move_run(resolved.after, repository, resolved.value()).end
                == End::<()>::Failed(message)
        }),
{
}

/// A build fails only if the path is no checkout, the build directory cannot be removed, or make fails.
pub proof fn law_builds_fail_only_for_a_reason(t: Transcript, repository: Seq<char>)
    requires
        make_run(t, repository).end is Failed,
    ensures
        ({
            let checked = repository_run(t, repository);
            let removed = checked.after.ask(
                RequestView::RemoveTree(process::path_in(repository, "build"@)),
            );
            let begun = removed.ask(RequestView::Now).ask(
                RequestView::Log(building_event(repository)),
            );
            let made = begun.ask(RequestView::Streaming(make_command(repository)));
            ||| checked.end is Failed
            ||| checked.after.reply() is Some && !(checked.after.reply()->0 is Done)
            ||| begun.reply() is Some && unwelcome(made.asked.last(), begun.reply()->0)
        }),
{
}

} // verus!
