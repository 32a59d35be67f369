use std::collections::VecDeque;

use val::logging::{FieldValue, Level, LogEvent};
use val::monitor::GuiConfig;
use val::process::{CommandOutcome, CommandSpec};
use val::session::{FileFacts, Halt, Reply, Request, Session};
use val::repository::{
    built_fdctl_version, make_firedancer, reset_managed_worktree, resolve_git_ref,
    update_firedancer, validate_git_ref, validate_repository,
};

#[allow(dead_code)]
/// A host that answers requests from prepared outcomes and files.
struct Host {
    captures: VecDeque<CommandOutcome>,
    streaming: VecDeque<CommandOutcome>,
    interactive: VecDeque<CommandOutcome>,
    files: Vec<(String, FileFacts)>,
    texts: Vec<(String, String)>,
    clock: u64,
    asked: Vec<Request>,
}

#[allow(dead_code)]
impl Host {
    fn new(
        captures: Vec<CommandOutcome>,
        streaming: Vec<CommandOutcome>,
        interactive: Vec<CommandOutcome>,
    ) -> Host {
        Host {
            captures: VecDeque::from(captures),
            streaming: VecDeque::from(streaming),
            interactive: VecDeque::from(interactive),
            files: Vec::new(),
            texts: Vec::new(),
            clock: 0,
            asked: Vec::new(),
        }
    }

    fn file(mut self, path: &str, mode: u32) -> Host {
        self.files.push((path.to_owned(), FileFacts { is_file: true, is_dir: false, mode }));
        self
    }

    fn directory(mut self, path: &str) -> Host {
        self.files.push((path.to_owned(), FileFacts { is_file: false, is_dir: true, mode: 0o755 }));
        self
    }

    fn text(mut self, path: &str, text: &str) -> Host {
        self.texts.push((path.to_owned(), text.to_owned()));
        self
    }

    fn next(queue: &mut VecDeque<CommandOutcome>, kind: &str) -> Reply {
        match queue.pop_front() {
            Some(outcome) => Reply::Outcome(outcome),
            None => Reply::Error(format!("unexpected {kind}")),
        }
    }

    fn answer(&mut self, request: &Request) -> Reply {
        match request {
            Request::Capture(_) => Host::next(&mut self.captures, "capture"),
            Request::Streaming(_) => Host::next(&mut self.streaming, "streaming command"),
            Request::Interactive(_) => Host::next(&mut self.interactive, "interactive command"),
            Request::Inspect(path) => match self.files.iter().find(|(known, _)| known == path) {
                Some((_, facts)) => Reply::Facts(*facts),
                None => Reply::NotFound("No such file or directory (os error 2)".to_owned()),
            },
            Request::Now => {
                self.clock += 1_000_000_000;
                Reply::Moment(self.clock)
            }
            Request::ReadText(path) => match self.texts.iter().find(|(known, _)| known == path) {
                Some((_, text)) => Reply::Text(text.clone()),
                None => Reply::Error("No such file or directory (os error 2)".to_owned()),
            },
            Request::ParseGui(text) => Reply::Gui(gui_config(text)),
            _ => Reply::Done,
        }
    }

    fn streamed(&self) -> Vec<CommandSpec> {
        self.asked
            .iter()
            .filter_map(|request| match request {
                Request::Streaming(command) => Some(command.clone()),
                _ => None,
            })
            .collect()
    }

    fn interacted(&self) -> Vec<CommandSpec> {
        self.asked
            .iter()
            .filter_map(|request| match request {
                Request::Interactive(command) => Some(command.clone()),
                _ => None,
            })
            .collect()
    }

    fn printed(&self) -> Vec<String> {
        self.asked
            .iter()
            .filter_map(|request| match request {
                Request::PrintLine(line) => Some(line.clone()),
                _ => None,
            })
            .collect()
    }

    fn logged(&self) -> Vec<(Level, String)> {
        self.asked
            .iter()
            .filter_map(|request| match request {
                Request::Log(event) => Some((event.level, line(event))),
                _ => None,
            })
            .collect()
    }
}

/// An event as the log shows it: the message, and the fields with their names.
#[allow(dead_code)]
fn line(event: &LogEvent) -> String {
    let mut line = event.message.clone();
    for field in &event.fields {
        let value = match &field.value {
            FieldValue::Text(text) => format!("{text:?}"),
            FieldValue::Shown(text) => text.clone(),
            FieldValue::Number(number) => number.to_string(),
            FieldValue::Flag(flag) => flag.to_string(),
        };
        line = format!("{line} {}={value}", field.name);
    }
    line
}

/// Runs a procedure to its end: performs the pending request, and repeats.
fn drive<T>(
    host: &mut Host,
    procedure: impl Fn(&mut Session) -> Result<T, Halt>,
) -> Result<T, String> {
    let mut replies: Vec<Reply> = Vec::new();
    loop {
        let mut session = Session::new(replies.clone());
        match procedure(&mut session) {
            Ok(value) => return Ok(value),
            Err(Halt::Failed(failure)) => return Err(failure.message),
            Err(Halt::Waiting) => {
                let request = session.pending().expect("a pending request").clone();
                host.asked.push(request.clone());
                replies.push(host.answer(&request));
            }
        }
    }
}

fn gui_config(text: &str) -> GuiConfig {
    let table: toml::Table = text.parse().expect("TOML");
    let gui = table.get("tiles").and_then(|tiles| tiles.get("gui"));
    GuiConfig {
        enabled: gui.and_then(|gui| gui.get("enabled")).and_then(|value| value.as_bool()),
        gui_listen_address: gui
            .and_then(|gui| gui.get("gui_listen_address"))
            .and_then(|value| value.as_str())
            .map(|value| value.to_owned()),
        gui_listen_port: gui
            .and_then(|gui| gui.get("gui_listen_port"))
            .and_then(|value| value.as_integer())
            .map(|value| value as u16),
    }
}

const REPOSITORY: &str = "/srv/firedancer";
const COMMIT: &str = "0123456789012345678901234567890123456789\n";

fn done() -> CommandOutcome {
    CommandOutcome::success("")
}

fn failed(text: &str) -> CommandOutcome {
    CommandOutcome::failure(128, text)
}

fn update(host: &mut Host, git_ref: &str) -> Result<(), String> {
    drive(host, |session| update_firedancer(session, REPOSITORY, git_ref))
}

#[test]
fn rejects_option_like_and_control_character_refs() {
    assert!(validate_git_ref("--force").is_err());
    assert!(validate_git_ref("release\nmain").is_err());
    assert!(validate_git_ref("v1.2.3").is_ok());
}

#[test]
fn ref_errors_say_what_is_wrong() {
    let message = |git_ref: &str| validate_git_ref(git_ref).expect_err("refused").message;
    assert_eq!(message(""), "git ref cannot be empty");
    assert_eq!(message("-x"), "git ref cannot begin with '-'");
    assert_eq!(message("a\u{7f}"), "git ref cannot contain control characters");
    assert!(validate_git_ref("a-b").is_ok());
    assert!(validate_git_ref("with space").is_ok());
}

#[test]
fn invalid_ref_asks_for_nothing() {
    let mut host = Host::new(vec![], vec![], vec![]);
    assert_eq!(
        update(&mut host, "--force"),
        Err("git ref cannot begin with '-'".to_owned())
    );
    assert!(host.asked.is_empty());
}

#[test]
fn repository_has_to_be_a_working_tree() {
    let check = |mut host: Host| drive(&mut host, |session| validate_repository(session, REPOSITORY));
    assert_eq!(
        check(Host::new(vec![], vec![], vec![])),
        Err(
            "Firedancer repository not found: /srv/firedancer: No such file or directory (os error 2)"
                .to_owned()
        )
    );
    assert_eq!(
        check(Host::new(vec![], vec![], vec![]).file(REPOSITORY, 0o644)),
        Err("Firedancer repository path is not a directory: /srv/firedancer".to_owned())
    );
    for outcome in [failed("not a repository"), CommandOutcome::success("false\n")] {
        assert_eq!(
            check(Host::new(vec![outcome], vec![], vec![]).directory(REPOSITORY)),
            Err("path is not a git working tree: /srv/firedancer".to_owned())
        );
    }
    for answer in ["true\n", "/srv/firedancer\n"] {
        let outcome = CommandOutcome::success(answer);
        assert_eq!(
            check(Host::new(vec![outcome], vec![], vec![]).directory(REPOSITORY)),
            Ok(())
        );
    }
}

#[test]
fn update_does_not_discard_changes_when_the_ref_is_missing() {
    let mut host = Host::new(
        vec![
            CommandOutcome::success("true\n"),
            failed("tag not found"),
            failed("branch not found"),
            failed("ref not found"),
        ],
        vec![done()],
        vec![],
    )
    .directory(REPOSITORY);
    let error = update(&mut host, "v1.2.3").expect_err("missing ref must fail");
    assert!(error.contains("was not found"), "{error}");
    let specs = host.streamed();
    assert_eq!(specs.len(), 1);
    assert_eq!(specs[0].args, ["fetch", "--tags", "origin"]);
}

#[test]
fn update_discards_a_dirty_worktree_before_checkout() {
    let mut host = Host::new(
        vec![
            CommandOutcome::success("true\n"),
            CommandOutcome::success(COMMIT),
            failed("no HEAD"),
            CommandOutcome::success(" m agave\n?? local-file\n"),
        ],
        vec![done(); 8],
        vec![],
    )
    .directory(REPOSITORY);
    let error = update(&mut host, "v1.2.3").expect_err("missing deps.sh must fail after reset");
    assert!(error.contains("dependency installer"), "{error}");

    let specs = host.streamed();
    assert_eq!(specs[0].args, ["fetch", "--tags", "origin"]);
    assert_eq!(specs[1].args, ["reset", "--hard", "HEAD"]);
    assert_eq!(specs[2].args, ["clean", "-ffd"]);
    assert_eq!(
        specs[3].args,
        ["submodule", "foreach", "--recursive", "git", "reset", "--hard"]
    );
    assert_eq!(
        specs[4].args,
        ["submodule", "foreach", "--recursive", "git", "clean", "-ffd"]
    );
    assert_eq!(
        specs[5].args,
        [
            "checkout",
            "--force",
            "--detach",
            "0123456789012345678901234567890123456789"
        ]
    );
    assert!(host.logged().contains(&(
        Level::Warn,
        "discarding leftover Firedancer checkout changes before update status=m agave\n?? local-file"
            .to_owned()
    )));
}

#[test]
fn update_continues_when_submodule_cleanup_fails() {
    let mut host = Host::new(
        vec![
            CommandOutcome::success("true\n"),
            CommandOutcome::success(COMMIT),
            failed("no HEAD"),
            CommandOutcome::success(" m agave\n"),
        ],
        vec![
            done(),
            done(),
            done(),
            CommandOutcome::failure(1, "foreach reset failed"),
            CommandOutcome::failure(1, "foreach clean failed"),
            done(),
            done(),
            done(),
        ],
        vec![],
    )
    .directory(REPOSITORY);
    let error = update(&mut host, "v1.2.3").expect_err("missing deps.sh must fail after continuing");
    assert!(error.contains("dependency installer"), "{error}");
    assert_eq!(
        host.streamed()[5].args,
        [
            "checkout",
            "--force",
            "--detach",
            "0123456789012345678901234567890123456789"
        ]
    );
    assert!(host.logged().contains(&(
        Level::Warn,
        "continuing Firedancer update after git command failed command=\"git submodule clean\" result=exit code 1"
            .to_owned()
    )));
}

#[test]
fn failed_superproject_reset_ends_the_update() {
    let mut host = Host::new(
        vec![
            CommandOutcome::success("true\n"),
            CommandOutcome::success(COMMIT),
            failed("no HEAD"),
            CommandOutcome::success("?? x\n"),
        ],
        vec![done(), CommandOutcome::failure(1, "locked")],
        vec![],
    )
    .directory(REPOSITORY);
    assert_eq!(
        update(&mut host, "v1.2.3"),
        Err("git reset failed with exit code 1: locked".to_owned())
    );
}

#[test]
fn missing_deps_script_fails_after_checkout() {
    let mut host = Host::new(
        vec![
            CommandOutcome::success("true\n"),
            CommandOutcome::success(COMMIT),
            failed("no HEAD"),
            CommandOutcome::success(""),
        ],
        vec![done(), done(), done(), done()],
        vec![],
    )
    .directory(REPOSITORY);
    let error = update(&mut host, "v1.2.3").expect_err("missing deps.sh must fail");
    assert_eq!(error, "dependency installer does not exist: /srv/firedancer/deps.sh");
    let specs = host.streamed();
    assert_eq!(specs[0].args, ["fetch", "--tags", "origin"]);
    assert_eq!(
        specs[1].args,
        [
            "checkout",
            "--force",
            "--detach",
            "0123456789012345678901234567890123456789"
        ]
    );
    assert_eq!(specs[2].args, ["submodule", "sync", "--recursive"]);
    assert_eq!(
        specs[3].args,
        ["submodule", "update", "--init", "--recursive", "--force", "--checkout"]
    );
}

#[test]
fn update_runs_deps_sh_without_confirmation_prompts() {
    let mut host = Host::new(
        vec![
            CommandOutcome::success("true\n"),
            CommandOutcome::success(COMMIT),
            failed("no HEAD"),
            CommandOutcome::success(""),
        ],
        vec![done(); 5],
        vec![],
    )
    .directory(REPOSITORY)
    .file("/srv/firedancer/deps.sh", 0o644);
    update(&mut host, "v1.2.3").expect("updated");

    let specs = host.streamed();
    assert_eq!(specs.len(), 5);
    assert_eq!(specs[4].program, "/srv/firedancer/deps.sh");
    assert_eq!(specs[4].args, ["fetch", "check", "install"]);
    assert_eq!(
        specs[4].env,
        [("FD_AUTO_INSTALL_PACKAGES".to_owned(), "1".to_owned())]
    );
    assert_eq!(specs[4].cwd.as_deref(), Some(REPOSITORY));
    assert!(host.interacted().is_empty());
}

#[test]
fn repeated_update_still_installs_dependencies() {
    let mut host = Host::new(
        vec![
            CommandOutcome::success("true\n"),
            CommandOutcome::success(COMMIT),
            CommandOutcome::success(COMMIT),
            CommandOutcome::success(""),
        ],
        vec![done(); 5],
        vec![],
    )
    .directory(REPOSITORY)
    .file("/srv/firedancer/deps.sh", 0o755);
    update(&mut host, "v1.2.3").expect("updated");
    assert_eq!(host.streamed().len(), 5);
    let info = |text: &str| (Level::Info, text.to_owned());
    assert_eq!(
        host.logged(),
        [
            info("fetching Firedancer reference=\"v1.2.3\" repository=/srv/firedancer"),
            info("repository is already at the requested commit commit=\"0123456789012345678901234567890123456789\""),
            info("running Firedancer dependency installer"),
            info("Firedancer update completed reference=\"v1.2.3\" commit=\"0123456789012345678901234567890123456789\""),
        ]
    );
}

#[test]
fn clean_worktree_is_left_alone() {
    let mut host = Host::new(vec![CommandOutcome::success("\n")], vec![], vec![]);
    drive(&mut host, |session| reset_managed_worktree(session, REPOSITORY)).expect("clean");
    assert_eq!(host.asked.len(), 1);
}

#[test]
fn branch_resolution_prefers_the_fetched_origin_branch() {
    let commit = "fedcba9876543210fedcba9876543210fedcba98\n";
    let mut host = Host::new(
        vec![failed("tag not found"), CommandOutcome::success(commit)],
        vec![],
        vec![],
    );
    assert_eq!(
        drive(&mut host, |session| resolve_git_ref(session, REPOSITORY, "main")),
        Ok(commit.trim().to_owned())
    );
    let revisions: Vec<String> = host
        .asked
        .iter()
        .map(|request| match request {
            Request::Capture(command) => command.args[3].clone(),
            _ => panic!("only git is asked"),
        })
        .collect();
    assert_eq!(
        revisions,
        ["refs/tags/main^{commit}", "refs/remotes/origin/main^{commit}"]
    );
}

#[test]
fn full_refs_and_commits_are_resolved_as_they_are() {
    for git_ref in ["refs/heads/main", "0123abc", "DEADBEEF00"] {
        let mut host = Host::new(vec![failed("unknown")], vec![], vec![]);
        assert_eq!(
            drive(&mut host, |session| resolve_git_ref(session, REPOSITORY, git_ref)),
            Err(format!("git ref '{git_ref}' was not found after fetching origin"))
        );
        assert_eq!(host.asked.len(), 1);
    }
    let mut host = Host::new(vec![failed("1"), failed("2"), failed("3")], vec![], vec![]);
    assert!(drive(&mut host, |session| resolve_git_ref(session, REPOSITORY, "abc123")).is_err());
    assert_eq!(host.asked.len(), 3);
}

#[test]
fn resolved_text_has_to_be_a_commit_id() {
    for answer in ["0123456789", "not-a-commit", ""] {
        let mut host = Host::new(vec![CommandOutcome::success(answer)], vec![], vec![]);
        assert_eq!(
            drive(&mut host, |session| resolve_git_ref(session, REPOSITORY, "v1")),
            Err("git ref 'v1' resolved to an invalid commit id".to_owned())
        );
    }
}

#[test]
fn build_removes_the_build_directory_first() {
    let mut host = Host::new(vec![CommandOutcome::success("true\n")], vec![done()], vec![])
        .directory(REPOSITORY);
    let nanos = drive(&mut host, |session| make_firedancer(session, REPOSITORY));
    assert_eq!(nanos, Ok(1_000_000_000));
    assert_eq!(
        host.asked[2..],
        [
            Request::RemoveTree("/srv/firedancer/build".to_owned()),
            Request::Now,
            Request::Log(
                LogEvent::new(Level::Info, "val::repository", "building Firedancer")
                    .shown("repository", "/srv/firedancer")
            ),
            Request::Streaming(
                CommandSpec::new("make").args(&["-j", "fdctl", "solana"]).cwd(REPOSITORY)
            ),
            Request::Now,
            Request::Log(
                LogEvent::new(Level::Info, "val::repository", "Firedancer build completed")
                    .number("elapsed_seconds", 1)
            ),
        ]
    );
}

#[test]
fn failed_build_is_reported() {
    let mut host = Host::new(
        vec![CommandOutcome::success("true\n")],
        vec![CommandOutcome { success: false, code: None, stdout: String::new(), stderr: String::new() }],
        vec![],
    )
    .directory(REPOSITORY);
    assert_eq!(
        drive(&mut host, |session| make_firedancer(session, REPOSITORY)),
        Err("Firedancer build failed with terminated by signal".to_owned())
    );
    assert_eq!(
        host.logged()[1..],
        [(
            Level::Warn,
            "Firedancer build failed elapsed_seconds=1 result=terminated by signal".to_owned()
        )]
    );
}

#[test]
fn reads_version_from_the_built_fdctl() {
    let fdctl = "/srv/firedancer/build/native/gcc/bin/fdctl";
    let mut host = Host::new(vec![CommandOutcome::success("v2.0.0\n")], vec![], vec![])
        .file(fdctl, 0o755);
    assert_eq!(
        drive(&mut host, |session| built_fdctl_version(session, REPOSITORY)),
        Ok(Some("v2.0.0".to_owned()))
    );
    assert_eq!(
        host.asked[1..],
        [Request::Capture(CommandSpec::new(fdctl).arg("version").cwd(REPOSITORY))]
    );
}

#[test]
fn unbuilt_or_unusable_fdctl_has_no_version() {
    let fdctl = "/srv/firedancer/build/native/gcc/bin/fdctl";
    let read = |mut host: Host| drive(&mut host, |session| built_fdctl_version(session, REPOSITORY));
    assert_eq!(read(Host::new(vec![], vec![], vec![])), Ok(None));
    assert_eq!(
        read(Host::new(vec![], vec![], vec![]).file(fdctl, 0o600)),
        Err("built fdctl is not executable: /srv/firedancer/build/native/gcc/bin/fdctl".to_owned())
    );
    assert_eq!(
        read(Host::new(vec![CommandOutcome::success("\n")], vec![], vec![]).file(fdctl, 0o755)),
        Err("built fdctl returned an empty version".to_owned())
    );
    let mut session = Session::new(vec![Reply::Error("Permission denied (os error 13)".to_owned())]);
    match built_fdctl_version(&mut session, REPOSITORY) {
        Err(Halt::Failed(failure)) => assert_eq!(
            failure.message,
            "could not inspect built fdctl: /srv/firedancer/build/native/gcc/bin/fdctl: Permission denied (os error 13)"
        ),
        other => panic!("unexpected {other:?}"),
    }
}
