use val::cli::{Cli, Commands};
use val::process::{CommandOutcome, CommandSpec};
use val::session::{with_context, Failure, FileFacts, Halt, Inspected, Reply, Request, Session};

#[test]
fn requests_meet_their_replies_in_order() {
    let mut session = Session::new(vec![
        Reply::Moment(5),
        Reply::Text("t".to_owned()),
        Reply::Outcome(CommandOutcome::success("out")),
    ]);
    assert_eq!(session.now(), Ok(5));
    assert_eq!(session.text(Request::WorkingDirectory), Ok("t".to_owned()));
    let command = CommandSpec::new("p");
    assert_eq!(
        session.outcome(Request::Capture(command.clone())),
        Ok(CommandOutcome::success("out"))
    );
    assert_eq!(session.pending(), None);
    assert_eq!(session.tell(Request::PrintLine("x".to_owned())), Err(Halt::Waiting));
    assert_eq!(session.pending(), Some(&Request::PrintLine("x".to_owned())));
}

#[test]
fn replies_of_another_kind_are_refused() {
    let wrong = "the reply does not answer the request";
    let message = |halt: Halt| match halt {
        Halt::Failed(failure) => failure.message,
        Halt::Waiting => panic!("a reply is known"),
    };
    let session = || Session::new(vec![Reply::Busy]);
    assert_eq!(message(session().perform(Request::Now).expect_err("refused")), wrong);
    assert_eq!(message(session().outcome(Request::Now).expect_err("refused")), wrong);
    assert_eq!(message(session().text(Request::Now).expect_err("refused")), wrong);
    assert_eq!(message(session().account(Request::Now).expect_err("refused")), wrong);
    assert_eq!(message(session().gui("").expect_err("refused")), wrong);
    assert_eq!(message(session().config("").expect_err("refused")), wrong);
    assert_eq!(session().now(), Ok(0));
    assert_eq!(session().maybe_text(Request::Now), Ok(None));
    assert_eq!(session().inspect("/"), Ok(Inspected::Unreadable(wrong.to_owned())));
    assert_eq!(session().tell(Request::Now), Ok(()));
}

#[test]
fn failures_carry_their_context() {
    assert_eq!(
        with_context("could not read x", "gone"),
        Failure { message: "could not read x: gone".to_owned() }
    );
    let halt = Halt::Failed(Failure { message: "gone".to_owned() });
    assert_eq!(
        halt.attempting("reading"),
        Halt::Failed(Failure { message: "reading: gone".to_owned() })
    );
    assert_eq!(Halt::Waiting.attempting("reading"), Halt::Waiting);
}

#[test]
fn runnable_files_have_an_execute_bit() {
    let facts = |is_file: bool, mode: u32| FileFacts { is_file, is_dir: !is_file, mode };
    assert!(facts(true, 0o010).is_runnable());
    assert!(!facts(true, 0o666).is_runnable());
    assert!(!facts(false, 0o777).is_runnable());
}

#[test]
fn repeated_runs_make_the_same_requests() {
    let service = val::service::ServiceManager::new("u", false);
    let known = vec![
        Reply::Outcome(CommandOutcome::success("ActiveState=inactive\n")),
        Reply::Done,
        Reply::Outcome(CommandOutcome::success("")),
        Reply::Outcome(CommandOutcome::success("ActiveState=active\n")),
        Reply::Done,
    ];
    let mut pending = Vec::new();
    for count in 0..5 {
        let mut session = Session::new(known[..count].to_vec());
        assert_eq!(service.start(&mut session), Err(Halt::Waiting));
        pending.push(session.pending().expect("a request").clone());
    }
    assert!(matches!(pending[0], Request::Capture(_)));
    assert!(matches!(pending[1], Request::Log(_)));
    assert!(matches!(pending[2], Request::Interactive(_)));
    assert_eq!(pending[3], pending[0]);
    assert!(matches!(pending[4], Request::Log(_)));
    let mut session = Session::new(known);
    assert_eq!(service.start(&mut session), Ok(true));
}

fn cli(command: Commands, verbose: u8) -> Cli {
    Cli {
        base_path: None,
        repo_path: None,
        config: None,
        log_dir: None,
        service: "frankendancer.service".to_owned(),
        verbose,
        command,
    }
}

#[test]
fn commands_say_what_they_need() {
    let git_ref = || "v1".to_owned();
    let table = [
        (Commands::UpdateFiredancer { git_ref: git_ref() }, "update-firedancer", true, true, false),
        (Commands::UpdateFull { git_ref: git_ref() }, "update-full", true, true, true),
        (Commands::MakeFiredancer, "make-firedancer", true, true, false),
        (Commands::ConfigureFiredancer, "configure-firedancer", true, true, false),
        (Commands::StartFiredancer, "start-firedancer", false, true, false),
        (Commands::StopFiredancer, "stop-firedancer", false, true, false),
        (Commands::RestartFiredancer, "restart-firedancer", true, true, false),
        (Commands::Status { json: false }, "status", false, true, false),
        (Commands::Monitor { all: false, url: None }, "monitor", false, false, true),
    ];
    for (command, name, user, lock, compact) in table {
        assert_eq!(command.name(), name);
        assert_eq!(command.requires_validator_user(), user, "{name}");
        assert_eq!(command.holds_command_lock(), lock, "{name}");
        assert_eq!(cli(command.clone(), 0).compact_terminal(), compact, "{name}");
        assert!(!cli(command, 1).compact_terminal(), "{name}");
    }
}
