use val::cli::Commands;
use val::privilege::reexec_as_validator_user_if_needed;
use val::process::CommandSpec;
use val::session::{Halt, Reply, Request, Session};

fn leave(root: bool, command: Commands, replies: Vec<Reply>) -> (Result<(), Halt>, Option<Request>) {
    let mut session = Session::new(replies);
    let arguments = vec!["--verbose".to_owned(), "make-firedancer".to_owned()];
    let left = reexec_as_validator_user_if_needed(&mut session, root, &command, &arguments);
    (left, session.pending().cloned())
}

fn message(left: Result<(), Halt>) -> String {
    match left {
        Err(Halt::Failed(failure)) => failure.message,
        other => panic!("unexpected {other:?}"),
    }
}

#[test]
fn other_users_go_on_at_once() {
    assert_eq!(leave(false, Commands::MakeFiredancer, vec![]), (Ok(()), None));
}

#[test]
fn direct_root_login_may_only_look() {
    let nobody = || vec![Reply::MaybeText(None)];
    assert_eq!(
        message(leave(true, Commands::MakeFiredancer, nobody()).0),
        "make-firedancer must not run from a direct root login; run it as the validator user or via sudo from that user"
    );
    let root = || vec![Reply::MaybeText(Some("root".to_owned()))];
    assert!(leave(true, Commands::RestartFiredancer, root()).0.is_err());
    assert_eq!(leave(true, Commands::Status { json: false }, nobody()).0, Ok(()));
    assert_eq!(leave(true, Commands::StartFiredancer, nobody()).0, Ok(()));
}

#[test]
fn sudo_user_takes_over() {
    let known = || {
        vec![
            Reply::MaybeText(Some("sol".to_owned())),
            Reply::Text("/usr/local/bin/val".to_owned()),
        ]
    };
    let (left, pending) = leave(true, Commands::MakeFiredancer, known());
    assert_eq!(left, Err(Halt::Waiting));
    assert_eq!(
        pending,
        Some(Request::Replace(CommandSpec::new("sudo").args(&[
            "-u",
            "sol",
            "-H",
            "--",
            "/usr/local/bin/val",
            "--verbose",
            "make-firedancer",
        ])))
    );
    let mut failed = known();
    failed.push(Reply::Error("ENOENT".to_owned()));
    assert_eq!(
        message(leave(true, Commands::Monitor { all: false, url: None }, failed).0),
        "could not re-execute monitor as validator user 'sol': ENOENT"
    );
    let mut strange = known();
    strange.push(Reply::Done);
    assert_eq!(
        message(leave(true, Commands::Status { json: false }, strange).0),
        "could not re-execute status as validator user 'sol': the reply does not answer the request"
    );
    let unknown = vec![
        Reply::MaybeText(Some("sol".to_owned())),
        Reply::Error("ENOENT".to_owned()),
    ];
    assert_eq!(
        message(leave(true, Commands::MakeFiredancer, unknown).0),
        "could not resolve the val executable path: ENOENT"
    );
}
