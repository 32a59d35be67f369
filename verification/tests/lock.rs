use val::lock::CommandLock;
use val::session::{FileFacts, Halt, Reply, Request, Session};

fn directory() -> Reply {
    Reply::Facts(FileFacts { is_file: false, is_dir: true, mode: 0o755 })
}

fn acquire(replies: Vec<Reply>) -> Result<CommandLock, String> {
    let mut session = Session::new(replies);
    match CommandLock::acquire(&mut session, "/home/val") {
        Ok(lock) => Ok(lock),
        Err(Halt::Failed(failure)) => Err(failure.message),
        Err(Halt::Waiting) => panic!("unanswered {:?}", session.pending()),
    }
}

/// Acquires the lock against a table of the files that are locked already.
fn acquire_among(held: &mut Vec<String>) -> Result<CommandLock, String> {
    let mut replies = Vec::new();
    loop {
        let mut session = Session::new(replies.clone());
        match CommandLock::acquire(&mut session, "/home/val") {
            Ok(lock) => return Ok(lock),
            Err(Halt::Failed(failure)) => return Err(failure.message),
            Err(Halt::Waiting) => replies.push(match session.pending() {
                Some(Request::Inspect(_)) => directory(),
                Some(Request::TryLock(path)) if held.contains(path) => Reply::Busy,
                Some(Request::TryLock(path)) => {
                    held.push(path.clone());
                    Reply::Done
                }
                _ => Reply::Done,
            }),
        }
    }
}

#[test]
fn permits_only_one_command_at_a_time() {
    let mut held = Vec::new();
    let first = acquire_among(&mut held).expect("lock");
    assert!(acquire_among(&mut held).is_err());
    held.retain(|path| *path != first.path);
    assert!(acquire_among(&mut held).is_ok());
}

#[test]
fn lock_file_is_opened_and_secured_first() {
    let lock = acquire(vec![directory(), Reply::Done, Reply::Done, Reply::Done]).expect("lock");
    assert_eq!(lock.path, "/home/val/.val.lock");
    let mut session = Session::new(vec![directory(), Reply::Done]);
    assert!(CommandLock::acquire(&mut session, "/home/val").is_err());
    assert_eq!(
        session.pending(),
        Some(&Request::SecureLock("/home/val/.val.lock".to_owned()))
    );
}

#[test]
fn lock_errors_say_what_is_wrong() {
    let error = |replies: Vec<Reply>| acquire(replies).expect_err("refused");
    let failed = || Reply::Error("EACCES".to_owned());
    assert_eq!(
        error(vec![Reply::NotFound("ENOENT".to_owned())]),
        "base path does not exist: /home/val: ENOENT"
    );
    assert_eq!(
        error(vec![Reply::Facts(FileFacts { is_file: true, is_dir: false, mode: 0 })]),
        "base path is not a directory: /home/val"
    );
    assert_eq!(
        error(vec![directory(), failed()]),
        "could not open command lock /home/val/.val.lock: EACCES"
    );
    assert_eq!(
        error(vec![directory(), Reply::Done, failed()]),
        "could not secure command lock /home/val/.val.lock: EACCES"
    );
    assert_eq!(
        error(vec![directory(), Reply::Done, Reply::Done, Reply::Busy]),
        "another val command is already running"
    );
    assert_eq!(
        error(vec![directory(), Reply::Done, Reply::Done, failed()]),
        "could not acquire command lock /home/val/.val.lock: EACCES"
    );
}
