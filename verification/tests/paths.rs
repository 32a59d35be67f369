use val::cli::{Cli, Commands};
use val::paths::{absolute_path, validate_service_name, AppPaths};
use val::session::{Account, Halt, Reply, Request, Session, Variable};

fn cli() -> Cli {
    Cli {
        base_path: None,
        repo_path: None,
        config: None,
        log_dir: None,
        service: "frankendancer.service".to_owned(),
        verbose: 0,
        command: Commands::MakeFiredancer,
    }
}

fn some(text: &str) -> Reply {
    Reply::MaybeText(Some(text.to_owned()))
}

fn none() -> Reply {
    Reply::MaybeText(None)
}

fn account(name: &str, home: &str) -> Reply {
    Reply::MaybeAccount(Some(Account { name: name.to_owned(), home: home.to_owned() }))
}

fn resolve(cli: &Cli, replies: Vec<Reply>) -> Result<AppPaths, String> {
    let mut session = Session::new(replies);
    match AppPaths::resolve(&mut session, cli) {
        Ok(paths) => Ok(paths),
        Err(Halt::Failed(failure)) => Err(failure.message),
        Err(Halt::Waiting) => panic!("unanswered {:?}", session.pending()),
    }
}

#[test]
fn service_name_validation_rejects_unsafe_values() {
    assert!(validate_service_name("").is_err());
    assert!(validate_service_name("--now").is_err());
    assert!(validate_service_name("bad unit.service").is_err());
    assert!(validate_service_name("frankendancer.service").is_ok());
}

#[test]
fn service_name_errors_say_what_is_wrong() {
    let message = |name: &str| validate_service_name(name).expect_err("refused").message;
    assert_eq!(message(""), "systemd service name cannot be empty");
    assert_eq!(message("-"), "systemd service name cannot begin with '-'");
    assert_eq!(message("a\u{2003}b"), "systemd service name cannot contain whitespace");
    assert_eq!(
        resolve(&Cli { service: String::new(), ..cli() }, vec![]),
        Err("systemd service name cannot be empty".to_owned())
    );
}

#[test]
fn defaults_stand_below_the_home() {
    let paths = resolve(&cli(), vec![none(), some("val"), none(), some("/home/val")]);
    assert_eq!(
        paths,
        Ok(AppPaths {
            base: "/home/val".to_owned(),
            repository: "/home/val/code/firedancer".to_owned(),
            config: "/home/val/active-fd-config.toml".to_owned(),
            log_dir: "/home/val/logs".to_owned(),
            username: "val".to_owned(),
        })
    );
}

#[test]
fn sudo_user_owns_the_paths() {
    let paths = resolve(&cli(), vec![some("sol"), some("sol"), account("sol", "/h/sol")]);
    let paths = paths.expect("paths");
    assert_eq!(paths.username, "sol");
    assert_eq!(paths.base, "/h/sol");
    assert_eq!(
        resolve(&cli(), vec![some("sol"), some("sol"), Reply::MaybeAccount(None)]),
        Err("sudo user 'sol' has no passwd entry".to_owned())
    );
    assert_eq!(
        resolve(&cli(), vec![some("sol"), some("sol"), Reply::Error("EIO".to_owned())]),
        Err("could not look up sudo user 'sol': EIO".to_owned())
    );
}

#[test]
fn root_and_nobody_are_no_sudo_users() {
    for user in ["root", ""] {
        let paths = resolve(&cli(), vec![some(user), some("val"), some(user), some("/home/val")]);
        assert_eq!(paths.expect("paths").username, "val");
    }
}

#[test]
fn user_database_is_asked_last() {
    let paths = resolve(
        &cli(),
        vec![none(), some(""), account("op", "/x"), none(), none(), account("op", "/home/op")],
    );
    let paths = paths.expect("paths");
    assert_eq!(paths.username, "op");
    assert_eq!(paths.base, "/home/op");
    assert_eq!(
        resolve(&cli(), vec![none(), none(), Reply::MaybeAccount(None)]),
        Err("current operating-system user has no passwd entry".to_owned())
    );
    assert_eq!(
        resolve(&cli(), vec![none(), none(), Reply::Error("EIO".to_owned())]),
        Err("could not look up the current operating-system user: EIO".to_owned())
    );
    assert_eq!(
        resolve(&cli(), vec![none(), some("u"), none(), some(""), Reply::MaybeAccount(None)]),
        Err("current user has no passwd entry".to_owned())
    );
    assert_eq!(
        resolve(&cli(), vec![none(), some("u"), none(), none(), Reply::Error("EIO".to_owned())]),
        Err("could not look up the current user's home directory: EIO".to_owned())
    );
}

#[test]
fn given_paths_become_absolute() {
    let given = Cli {
        base_path: Some("base".to_owned()),
        repo_path: Some("/repo".to_owned()),
        config: Some("c.toml".to_owned()),
        ..cli()
    };
    let cwd = || Reply::Text("/work".to_owned());
    let paths = resolve(&given, vec![none(), some("u"), cwd(), cwd()]).expect("paths");
    assert_eq!(paths.base, "/work/base");
    assert_eq!(paths.repository, "/repo");
    assert_eq!(paths.config, "/work/c.toml");
    assert_eq!(paths.log_dir, "/work/base/logs");
    for path in [paths.base, paths.repository, paths.config, paths.log_dir] {
        assert!(path.starts_with('/'));
    }
}

#[test]
fn unknown_current_directory_is_reported() {
    let mut session = Session::new(vec![Reply::Error("ENOENT".to_owned())]);
    match absolute_path(&mut session, "x") {
        Err(Halt::Failed(failure)) => {
            assert_eq!(failure.message, "could not determine the current directory: ENOENT")
        }
        other => panic!("unexpected {other:?}"),
    }
    let mut session = Session::new(vec![]);
    assert_eq!(absolute_path(&mut session, "x"), Err(Halt::Waiting));
    assert_eq!(session.pending(), Some(&Request::WorkingDirectory));
}

#[test]
fn environment_is_asked_in_order() {
    let mut session = Session::new(vec![none(), none()]);
    assert!(AppPaths::resolve(&mut session, &cli()).is_err());
    assert_eq!(session.pending(), Some(&Request::EffectiveAccount));
    let mut session = Session::new(vec![]);
    assert!(AppPaths::resolve(&mut session, &cli()).is_err());
    assert_eq!(session.pending(), Some(&Request::Variable(Variable::SudoUser)));
}
