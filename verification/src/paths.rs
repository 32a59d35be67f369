//! Runtime path and operating-user resolution.

use vstd::prelude::*;

use crate::cli;
use crate::cli::Cli;
use crate::process;
use crate::process::{absolute, executable_in};
use crate::session::{
    AccountView, End, Failure, Halt, ReplyView, Request, RequestView, Run, Session, Transcript,
    Variable,
};
use crate::text;
use crate::text::{any_white_space, join3, same_text};

verus! {

/// Where everything is, and whose it is.
#[derive(Debug, Clone, PartialEq, Eq)]
pub struct AppPaths {
    pub base: String,
    pub repository: String,
    pub config: String,
    pub log_dir: String,
    pub username: String,
}

/// What [`AppPaths`] say.
#[verifier::ext_equal]
pub struct AppPathsView {
    pub base: Seq<char>,
    pub repository: Seq<char>,
    pub config: Seq<char>,
    pub log_dir: Seq<char>,
    pub username: Seq<char>,
}

impl View for AppPaths {
    type V = AppPathsView;

    open spec fn view(&self) -> AppPathsView {
        AppPathsView {
            base: self.base@,
            repository: self.repository@,
            config: self.config@,
            log_dir: self.log_dir@,
            username: self.username@,
        }
    }
}

/// Why a text cannot name a unit, if it cannot.
pub open spec fn service_name_fault(service: Seq<char>) -> Option<Seq<char>> {
    if service.len() == 0 {
        Some("systemd service name cannot be empty"@)
    } else if service[0] == '-' {
        Some("systemd service name cannot begin with '-'"@)
    } else if text::has_white_space(service) {
        Some("systemd service name cannot contain whitespace"@)
    } else {
        None
    }
}

/// Rejects ambiguous or option-like systemd unit names.
pub fn validate_service_name(service: &str) -> (checked: Result<(), Failure>)
    ensures
        checked is Ok <==> service_name_fault(service@) is None,
        checked matches Err(failure) ==> service_name_fault(service@) == Some(failure@),
{
    if service.is_empty() {
        return Err(Failure { message: "systemd service name cannot be empty".to_owned() });
    }
    if service.get_char(0) == '-' {
        return Err(Failure { message: "systemd service name cannot begin with '-'".to_owned() });
    }
    if any_white_space(service) {
        return Err(
            Failure { message: "systemd service name cannot contain whitespace".to_owned() },
        );
    }
    Ok(())
}

/// A text that says something, if there is one.
pub open spec fn nonempty(text: Option<Seq<char>>) -> Option<Seq<char>> {
    match text {
        Some(said) => if said.len() > 0 {
            text
        } else {
            None
        },
        None => None,
    }
}

/// The user that a recorded name stands for: anyone but nobody and root.
pub open spec fn other_than_root(user: Option<Seq<char>>) -> Option<Seq<char>> {
    if user == Some("root"@) {
        None
    } else {
        nonempty(user)
    }
}

/// Reading whom sudo was used by.
pub open spec fn sudo_user_run(t: Transcript) -> Run<Option<Seq<char>>> {
    let read = t.maybe_text(RequestView::Variable(Variable::SudoUser));
    read.with(other_than_root(read.value()))
}

/// Returns a non-root user recorded by sudo.
pub fn non_root_sudo_user(session: &mut Session) -> (user: Result<Option<String>, Halt>)
    ensures
        final(session)@ == sudo_user_run(old(session)@).after,
        sudo_user_run(old(session)@).end == (match user {
            Ok(u) => End::Done(process::maybe_text(u)),
            Err(halt) => halt.end(),
        }),
{
    match session.maybe_text(Request::Variable(Variable::SudoUser))? {
        Some(user) => {
            if !user.as_str().is_empty() && !same_text(user.as_str(), "root") {
                Ok(Some(user))
            } else {
                Ok(None)
            }
        },
        None => Ok(None),
    }
}

/// Resolving the operator's name: whom sudo was used by, the environment's user, or the user
/// database's entry for the effective user.
pub open spec fn username_run(t: Transcript) -> Run<Seq<char>> {
    let sudo = sudo_user_run(t);
    if !sudo.done() {
        sudo.stop()
    } else {
        match sudo.value() {
            Some(user) => sudo.with(user),
            None => {
                let user = sudo.after.maybe_text(RequestView::Variable(Variable::User));
                if !user.done() {
                    user.stop()
                } else if nonempty(user.value()) is Some {
                    user.with(user.value()->0)
                } else {
                    let entry = user.after.account(RequestView::EffectiveAccount).attempting(
                        "could not look up the current operating-system user"@,
                    );
                    if !entry.done() {
                        entry.stop()
                    } else {
                        Run {
                            after: entry.after,
                            end: match entry.value() {
                                Some(account) => End::Done(account.name),
                                None => End::Failed(
                                    "current operating-system user has no passwd entry"@,
                                ),
                            },
                        }
                    }
                }
            },
        }
    }
}

/// Resolves the validator operator's username.
pub fn operating_username(session: &mut Session) -> (username: Result<String, Halt>)
    ensures
        final(session)@ == username_run(old(session)@).after,
        username_run(old(session)@).end == (match username {
            Ok(name) => End::Done(name@),
            Err(halt) => halt.end(),
        }),
{
    if let Some(user) = non_root_sudo_user(session)? {
        return Ok(user);
    }
    if let Some(user) = session.maybe_text(Request::Variable(Variable::User))? {
        if !user.as_str().is_empty() {
            return Ok(user);
        }
    }
    match session.account(Request::EffectiveAccount) {
        Ok(Some(account)) => Ok(account.name),
        Ok(None) => Err(
            Halt::Failed(
                Failure { message: "current operating-system user has no passwd entry".to_owned() },
            ),
        ),
        Err(halt) => Err(halt.attempting("could not look up the current operating-system user")),
    }
}

/// Resolving the operator's home directory: that of the user whom sudo was used by, the
/// environment's, or that of the effective user.
pub open spec fn home_run(t: Transcript, username: Seq<char>) -> Run<Seq<char>> {
    let sudo = sudo_user_run(t);
    if !sudo.done() {
        sudo.stop()
    } else if sudo.value() is Some {
        let entry = sudo.after.account(RequestView::NamedAccount(username)).attempting(
            "could not look up sudo user '"@ + username + "'"@,
        );
        if !entry.done() {
            entry.stop()
        } else {
            Run {
                after: entry.after,
                end: match entry.value() {
                    Some(account) => End::Done(account.home),
                    None => End::Failed("sudo user '"@ + username + "' has no passwd entry"@),
                },
            }
        }
    } else {
        let home = sudo.after.maybe_text(RequestView::Variable(Variable::Home));
        if !home.done() {
            home.stop()
        } else if nonempty(home.value()) is Some {
            home.with(home.value()->0)
        } else {
            let entry = home.after.account(RequestView::EffectiveAccount).attempting(
                "could not look up the current user's home directory"@,
            );
            if !entry.done() {
                entry.stop()
            } else {
                Run {
                    after: entry.after,
                    end: match entry.value() {
                        Some(account) => End::Done(account.home),
                        None => End::Failed("current user has no passwd entry"@),
                    },
                }
            }
        }
    }
}

/// Resolves the validator operator's home directory.
pub fn operating_home(session: &mut Session, username: &str) -> (home: Result<String, Halt>)
    ensures
        final(session)@ == home_run(old(session)@, username@).after,
        home_run(old(session)@, username@).end == (match home {
            Ok(path) => End::Done(path@),
            Err(halt) => halt.end(),
        }),
{
    if non_root_sudo_user(session)?.is_some() {
        return match session.account(Request::NamedAccount(username.to_owned())) {
            Ok(Some(account)) => Ok(account.home),
            Ok(None) => Err(
                Halt::Failed(
                    Failure { message: join3("sudo user '", username, "' has no passwd entry") },
                ),
            ),
            Err(halt) => {
                let attempt: String = join3("could not look up sudo user '", username, "'");
                Err(halt.attempting(attempt.as_str()))
            },
        };
    }
    if let Some(home) = session.maybe_text(Request::Variable(Variable::Home))? {
        if !home.as_str().is_empty() {
            return Ok(home);
        }
    }
    match session.account(Request::EffectiveAccount) {
        Ok(Some(account)) => Ok(account.home),
        Ok(None) => Err(
            Halt::Failed(Failure { message: "current user has no passwd entry".to_owned() }),
        ),
        Err(halt) => Err(halt.attempting("could not look up the current user's home directory")),
    }
}

/// Making a path absolute: a relative one starts at the current directory.
pub open spec fn absolute_run(t: Transcript, path: Seq<char>) -> Run<Seq<char>> {
    if process::is_absolute(path) {
        Run { after: t, end: End::Done(path) }
    } else {
        let current = t.text(RequestView::WorkingDirectory).attempting(
            "could not determine the current directory"@,
        );
        current.with(process::path_in(current.value(), path))
    }
}

/// Converts a relative path to an absolute path.
pub fn absolute_path(session: &mut Session, path: &str) -> (resolved: Result<String, Halt>)
    ensures
        final(session)@ == absolute_run(old(session)@, path@).after,
        absolute_run(old(session)@, path@).end == (match resolved {
            Ok(p) => End::Done(p@),
            Err(halt) => halt.end(),
        }),
{
    if absolute(path) {
        return Ok(path.to_owned());
    }
    match session.text(Request::WorkingDirectory) {
        Ok(current) => Ok(executable_in(current.as_str(), path)),
        Err(halt) => Err(halt.attempting("could not determine the current directory")),
    }
}

/// A given path, or one below a base.
pub open spec fn given_or_below(
    given: Option<Seq<char>>,
    base: Seq<char>,
    relative: Seq<char>,
) -> Seq<char> {
    match given {
        Some(path) => path,
        None => process::path_in(base, relative),
    }
}

/// Takes a given path, or one below a base.
fn option_or_below(given: &Option<String>, base: &str, relative: &str) -> (path: String)
    ensures
        path@ == given_or_below(process::maybe_text(*given), base@, relative@),
{
    match given {
        Some(path) => path.clone(),
        None => executable_in(base, relative),
    }
}

/// Resolving the base path.
pub open spec fn base_run(
    t: Transcript,
    given: Option<Seq<char>>,
    username: Seq<char>,
) -> Run<Seq<char>> {
    match given {
        Some(path) => absolute_run(t, path),
        None => {
            let home = home_run(t, username);
            if !home.done() {
                home.stop()
            } else {
                absolute_run(home.after, home.value())
            }
        },
    }
}

/// Resolving every path: check the unit's name, find the operator and the base, and place what
/// the options leave open below the base.
pub open spec fn resolve_run(
    t: Transcript,
    service: Seq<char>,
    options: cli::PathOptions,
) -> Run<AppPathsView> {
    match service_name_fault(service) {
        Some(message) => Run { after: t, end: End::Failed(message) },
        None => {
            let username = username_run(t);
            if !username.done() {
                username.stop()
            } else {
                let base = base_run(username.after, options.base_path, username.value());
                if !base.done() {
                    base.stop()
                } else {
                    let repository = absolute_run(
                        base.after,
                        given_or_below(options.repo_path, base.value(), "code/firedancer"@),
                    );
                    if !repository.done() {
                        repository.stop()
                    } else {
                        let config = absolute_run(
                            repository.after,
                            given_or_below(options.config, base.value(), "active-fd-config.toml"@),
                        );
                        if !config.done() {
                            config.stop()
                        } else {
                            let log_dir = absolute_run(
                                config.after,
                                given_or_below(options.log_dir, base.value(), "logs"@),
                            );
                            log_dir.with(
                                AppPathsView {
                                    base: base.value(),
                                    repository: repository.value(),
                                    config: config.value(),
                                    log_dir: log_dir.value(),
                                    username: username.value(),
                                },
                            )
                        }
                    }
                }
            }
        },
    }
}

impl AppPaths {
    /// Resolves validated absolute paths from CLI options and defaults.
    pub fn resolve(session: &mut Session, cli: &Cli) -> (paths: Result<AppPaths, Halt>)
        ensures
            final(session)@ == resolve_run(
                old(session)@,
                cli.service@,
                cli.path_options(),
            ).after,
            resolve_run(old(session)@, cli.service@, cli.path_options()).end == (match paths {
                Ok(p) => End::Done(p@),
                Err(halt) => halt.end(),
            }),
    {
        match validate_service_name(cli.service.as_str()) {
            Ok(_) => {},
            Err(failure) => {
                return Err(Halt::Failed(failure));
            },
        }
        let username: String = operating_username(session)?;
        let start: String = match &cli.base_path {
            Some(path) => path.clone(),
            None => operating_home(session, username.as_str())?,
        };
        let base: String = absolute_path(session, start.as_str())?;
        let repository: String = absolute_path(
            session,
            option_or_below(&cli.repo_path, base.as_str(), "code/firedancer").as_str(),
        )?;
        let config: String = absolute_path(
            session,
            option_or_below(&cli.config, base.as_str(), "active-fd-config.toml").as_str(),
        )?;
        let log_dir: String = absolute_path(
            session,
            option_or_below(&cli.log_dir, base.as_str(), "logs").as_str(),
        )?;
        Ok(AppPaths { base, repository, config, log_dir, username })
    }
}

/// A unit's name says something, is no option, and holds no white space.
pub proof fn law_service_names_are_checked(service: Seq<char>)
    ensures
        service_name_fault(service) is None <==> service.len() > 0 && service[0] != '-' && forall|
            i: int,
        |
            0 <= i < service.len() ==> !text::is_white_space(#[trigger] service[i]),
        service.len() == 0 ==> service_name_fault(service) == Some(
            "systemd service name cannot be empty"@,
        ),
        service.len() > 0 && service[0] == '-' ==> service_name_fault(service) == Some(
            "systemd service name cannot begin with '-'"@,
        ),
        service.len() > 0 && service[0] != '-' && service_name_fault(service) is Some
            ==> service_name_fault(service) == Some(
            "systemd service name cannot contain whitespace"@,
        ),
{
}

/// The operator is whom sudo was used by, unless that is root or nobody; else the environment's user,
/// unless that is nobody; else the user that the process runs as. What comes later is not asked for.
pub proof fn law_the_sudo_user_comes_first(
    t: Transcript,
    sudo: Option<Seq<char>>,
    user: Option<Seq<char>>,
    account: AccountView,
)
    requires
        t.asked.len() + 2 < t.replies.len(),
        t.replies[t.asked.len() as int] == ReplyView::MaybeText(sudo),
        t.replies[t.asked.len() as int + 1] == ReplyView::MaybeText(user),
        t.replies[t.asked.len() as int + 2] == ReplyView::MaybeAccount(Some(account)),
    ensures
        ({
            let run = username_run(t);
            let by_sudo = sudo is Some && sudo->0.len() > 0 && sudo->0 != "root"@;
            let by_user = user is Some && user->0.len() > 0;
            let first = t.asked.push(RequestView::Variable(Variable::SudoUser));
            let second = first.push(RequestView::Variable(Variable::User));
            &&& run.done()
            &&& by_sudo ==> run.value() == sudo->0 && run.after.asked == first
            &&& !by_sudo && by_user ==> run.value() == user->0 && run.after.asked == second
            &&& !by_sudo && !by_user ==> run.value() == account.name && run.after.asked
                == second.push(RequestView::EffectiveAccount)
            &&& by_sudo ==> sudo_user_run(t).value() == sudo
            &&& !by_sudo ==> sudo_user_run(t).value() is None
        }),
{
    assert(t.ask(RequestView::Variable(Variable::SudoUser)).asked.len() == t.asked.len() + 1);
    assert(t.ask(RequestView::Variable(Variable::SudoUser)).ask(
        RequestView::Variable(Variable::User),
    ).asked.len() == t.asked.len() + 2);
}

/// The home is that of the user whom sudo was used by, as the user database has it; else the
/// environment's; else that of the user that the process runs as.
pub proof fn law_the_sudo_users_home_comes_first(
    t: Transcript,
    username: Seq<char>,
    sudo: Option<Seq<char>>,
    home: Option<Seq<char>>,
    account: AccountView,
)
    requires
        t.asked.len() + 2 < t.replies.len(),
        t.replies[t.asked.len() as int] == ReplyView::MaybeText(sudo),
        sudo is Some && sudo->0.len() > 0 && sudo->0 != "root"@ ==> t.replies[t.asked.len() as int
            + 1] == ReplyView::MaybeAccount(Some(account)),
        !(sudo is Some && sudo->0.len() > 0 && sudo->0 != "root"@) ==> t.replies[t.asked.len()
            as int + 1] == ReplyView::MaybeText(home) && t.replies[t.asked.len() as int + 2]
            == ReplyView::MaybeAccount(Some(account)),
    ensures
        ({
            let run = home_run(t, username);
            let by_sudo = sudo is Some && sudo->0.len() > 0 && sudo->0 != "root"@;
            let by_home = home is Some && home->0.len() > 0;
            let first = t.asked.push(RequestView::Variable(Variable::SudoUser));
            let second = first.push(RequestView::Variable(Variable::Home));
            &&& run.done()
            &&& by_sudo ==> run.value() == account.home && run.after.asked == first.push(
                RequestView::NamedAccount(username),
            )
            &&& !by_sudo && by_home ==> run.value() == home->0 && run.after.asked == second
            &&& !by_sudo && !by_home ==> run.value() == account.home && run.after.asked
                == second.push(RequestView::EffectiveAccount)
        }),
{
    assert(t.ask(RequestView::Variable(Variable::SudoUser)).asked.len() == t.asked.len() + 1);
    assert(t.ask(RequestView::Variable(Variable::SudoUser)).ask(
        RequestView::Variable(Variable::Home),
    ).asked.len() == t.asked.len() + 2);
}

/// An absolute path is kept and nothing is asked for it; a relative one is below the current
/// directory.
pub proof fn law_relative_paths_start_at_the_current_directory(
    t: Transcript,
    path: Seq<char>,
    current: Seq<char>,
)
    requires
        t.reply() == Some(ReplyView::Text(current)),
    ensures
        path.len() > 0 && path[0] == '/' ==> absolute_run(t, path).after == t && absolute_run(
            t,
            path,
        ).end == End::Done(path),
        !(path.len() > 0 && path[0] == '/') ==> absolute_run(t, path).after == t.ask(
            RequestView::WorkingDirectory,
        ) && absolute_run(t, path).end == End::Done(process::path_in(current, path)),
{
}

/// Options decide over defaults. Without them the checkout is `code/firedancer`, the configuration
/// `active-fd-config.toml`, and the logs `logs`, all below the base, and the base is the operator's
/// home. An option is never taken for another.
pub proof fn law_options_decide_over_defaults(
    t: Transcript,
    service: Seq<char>,
    options: cli::PathOptions,
)
    ensures
        ({
            let run = resolve_run(t, service, options);
            let found = run.value();
            let rooted = |path: Seq<char>| path.len() > 0 && path[0] == '/';
            run.done() ==> {
                &&& service_name_fault(service) is None
                &&& username_run(t).done() && found.username == username_run(t).value()
                &&& options.base_path is Some && rooted(options.base_path->0) ==> found.base
                    == options.base_path->0
                &&& options.base_path is None ==> {
                    let home = home_run(username_run(t).after, found.username);
                    home.done() && (rooted(home.value()) ==> found.base == home.value())
                }
                &&& options.repo_path is Some && rooted(options.repo_path->0) ==> found.repository
                    == options.repo_path->0
                &&& options.config is Some && rooted(options.config->0) ==> found.config
                    == options.config->0
                &&& options.log_dir is Some && rooted(options.log_dir->0) ==> found.log_dir
                    == options.log_dir->0
                &&& rooted(found.base) && options.repo_path is None ==> found.repository
                    == process::path_in(found.base, "code/firedancer"@)
                &&& rooted(found.base) && options.config is None ==> found.config
                    == process::path_in(found.base, "active-fd-config.toml"@)
                &&& rooted(found.base) && options.log_dir is None ==> found.log_dir
                    == process::path_in(found.base, "logs"@)
            }
        }),
        service_name_fault(service) matches Some(message) ==> resolve_run(t, service, options).after
            == t && resolve_run(t, service, options).end == End::<AppPathsView>::Failed(message),
{
    let username = username_run(t);
    let base = base_run(username.after, options.base_path, username.value());
    if base.value().len() > 0 {
        assert(forall|relative: Seq<char>|
            #![trigger process::path_in(base.value(), relative)]
            base.value()[0] == '/' ==> process::is_absolute(
                process::path_in(base.value(), relative),
            ));
    }
}

/// Paths are found whenever the unit's name is fit, the operator and the base are known, and no option is
/// relative: nothing else can fail.
pub proof fn law_absolute_paths_are_always_found(
    t: Transcript,
    service: Seq<char>,
    options: cli::PathOptions,
)
    requires
        service_name_fault(service) is None,
        username_run(t).done(),
        base_run(username_run(t).after, options.base_path, username_run(t).value()).done(),
        process::is_absolute(
            base_run(username_run(t).after, options.base_path, username_run(t).value()).value(),
        ),
        options.repo_path is Some ==> process::is_absolute(options.repo_path->0),
        options.config is Some ==> process::is_absolute(options.config->0),
        options.log_dir is Some ==> process::is_absolute(options.log_dir->0),
    ensures
        resolve_run(t, service, options).done(),
        resolve_run(t, service, options).after == base_run(
            username_run(t).after,
            options.base_path,
            username_run(t).value(),
        ).after,
{
}

} // verus!
