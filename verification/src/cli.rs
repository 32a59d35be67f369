//! Commands and global options.

use vstd::prelude::*;

use crate::process;

verus! {

/// The global options and the command to run.
#[derive(Debug, Clone, PartialEq, Eq)]
pub struct Cli {
    /// Validator user's home directory.
    pub base_path: Option<String>,
    /// Firedancer git checkout. Defaults to <base-path>/code/firedancer.
    pub repo_path: Option<String>,
    /// Active Firedancer TOML configuration.
    pub config: Option<String>,
    /// Directory containing val.log. Defaults to <base-path>/logs.
    pub log_dir: Option<String>,
    /// systemd service managed by start, stop, restart, and status.
    pub service: String,
    /// How often more diagnostic logging was asked for.
    pub verbose: u8,
    pub command: Commands,
}

/// What [`Cli`] says of paths.
#[verifier::ext_equal]
pub struct PathOptions {
    pub base_path: Option<Seq<char>>,
    pub repo_path: Option<Seq<char>>,
    pub config: Option<Seq<char>>,
    pub log_dir: Option<Seq<char>>,
}

/// A command.
#[derive(Debug, Clone, PartialEq, Eq)]
pub enum Commands {
    /// Fetch a Firedancer git ref, check it out, update submodules, and run deps.sh.
    UpdateFiredancer { git_ref: String },
    /// Update, build, restart, then wait for the validator to report running.
    UpdateFull { git_ref: String },
    /// Remove the Firedancer build directory, then build fdctl and solana.
    MakeFiredancer,
    /// Initialize all Firedancer host configuration stages.
    ConfigureFiredancer,
    /// Start the Firedancer systemd service, if it is not already active.
    StartFiredancer,
    /// Stop the Firedancer systemd service, if it is not already inactive.
    StopFiredancer,
    /// Stop the service, run configure-firedancer twice, then start it.
    RestartFiredancer,
    /// Show service state, validator boot/startup state, identity, and snapshot-fetch state.
    Status { json: bool },
    /// Watch the Firedancer GUI websocket for boot and startup state.
    Monitor { all: bool, url: Option<String> },
}

impl Commands {
    /// The commands that write to the checkout or to the host as the validator user.
    pub open spec fn touches_checkout(self) -> bool {
        ||| self is UpdateFiredancer
        ||| self is UpdateFull
        ||| self is MakeFiredancer
        ||| self is ConfigureFiredancer
        ||| self is RestartFiredancer
    }

    /// The commands that exclude each other: all but watching.
    pub open spec fn locks(self) -> bool {
        !(self is Monitor)
    }

    /// The stable name of the command.
    pub open spec fn called(self) -> Seq<char> {
        match self {
            Commands::UpdateFiredancer { .. } => "update-firedancer"@,
            Commands::UpdateFull { .. } => "update-full"@,
            Commands::MakeFiredancer => "make-firedancer"@,
            Commands::ConfigureFiredancer => "configure-firedancer"@,
            Commands::StartFiredancer => "start-firedancer"@,
            Commands::StopFiredancer => "stop-firedancer"@,
            Commands::RestartFiredancer => "restart-firedancer"@,
            Commands::Status { .. } => "status"@,
            Commands::Monitor { .. } => "monitor"@,
        }
    }

    /// Returns whether the command must run as the validator user.
    pub fn requires_validator_user(&self) -> (required: bool)
        ensures
            required == self.touches_checkout(),
    {
        match self {
            Commands::UpdateFiredancer { .. }
            | Commands::UpdateFull { .. }
            | Commands::MakeFiredancer
            | Commands::ConfigureFiredancer
            | Commands::RestartFiredancer => true,
            _ => false,
        }
    }

    /// Returns whether the command takes the exclusive val process lock.
    pub fn holds_command_lock(&self) -> (holds: bool)
        ensures
            holds == self.locks(),
    {
        match self {
            Commands::Monitor { .. } => false,
            _ => true,
        }
    }

    /// Returns the stable command name used in logs.
    pub fn name(&self) -> (name: &'static str)
        ensures
            name@ == self.called(),
    {
        match self {
            Commands::UpdateFiredancer { .. } => "update-firedancer",
            Commands::UpdateFull { .. } => "update-full",
            Commands::MakeFiredancer => "make-firedancer",
            Commands::ConfigureFiredancer => "configure-firedancer",
            Commands::StartFiredancer => "start-firedancer",
            Commands::StopFiredancer => "stop-firedancer",
            Commands::RestartFiredancer => "restart-firedancer",
            Commands::Status { .. } => "status",
            Commands::Monitor { .. } => "monitor",
        }
    }
}

impl Cli {
    /// What the options say of paths.
    pub open spec fn path_options(self) -> PathOptions {
        PathOptions {
            base_path: process::maybe_text(self.base_path),
            repo_path: process::maybe_text(self.repo_path),
            config: process::maybe_text(self.config),
            log_dir: process::maybe_text(self.log_dir),
        }
    }

    /// Whether the terminal shows compact progress in place of informational events.
    pub open spec fn shows_compactly(self) -> bool {
        self.verbose == 0 && (self.command is UpdateFull || self.command is Monitor)
    }

    /// Returns whether the terminal shows compact progress in place of informational events.
    pub fn compact_terminal(&self) -> (compact: bool)
        ensures
            compact == self.shows_compactly(),
    {
        self.verbose == 0 && match self.command {
            Commands::UpdateFull { .. } | Commands::Monitor { .. } => true,
            _ => false,
        }
    }
}

/// Every command that has to run as the validator user takes the command lock.
pub proof fn law_checkout_commands_take_the_lock(command: Commands)
    ensures
        command.touches_checkout() ==> command.locks(),
{
}

/// No two kinds of command share a name.
pub proof fn law_names_tell_commands_apart(left: Commands, right: Commands)
    ensures
        left.called() == right.called() ==> {
            &&& left is UpdateFiredancer == right is UpdateFiredancer
            &&& left is UpdateFull == right is UpdateFull
            &&& left is MakeFiredancer == right is MakeFiredancer
            &&& left is ConfigureFiredancer == right is ConfigureFiredancer
            &&& left is StartFiredancer == right is StartFiredancer
            &&& left is StopFiredancer == right is StopFiredancer
            &&& left is RestartFiredancer == right is RestartFiredancer
            &&& left is Status == right is Status
            &&& left is Monitor == right is Monitor
        },
{
    reveal_strlit("update-firedancer");
    reveal_strlit("update-full");
    reveal_strlit("make-firedancer");
    reveal_strlit("configure-firedancer");
    reveal_strlit("start-firedancer");
    reveal_strlit("stop-firedancer");
    reveal_strlit("restart-firedancer");
    reveal_strlit("status");
    reveal_strlit("monitor");
    assert(left.called().len() == right.called().len() || left.called() != right.called());
    assert(left.called()[0] == right.called()[0] || left.called() != right.called());
}

/// Updating, building, configuring, and restarting have to be done by the validator user, and no other
/// command has to. Only watching goes on beside another command.
pub proof fn law_writing_commands_need_the_validator_user(command: Commands)
    ensures
        command is StartFiredancer || command is StopFiredancer || command is Status || command
            is Monitor ==> !command.touches_checkout(),
        command is UpdateFiredancer || command is UpdateFull || command is MakeFiredancer || command
            is ConfigureFiredancer || command is RestartFiredancer ==> command.touches_checkout(),
        command.locks() <==> !(command is Monitor),
        command is UpdateFiredancer ==> command.called() == "update-firedancer"@,
        command is UpdateFull ==> command.called() == "update-full"@,
        command is MakeFiredancer ==> command.called() == "make-firedancer"@,
        command is ConfigureFiredancer ==> command.called() == "configure-firedancer"@,
        command is StartFiredancer ==> command.called() == "start-firedancer"@,
        command is StopFiredancer ==> command.called() == "stop-firedancer"@,
        command is RestartFiredancer ==> command.called() == "restart-firedancer"@,
        command is Status ==> command.called() == "status"@,
        command is Monitor ==> command.called() == "monitor"@,
{
}

/// Progress is compact for full updates and watches, unless more logging was asked for. Every path
/// option is what was given for it.
pub proof fn law_more_logging_is_not_compact(cli: Cli)
    ensures
        cli.verbose > 0 ==> !cli.shows_compactly(),
        cli.verbose == 0 && (cli.command is UpdateFull || cli.command is Monitor)
            ==> cli.shows_compactly(),
        !(cli.command is UpdateFull) && !(cli.command is Monitor) ==> !cli.shows_compactly(),
        cli.base_path matches Some(path) ==> cli.path_options().base_path == Some(path@),
        cli.repo_path matches Some(path) ==> cli.path_options().repo_path == Some(path@),
        cli.config matches Some(path) ==> cli.path_options().config == Some(path@),
        cli.log_dir matches Some(path) ==> cli.path_options().log_dir == Some(path@),
        cli.base_path is None ==> cli.path_options().base_path is None,
        cli.repo_path is None ==> cli.path_options().repo_path is None,
        cli.config is None ==> cli.path_options().config is None,
        cli.log_dir is None ==> cli.path_options().log_dir is None,
{
}

} // verus!
