use val::logging::{Level, LogEvent};
use val::process::{
    compact_output, executable_in, render_command, require_success, set_compact_output,
    CommandOutcome, CommandSpec, CompactOutputGuard, OutputMode, Relay, Stream,
    COMMAND_OUTPUT_TARGET,
};

#[test]
fn display_includes_environment_assignments() {
    let spec = CommandSpec::new("deps.sh")
        .args(&["fetch", "check", "install"])
        .env("FD_AUTO_INSTALL_PACKAGES", "1");
    assert_eq!(
        spec.display(),
        "FD_AUTO_INSTALL_PACKAGES=\"1\" \"deps.sh\" \"fetch\" \"check\" \"install\""
    );
}

#[test]
fn display_quotes_special_characters() {
    let spec = CommandSpec::new("a b").arg("say \"hi\"\n").arg("");
    assert_eq!(spec.display(), r#""a b" "say \"hi\"\n" """#);
    assert_eq!(
        render_command(
            &vec![("K".to_owned(), "<v>".to_owned())],
            &vec!["<p>".to_owned(), "<a>".to_owned()]
        ),
        "K=<v> <p> <a>"
    );
}

#[test]
fn compact_output_guard_restores_on_drop() {
    let mut mode = OutputMode::new();
    assert!(!compact_output(&mode));
    {
        let guard = CompactOutputGuard::enable(&mut mode);
        assert!(compact_output(&mode));
        guard.release(&mut mode);
    }
    assert!(!compact_output(&mode));
}

#[test]
fn compact_output_flag_tracks_state() {
    let mut mode = OutputMode::new();
    set_compact_output(&mut mode, true);
    assert!(compact_output(&mode));
    set_compact_output(&mut mode, false);
    assert!(!compact_output(&mode));
}

#[test]
fn compact_mode_keeps_child_output_off_the_terminal() {
    let mut mode = OutputMode::new();
    let guard = CompactOutputGuard::enable(&mut mode);
    assert!(!Relay::new(&mode).terminal_open);
    guard.release(&mut mode);
    let mut relay = Relay::new(&mode);
    assert!(relay.terminal_open);
    let info = |text: &str| {
        LogEvent::new(Level::Info, COMMAND_OUTPUT_TARGET, text).text("stream", "stdout")
    };
    assert_eq!(relay.relayed(Stream::Stdout, "line\r\n", None), [info("line")]);
    assert_eq!(
        relay.relayed(Stream::Stdout, "next\n", Some("broken pipe".to_owned())),
        [
            LogEvent::new(
                Level::Warn,
                COMMAND_OUTPUT_TARGET,
                "terminal output closed; continuing to drain child output"
            )
            .text("stream", "stdout")
            .shown("error", "broken pipe"),
            info("next"),
        ]
    );
    assert!(!relay.terminal_open);
    assert_eq!(
        relay.relayed(Stream::Stderr, "last", Some("ignored".to_owned())),
        [LogEvent::new(Level::Info, COMMAND_OUTPUT_TARGET, "last").text("stream", "stderr")]
    );
    assert_eq!(Stream::Stdout.name(), "stdout");
    assert_eq!(Stream::Stderr.name(), "stderr");
}

#[test]
fn outcomes_describe_how_a_process_ended() {
    assert_eq!(CommandOutcome::failure(-1, "").exit_description(), "exit code -1");
    let killed = CommandOutcome { code: None, ..CommandOutcome::failure(0, "") };
    assert_eq!(killed.exit_description(), "terminated by signal");
}

#[test]
fn failures_are_described() {
    let failed = |outcome: CommandOutcome| require_success(outcome, "git fetch").expect_err("failed");
    assert_eq!(
        failed(CommandOutcome::failure(128, " fatal: gone \n")).message,
        "git fetch failed with exit code 128: fatal: gone"
    );
    assert_eq!(
        failed(CommandOutcome::failure(1, " \n")).message,
        "git fetch failed with exit code 1"
    );
    let outcome = CommandOutcome::success("out");
    assert_eq!(require_success(outcome.clone(), "x"), Ok(outcome));
}

#[test]
fn paths_are_joined() {
    assert_eq!(executable_in("/a", "b/c"), "/a/b/c");
    assert_eq!(executable_in("/a/", "b"), "/a/b");
    assert_eq!(executable_in("/a", "/b"), "/b");
    assert_eq!(executable_in("", "b"), "b");
}

#[test]
fn commands_are_built_in_order() {
    let spec = CommandSpec::new("p").arg("a").args(&["b", "c"]).env("K", "V").cwd("/d");
    assert_eq!(spec.program, "p");
    assert_eq!(spec.args, ["a", "b", "c"]);
    assert_eq!(spec.env, [("K".to_owned(), "V".to_owned())]);
    assert_eq!(spec.cwd.as_deref(), Some("/d"));
    assert_eq!(spec.duplicate(), spec);
}
