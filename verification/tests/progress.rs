use val::progress::{
    format_duration, in_progress_line, live_frame, status_line, LiveProgressPause, Spinners,
    StageProgress, STATUS_COLUMN,
};

#[test]
fn format_duration_renders_minutes_and_seconds() {
    assert_eq!(format_duration(28), "28s");
    assert_eq!(format_duration(208), "3m 28s");
    assert_eq!(format_duration(0), "0s");
    assert_eq!(format_duration(60), "1m 0s");
    assert_eq!(format_duration(u64::MAX), "307445734561825860m 15s");
}

#[test]
fn status_line_aligns_status_column() {
    let line = status_line("      stop", "done");
    assert_eq!(&line[STATUS_COLUMN..], "done");
    let configure = status_line("      configure 1/2", "done");
    assert_eq!(&configure[STATUS_COLUMN..], "done");
    let accented = status_line("étape", "done");
    assert_eq!(&accented[STATUS_COLUMN..], "done");
}

#[test]
fn long_labels_keep_three_dots() {
    let label = "x".repeat(50);
    assert_eq!(status_line(&label, "done"), format!("{label} ... done"));
    assert_eq!(status_line(&label[..40], "d"), format!("{} ... d", &label[..40]));
    assert_eq!(status_line(&label[..39], "d"), format!("{} .... d", &label[..39]));
}

#[test]
fn in_progress_line_marks_the_stage_as_running() {
    let line = in_progress_line("[2/3] Build Firedancer");
    assert!(line.contains("[2/3] Build Firedancer"));
    assert!(line.ends_with("in progress"));
}

#[test]
fn live_frame_includes_elapsed_time_and_spinner() {
    let line = live_frame("[2/3] Build Firedancer", 12, 1);
    assert!(line.contains("[2/3] Build Firedancer"));
    assert!(line.ends_with("12s /"));
    let spinners: String = (0..5).map(|frame| live_frame("x", 0, frame).pop().unwrap()).collect();
    assert_eq!(spinners, "|/-\\|");
}

#[test]
fn live_progress_pause_is_reentrant() {
    let mut spinners = Spinners::new();
    let outer = LiveProgressPause::new(&mut spinners);
    let inner = LiveProgressPause::new(&mut spinners);
    assert!(!inner.release(&mut spinners));
    assert!(!outer.release(&mut spinners));
    assert_eq!(spinners, Spinners::new());
}

#[test]
fn only_the_outer_pause_parks_the_line() {
    let mut spinners = Spinners { live: 1, paused: 0 };
    let outer = LiveProgressPause::new(&mut spinners);
    assert!(outer.parks);
    let inner = LiveProgressPause::new(&mut spinners);
    assert!(!inner.parks);
    assert!(!inner.release(&mut spinners));
    assert!(outer.release(&mut spinners));
}

#[test]
fn terminal_stage_spins_until_it_finishes() {
    let mut spinners = Spinners::new();
    let (stage, written) = StageProgress::start(true, true, "build", &mut spinners);
    assert_eq!(written, format!("\r{}\x1b[K", live_frame("build", 0, 0)));
    assert_eq!(spinners.live, 1);
    assert_eq!(
        stage.frame(7, 1, &spinners),
        Some(format!("\r{}\x1b[K", live_frame("build", 7, 1)))
    );
    let pause = LiveProgressPause::new(&mut spinners);
    assert_eq!(stage.frame(8, 2, &spinners), None);
    pause.release(&mut spinners);
    assert_eq!(
        stage.finish("done", &mut spinners),
        format!("\r{}\x1b[K\n", status_line("build", "done"))
    );
    assert_eq!(spinners, Spinners::new());
}

#[test]
fn piped_stage_prints_whole_lines() {
    let mut spinners = Spinners::new();
    let (stage, written) = StageProgress::start(true, false, "build", &mut spinners);
    assert_eq!(written, format!("{}\n", in_progress_line("build")));
    assert_eq!(
        stage.finish("done", &mut spinners),
        format!("{}\n", status_line("build", "done"))
    );
    assert_eq!(spinners, Spinners::new());
}

#[test]
fn disabled_and_abandoned_stages_leave_little() {
    let mut spinners = Spinners::new();
    let (stage, written) = StageProgress::start(false, true, "build", &mut spinners);
    assert_eq!(written, "");
    assert_eq!(stage.finish("done", &mut spinners), "");
    let (stage, _) = StageProgress::start(true, true, "build", &mut spinners);
    assert_eq!(stage.abandon(&mut spinners), "\n");
    let (stage, _) = StageProgress::start(true, false, "build", &mut spinners);
    assert_eq!(stage.abandon(&mut spinners), "");
    assert_eq!(spinners, Spinners::new());
    let mut paused = Spinners { live: 0, paused: 1 };
    let (_, written) = StageProgress::start(true, true, "build", &mut paused);
    assert_eq!(written, "");
}
