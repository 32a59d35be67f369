use val::logging::{
    default_filter, terminal_event_enabled, FileStep, Level, SecureRotatingFile, LOG_BACKUPS,
    LOG_MODE, MAX_LOG_BYTES,
};
use val::process::COMMAND_OUTPUT_TARGET;

/// Files by their paths. A file that is written to is opened with the log's permissions.
struct Files {
    files: Vec<(String, String)>,
    modes: Vec<(String, u32)>,
}

impl Files {
    fn read(&self, path: &str) -> Option<&str> {
        self.files.iter().find(|(known, _)| known == path).map(|(_, text)| text.as_str())
    }

    fn remove(&mut self, path: &str) -> Option<String> {
        let at = self.files.iter().position(|(known, _)| known == path)?;
        Some(self.files.remove(at).1)
    }

    fn apply(&mut self, steps: Vec<FileStep>) {
        for step in steps {
            match step {
                FileStep::Remove(path) => {
                    self.remove(&path);
                }
                FileStep::Rename(from, to) => {
                    if let Some(text) = self.remove(&from) {
                        self.remove(&to);
                        self.files.push((to, text));
                    }
                }
            }
        }
    }

    fn write(&mut self, log: &mut SecureRotatingFile, text: &str) {
        if log.must_rotate(text.len() as u64) {
            let steps = log.rotate();
            self.apply(steps);
        }
        let path = log.path.clone();
        let written = self.remove(&path).unwrap_or_default() + text;
        self.files.push((path.clone(), written));
        self.modes.push((path, LOG_MODE));
        log.wrote(text.len() as u64);
    }
}

#[test]
fn rotates_at_size_limit_and_secures_permissions() {
    let mut files = Files { files: vec![], modes: vec![] };
    let mut log = SecureRotatingFile::new("/logs/val.log", 0, 8, 2);
    files.write(&mut log, "12345678");
    files.write(&mut log, "next");
    assert_eq!(files.read("/logs/val.log"), Some("next"));
    assert_eq!(files.read("/logs/val.log.1"), Some("12345678"));
    assert!(files.modes.iter().all(|(_, mode)| mode & 0o777 == 0o600));
    assert_eq!(files.modes.last().map(|(path, _)| path.as_str()), Some("/logs/val.log"));
}

#[test]
fn compact_terminal_hides_info_and_command_output() {
    assert!(!terminal_event_enabled("val::repository", Level::Info, true));
    assert!(terminal_event_enabled("val::repository", Level::Warn, true));
    assert!(terminal_event_enabled("val::repository", Level::Error, true));
    assert!(!terminal_event_enabled(COMMAND_OUTPUT_TARGET, Level::Info, true));
    assert!(terminal_event_enabled("val::repository", Level::Info, false));
    assert!(!terminal_event_enabled(COMMAND_OUTPUT_TARGET, Level::Info, false));
}

#[test]
fn command_output_never_reaches_the_terminal() {
    for level in [Level::Error, Level::Warn, Level::Info, Level::Debug, Level::Trace] {
        assert!(!terminal_event_enabled("val::command_output", level, true));
        assert!(!terminal_event_enabled("val::command_output", level, false));
        assert!(terminal_event_enabled("val", level, false));
    }
    assert!(!terminal_event_enabled("val", Level::Debug, true));
    assert!(!terminal_event_enabled("val", Level::Trace, true));
}

#[test]
fn verbosity_selects_the_filter() {
    assert_eq!(default_filter(0), "info");
    assert_eq!(default_filter(1), "debug");
    assert_eq!(default_filter(2), "trace");
    assert_eq!(default_filter(255), "trace");
}

#[test]
fn rotation_moves_every_backup_one_further() {
    let mut log = SecureRotatingFile::new("/l/val.log", 9, 9, 3);
    assert!(log.is_full());
    let steps = log.rotate();
    let path = |index: usize| format!("/l/val.log.{index}");
    assert_eq!(
        steps,
        [
            FileStep::Remove(path(3)),
            FileStep::Rename(path(2), path(3)),
            FileStep::Rename(path(1), path(2)),
            FileStep::Rename("/l/val.log".to_owned(), path(1)),
        ]
    );
    assert_eq!(log.bytes, 0);
    let mut files = Files {
        files: ["/l/val.log", "/l/val.log.1", "/l/val.log.2", "/l/val.log.3", "/l/other"]
            .iter()
            .map(|path| ((*path).to_owned(), (*path).to_owned()))
            .collect(),
        modes: vec![],
    };
    files.apply(steps);
    assert_eq!(files.read("/l/val.log"), None);
    assert_eq!(files.read("/l/val.log.1"), Some("/l/val.log"));
    assert_eq!(files.read("/l/val.log.2"), Some("/l/val.log.1"));
    assert_eq!(files.read("/l/val.log.3"), Some("/l/val.log.2"));
    assert_eq!(files.read("/l/other"), Some("/l/other"));
    assert_eq!(files.files.len(), 4);
}

#[test]
fn log_without_backups_is_removed() {
    let mut log = SecureRotatingFile::new("/l/val.log", 1, 1, 0);
    assert_eq!(log.rotate(), [FileStep::Remove("/l/val.log".to_owned())]);
}

#[test]
fn log_stays_within_its_limit() {
    let mut log = SecureRotatingFile::new("/l/val.log", 0, 8, 2);
    assert!(!log.must_rotate(100));
    log.wrote(100);
    assert_eq!(log.bytes, 100);
    assert!(log.must_rotate(1));
    log.rotate();
    log.wrote(8);
    assert!(!log.must_rotate(0));
    assert!(log.must_rotate(u64::MAX));
    assert_eq!(MAX_LOG_BYTES, 25 * 1024 * 1024);
    assert_eq!(LOG_BACKUPS, 5);
    assert_eq!(log.backup_path(12), "/l/val.log.12");
}
