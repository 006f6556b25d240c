use runrs::cli::{
    child_exit_code, log_filter, run_args, scaffold_args, BuildMode, LogFilter, LogLevel, Options,
    EX_TEMPFAIL,
};
use runrs::error::CacheError;

fn strings(v: &[&str]) -> Vec<String> {
    v.iter().map(|s| s.to_string()).collect()
}

#[test]
fn verbosity_is_verbose_minus_quiet() {
    let o = Options::new(2, 0, "s.rs".to_string(), strings(&["a"]));
    assert_eq!(o.verbosity, 2);
    assert_eq!(o.script, "s.rs");
    assert_eq!(o.args, strings(&["a"]));
    assert_eq!(Options::new(0, 3, "s.rs".to_string(), vec![]).verbosity, -3);
}

#[test]
fn log_levels_by_verbosity() {
    assert_eq!(log_filter(0), LogFilter { level: Some(LogLevel::Info), excessive: false });
    assert_eq!(log_filter(1).level, Some(LogLevel::Debug));
    assert_eq!(log_filter(2), LogFilter { level: Some(LogLevel::Trace), excessive: false });
    assert_eq!(log_filter(3), LogFilter { level: Some(LogLevel::Trace), excessive: true });
    assert_eq!(log_filter(-1).level, Some(LogLevel::Warning));
    assert_eq!(log_filter(-2).level, Some(LogLevel::Error));
    assert_eq!(log_filter(-3).level, Some(LogLevel::Critical));
    assert_eq!(log_filter(-4), LogFilter { level: None, excessive: false });
    assert_eq!(log_filter(-5), LogFilter { level: None, excessive: true });
    assert_eq!(log_filter(isize::MIN), LogFilter { level: None, excessive: true });
    assert_eq!(log_filter(isize::MAX), LogFilter { level: Some(LogLevel::Trace), excessive: true });
}

#[test]
fn run_arguments() {
    assert_eq!(run_args(&vec![], BuildMode::Debug), strings(&["run", "--quiet"]));
    assert_eq!(
        run_args(&strings(&["-x", "y"]), BuildMode::Release),
        strings(&["run", "--quiet", "--release", "--", "-x", "y"])
    );
    assert_eq!(run_args(&strings(&["1"]), BuildMode::Debug), strings(&["run", "--quiet", "--", "1"]));
}

#[test]
fn scaffold_arguments() {
    assert_eq!(
        scaffold_args(&"hello-abc".to_string(), &"abc".to_string()),
        strings(&["new", "--bin", "--vcs", "none", "--name", "hello-abc", "--color", "always", "abc"])
    );
}

#[test]
fn exit_codes() {
    assert_eq!(child_exit_code(Some(0)), 0);
    assert_eq!(child_exit_code(Some(42)), 42);
    assert_eq!(child_exit_code(None), EX_TEMPFAIL);
    assert_eq!(EX_TEMPFAIL, 75);
    assert_eq!(CacheError::Io.exit_code(), 72);
    assert_eq!(CacheError::ManifestCorruption.exit_code(), 72);
    assert_eq!(CacheError::Subprocess.exit_code(), 2);
}

#[test]
fn build_mode_defaults_to_debug() {
    assert_eq!(BuildMode::default(), BuildMode::Debug);
}
