//! What the command line decides: the options of one invocation, the log
//! level that a verbosity gives, the argument vectors of the two cargo calls,
//! and the process's exit status.

use crate::unique::texts;
use vstd::prelude::*;
use vstd::string::StringExecFns;

verus! {

/// Success.
pub const EX_OK: i32 = 0;
/// The command line was wrong.
pub const EX_USAGE: i32 = 64;
/// A cache file or directory could not be read or written.
pub const EX_OSFILE: i32 = 72;
/// The child's exit status could not be known.
pub const EX_TEMPFAIL: i32 = 75;

/// Options received from the command line: the script to run and its arguments.
pub struct Options {
    /// The verbosity of the log: the number of `-v` flags, or minus the number
    /// of `-q` flags.
    pub verbosity: isize,
    /// Path to the script to run.
    pub script: String,
    /// Arguments handed to the script.
    pub args: Vec<String>,
}

impl Options {
    /// Options from the counts of the verbosity flags, the script path and the
    /// script's arguments.
    pub fn new(verbose_count: u64, quiet_count: u64, script: String, args: Vec<String>) -> (r: Options)
        requires
            verbose_count <= isize::MAX,
            quiet_count <= isize::MAX,
        ensures
            r.verbosity == verbose_count - quiet_count,
            r.script == script,
            r.args == args,
    {
        let verbosity = verbose_count as isize - quiet_count as isize;
        Options { verbosity, script, args }
    }
}

/// How the script is built.
#[derive(Debug, Clone, Copy, PartialEq, Eq, Structural)]
pub enum BuildMode {
    /// Without optimizations.
    Debug,
    /// With optimizations: cargo's `--release`.
    Release,
}

impl Default for BuildMode {
    fn default() -> (r: BuildMode)
        ensures
            r == BuildMode::Debug,
    {
        BuildMode::Debug
    }
}

/// Severity of a log message, least verbose first.
#[derive(Debug, Clone, Copy, PartialEq, Eq, Structural)]
pub enum LogLevel {
    Critical,
    Error,
    Warning,
    Info,
    Debug,
    Trace,
}

/// The log filter that a verbosity gives.
#[derive(Debug, Clone, Copy, PartialEq, Eq, Structural)]
pub struct LogFilter {
    /// The least severe level that is shown; `None` shows nothing.
    pub level: Option<LogLevel>,
    /// The verbosity was past either end of the scale and was clamped.
    pub excessive: bool,
}

/// The log level for a verbosity: `Info` at 0, one level more for each `-v`
/// up to `Trace`, one level less for each `-q` down to no logging at all.
pub open spec fn level_for(verbosity: int) -> Option<LogLevel> {
    if verbosity <= -4 {
        None
    } else if verbosity == -3 {
        Some(LogLevel::Critical)
    } else if verbosity == -2 {
        Some(LogLevel::Error)
    } else if verbosity == -1 {
        Some(LogLevel::Warning)
    } else if verbosity == 0 {
        Some(LogLevel::Info)
    } else if verbosity == 1 {
        Some(LogLevel::Debug)
    } else {
        Some(LogLevel::Trace)
    }
}

pub fn log_filter(verbosity: isize) -> (r: LogFilter)
    ensures
        r.level == level_for(verbosity as int),
        r.excessive == (verbosity > 2 || verbosity < -4),
{
    let level = if verbosity <= -4 {
        None
    } else if verbosity == -3 {
        Some(LogLevel::Critical)
    } else if verbosity == -2 {
        Some(LogLevel::Error)
    } else if verbosity == -1 {
        Some(LogLevel::Warning)
    } else if verbosity == 0 {
        Some(LogLevel::Info)
    } else if verbosity == 1 {
        Some(LogLevel::Debug)
    } else {
        Some(LogLevel::Trace)
    };
    LogFilter { level, excessive: verbosity > 2 || verbosity < -4 }
}

/// The arguments of `cargo run` in a unit's directory.
pub open spec fn run_args_of(args: Seq<Seq<char>>, mode: BuildMode) -> Seq<Seq<char>> {
    let base = seq!["run"@, "--quiet"@];
    let with_mode = if mode == BuildMode::Release {
        base.push("--release"@)
    } else {
        base
    };
    if args.len() == 0 {
        with_mode
    } else {
        with_mode.push("--"@) + args
    }
}

pub fn run_args(args: &Vec<String>, mode: BuildMode) -> (r: Vec<String>)
    ensures
        texts(r@) == run_args_of(texts(args@), mode),
{
    let mut out: Vec<String> = Vec::new();
    out.push(String::from_str("run"));
    out.push(String::from_str("--quiet"));
    if mode == BuildMode::Release {
        out.push(String::from_str("--release"));
    }
    let ghost head = texts(out@);
    if args.len() > 0 {
        out.push(String::from_str("--"));
        let ghost with_sep = texts(out@);
        let mut i: usize = 0;
        while i < args.len()
            invariant
                i <= args@.len(),
                texts(out@) == with_sep + texts(args@).take(i as int),
            decreases args@.len() - i,
        {
            let ghost before = out@;
            out.push(args[i].clone());
            assert(texts(out@) =~= texts(before).push(args@[i as int]@));
            assert(texts(args@).take(i as int + 1) =~= texts(args@).take(i as int).push(args@[i as int]@));
            i += 1;
        }
        assert(texts(args@).take(args@.len() as int) =~= texts(args@));
    }
    assert(texts(out@) =~= run_args_of(texts(args@), mode));
    out
}

/// The arguments of `cargo new` that scaffold a unit in the directory
/// `unit_dir`, under the package name `package`.
pub open spec fn scaffold_args_of(package: Seq<char>, unit_dir: Seq<char>) -> Seq<Seq<char>> {
    seq!["new"@, "--bin"@, "--vcs"@, "none"@, "--name"@, package, "--color"@, "always"@, unit_dir]
}

pub fn scaffold_args(package: &String, unit_dir: &String) -> (r: Vec<String>)
    ensures
        texts(r@) == scaffold_args_of(package@, unit_dir@),
{
    let mut out: Vec<String> = Vec::new();
    out.push(String::from_str("new"));
    out.push(String::from_str("--bin"));
    out.push(String::from_str("--vcs"));
    out.push(String::from_str("none"));
    out.push(String::from_str("--name"));
    out.push(package.clone());
    out.push(String::from_str("--color"));
    out.push(String::from_str("always"));
    out.push(unit_dir.clone());
    assert(texts(out@) =~= scaffold_args_of(package@, unit_dir@));
    out
}

/// The exit status of this process once the child has ended: the child's own,
/// or `EX_TEMPFAIL` where it has none.
pub fn child_exit_code(code: Option<i32>) -> (r: i32)
    ensures
        r == match code {
            Some(c) => c,
            None => EX_TEMPFAIL,
        },
{
    match code {
        Some(c) => c,
        None => EX_TEMPFAIL,
    }
}

} // verus!
