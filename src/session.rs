//! The steps of one run, in their order: find the test, create the log,
//! start the toolchain. A step is taken only after the one before it
//! succeeded.

use vstd::prelude::*;
use vstd::string::*;
use crate::naming::{normalize_test_name, normalized, toolchain_args, toolchain_args_of};

verus! {

/// Where the output goes when no log path is given.
pub open spec fn default_log_path() -> Seq<char> {
    "/tmp/test.log"@
}

/// Why a run stopped before the test toolchain could report.
pub enum RunError {
    /// No test file declares the test.
    NotFound { name: String },
    /// The log file could not be created.
    LogFile { path: String },
    /// The toolchain could not be started.
    Spawn,
}

pub open spec fn not_found_message(name: Seq<char>) -> Seq<char> {
    "test not found: "@ + name
}

pub open spec fn log_file_message(path: Seq<char>) -> Seq<char> {
    "cannot create log file: "@ + path
}

pub open spec fn spawn_message() -> Seq<char> {
    "attempted to exec 'go test'"@
}

impl RunError {
    pub open spec fn message_of(&self) -> Seq<char> {
        match self {
            RunError::NotFound { name } => not_found_message(name@),
            RunError::LogFile { path } => log_file_message(path@),
            RunError::Spawn => spawn_message(),
        }
    }

    /// The text shown to the user.
    pub fn message(&self) -> (r: String)
        ensures
            r@ == self.message_of(),
    {
        match self {
            RunError::NotFound { name } => {
                let mut r = String::from_str("test not found: ");
                r.append(name.as_str());
                r
            },
            RunError::LogFile { path } => {
                let mut r = String::from_str("cannot create log file: ");
                r.append(path.as_str());
                r
            },
            RunError::Spawn => String::from_str("attempted to exec 'go test'"),
        }
    }
}

#[derive(Clone, Copy, Debug, PartialEq, Eq, Structural)]
pub enum Stage {
    /// Searching the tree for the test file.
    Locating,
    /// The test file was found; the log file is to be created.
    CreatingLog,
    /// The log file exists; the toolchain may be started.
    Starting,
    /// The toolchain runs; its output is being copied.
    Running,
    /// The run stopped on an error.
    Failed,
}

/// One run of one test.
pub struct Session {
    /// The normalized test name.
    pub name: String,
    pub log_path: String,
    /// The arguments of `go`.
    pub args: Vec<String>,
    pub stage: Stage,
}

pub open spec fn opt_view(o: Option<&str>) -> Option<Seq<char>> {
    match o {
        Some(s) => Some(s@),
        None => None,
    }
}

impl Session {
    /// Plans the run of test `raw_name` (with or without its `Test`
    /// prefix), logging to `log_path` or to the default path, repeated
    /// `count` times when given.
    pub fn new(raw_name: &str, log_path: Option<&str>, count: Option<&str>) -> (r: Session)
        ensures
            r.name@ == normalized(raw_name@),
            r.log_path@ == (match log_path {
                Some(l) => l@,
                None => default_log_path(),
            }),
            r.args@.map_values(|a: String| a@) == toolchain_args_of(
                normalized(raw_name@),
                opt_view(count),
            ),
            r.stage == Stage::Locating,
    {
        let name = normalize_test_name(raw_name);
        let log_path = match log_path {
            Some(l) => l.to_owned(),
            None => String::from_str("/tmp/test.log"),
        };
        let args = toolchain_args(name.as_str(), count);
        Session { name, log_path, args, stage: Stage::Locating }
    }

    /// Takes the outcome of the search. Without a test file the run fails
    /// here, and nothing is created or started.
    pub fn on_located(&mut self, found: bool) -> (r: Result<(), RunError>)
        requires
            old(self).stage == Stage::Locating,
        ensures
            final(self).name == old(self).name,
            final(self).log_path == old(self).log_path,
            final(self).args == old(self).args,
            found ==> r is Ok && final(self).stage == Stage::CreatingLog,
            !found ==> final(self).stage == Stage::Failed && match r {
                Err(RunError::NotFound { name }) => name@ == old(self).name@,
                _ => false,
            },
    {
        if found {
            self.stage = Stage::CreatingLog;
            Ok(())
        } else {
            self.stage = Stage::Failed;
            Err(RunError::NotFound { name: self.name.clone() })
        }
    }

    /// Takes the outcome of creating the log file. When it could not be
    /// created the run fails here, before the toolchain is started.
    pub fn on_log_created(&mut self, created: bool) -> (r: Result<(), RunError>)
        requires
            old(self).stage == Stage::CreatingLog,
        ensures
            final(self).name == old(self).name,
            final(self).log_path == old(self).log_path,
            final(self).args == old(self).args,
            created ==> r is Ok && final(self).stage == Stage::Starting,
            !created ==> final(self).stage == Stage::Failed && match r {
                Err(RunError::LogFile { path }) => path@ == old(self).log_path@,
                _ => false,
            },
    {
        if created {
            self.stage = Stage::Starting;
            Ok(())
        } else {
            self.stage = Stage::Failed;
            Err(RunError::LogFile { path: self.log_path.clone() })
        }
    }

    /// Takes the outcome of starting the toolchain.
    pub fn on_started(&mut self, started: bool) -> (r: Result<(), RunError>)
        requires
            old(self).stage == Stage::Starting,
        ensures
            final(self).name == old(self).name,
            final(self).log_path == old(self).log_path,
            final(self).args == old(self).args,
            started ==> r is Ok && final(self).stage == Stage::Running,
            !started ==> final(self).stage == Stage::Failed && r matches Err(RunError::Spawn),
    {
        if started {
            self.stage = Stage::Running;
            Ok(())
        } else {
            self.stage = Stage::Failed;
            Err(RunError::Spawn)
        }
    }

    /// Whether the toolchain may be started now: only once the test file
    /// was found and the log file created.
    pub fn may_start(&self) -> (r: bool)
        ensures
            r == (self.stage == Stage::Starting),
    {
        self.stage == Stage::Starting
    }
}

} // verus!
