//! Invocation options: which provider to query, which task to run,
//! and the task-word classification that decides the run mode.
//! Parsing the command line into these values is the surrounding
//! program's work.
use vstd::prelude::*;

verus! {

use crate::text::str_eq;

/// The sensor providers and query backends an invocation can name.
#[derive(Clone, Copy, Debug, PartialEq, Eq, Structural)]
pub enum OptsApi {
    OHM,
    AIDA64,
    OS,
    OSMore,
    Drive,
    FileInfo,
    OSSystem,
    OSOffice,
    Disk,
    CoreTemp,
}

/// One invocation's options.
#[derive(Clone, Debug)]
pub struct Opts {
    /// The provider or backend to use.
    pub api: OptsApi,
    /// The task word.
    pub task: String,
    /// Whether to report full details.
    pub full: bool,
    /// Exclusion filters.
    pub filter: Vec<String>,
    /// Positional arguments of the task.
    pub args: Vec<String>,
    /// Trailing command values.
    pub command: Vec<String>,
}

impl Default for Opts {
    /// The defaults an empty invocation gets.
    fn default() -> (r: Opts)
        ensures
            r.api == OptsApi::OHM,
            r.task@ =~= Seq::<char>::empty(),
            !r.full,
            r.filter@ =~= Seq::<String>::empty(),
            r.args@ =~= Seq::<String>::empty(),
            r.command@ =~= Seq::<String>::empty(),
    {
        Opts {
            api: OptsApi::OHM,
            task: String::new(),
            full: false,
            filter: Vec::new(),
            args: Vec::new(),
            command: Vec::new(),
        }
    }
}

/// The run modes a task word selects.
#[derive(Clone, Copy, Debug, PartialEq, Eq, Structural)]
pub struct TaskModes {
    /// Readings are printed as they come.
    pub is_print: bool,
    /// Readings are checked against the tolerance band and the run
    /// can fail.
    pub is_check: bool,
    /// Only the final data value is wanted.
    pub is_data: bool,
}

/// Classifies the task word: exactly the words `print`, `check` and
/// `data` switch their modes on.
pub fn classify_task(task: &str) -> (r: TaskModes)
    ensures
        r.is_print == (task@ == "print"@),
        r.is_check == (task@ == "check"@),
        r.is_data == (task@ == "data"@),
{
    TaskModes {
        is_print: str_eq(task, "print"),
        is_check: str_eq(task, "check"),
        is_data: str_eq(task, "data"),
    }
}

} // verus!
