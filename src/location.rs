//! Where a log call was made.

use vstd::prelude::*;

verus! {

/// The call site of a log call: source file, fully qualified function path
/// and 1-based line number, as the caller resolved them.
#[derive(Clone, Debug, PartialEq, Eq)]
pub struct LogLocation {
    pub file_path: String,
    pub func_path: String,
    pub lineno: u32,
}

impl LogLocation {
    /// A call site from its three parts.
    pub fn new(file_path: &str, func_path: &str, lineno: u32) -> (r: LogLocation)
        ensures
            r.file_path@ == file_path@,
            r.func_path@ == func_path@,
            r.lineno == lineno,
    {
        LogLocation {
            file_path: String::from_str(file_path),
            func_path: String::from_str(func_path),
            lineno,
        }
    }
}

} // verus!
