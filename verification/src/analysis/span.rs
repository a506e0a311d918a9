//! Source locations that findings point at.
use vstd::prelude::*;
use vstd::string::StringExecFns;

verus! {

/// A position in a source file: the file's path, a line and a column (both from 1).
#[derive(Debug, Clone, PartialEq, Eq, Hash)]
pub struct DiagnosticSpan {
    pub file: String,
    pub line: usize,
    pub column: usize,
}

impl DiagnosticSpan {
    pub fn new(file: &str, line: usize, column: usize) -> (r: DiagnosticSpan)
        ensures
            r.file@ == file@,
            r.line == line,
            r.column == column,
    {
        DiagnosticSpan { file: String::from_str(file), line, column }
    }
}

} // verus!
