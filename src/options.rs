//! The configuration a session is started with.

use vstd::prelude::*;

verus! {

/// Editor command, checker command, target file and the checker's success code.
pub struct Options {
    pub editor: String,
    pub checker: String,
    pub filename: String,
    pub exit_success: i32,
}

impl Default for Options {
    /// Editor "vim", no checker or file yet, and success code 0.
    fn default() -> (r: Options)
        ensures
            r.editor@ == "vim"@,
            r.checker@ == ""@,
            r.filename@ == ""@,
            r.exit_success == 0,
    {
        Options {
            editor: String::from_str("vim"),
            checker: String::from_str(""),
            filename: String::from_str(""),
            exit_success: 0,
        }
    }
}

} // verus!
