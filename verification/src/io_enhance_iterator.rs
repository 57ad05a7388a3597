//! The search tool's configuration, read from arguments that are consumed
//! rather than copied.

use vstd::prelude::*;

verus! {

/// What to search for, in which file, and whether letter case counts.
pub struct Config {
    query: String,
    file_path: String,
    ignore_case: bool,
}

/// What a configuration holds.
pub struct ConfigView {
    pub query: Seq<char>,
    pub file_path: Seq<char>,
    pub ignore_case: bool,
}

impl View for Config {
    type V = ConfigView;

    closed spec fn view(&self) -> ConfigView {
        ConfigView {
            query: self.query@,
            file_path: self.file_path@,
            ignore_case: self.ignore_case,
        }
    }
}

impl Config {
    /// Reads the query and the file's path from a program's arguments, of
    /// which the first is the program's own name, and the word on letter
    /// case from the environment: `variable` is what the caller found under
    /// `IGNORE_CASE` there, if it found anything. Case is ignored where the
    /// variable is set, whatever it is set to. A missing query is reported
    /// before a missing path; arguments after the third are not looked at.
    pub fn build(args: Vec<String>, variable: Option<String>) -> (built: Result<
        Config,
        &'static str,
    >)
        ensures
            args@.len() < 2 ==> built is Err && built->Err_0@ == "Didn't get a query string"@,
            args@.len() == 2 ==> built is Err && built->Err_0@ == "Didn't get a file path"@,
            args@.len() >= 3 ==> built is Ok && built->Ok_0@ == (ConfigView {
                query: args@[1]@,
                file_path: args@[2]@,
                ignore_case: variable is Some,
            }),
    {
        let mut args = args;
        if args.len() < 2 {
            return Err("Didn't get a query string");
        }
        if args.len() < 3 {
            return Err("Didn't get a file path");
        }
        let file_path = args.remove(2);
        let query = args.remove(1);
        let ignore_case = variable.is_some();
        Ok(Config { query, file_path, ignore_case })
    }

    /// Whether letter case is ignored in the search.
    pub fn ignore_case(&self) -> (ignored: bool)
        ensures
            ignored == self@.ignore_case,
    {
        self.ignore_case
    }
}

} // verus!
