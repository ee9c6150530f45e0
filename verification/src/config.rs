//! What a search run is told on the command line.

use vstd::prelude::*;
use crate::search::{search, search_case_insensitive, search_results};

verus! {

/// What comes back where the query or the file name is missing.
pub const NOT_ENOUGH_ARGUMENTS: &'static str =
    "Not enough arguments, please specify: `query` and `filename`";

/// The settings of one search run.
pub struct Config {
    pub query: String,
    pub filename: String,
    pub case_sensitive: bool,
}

impl Config {
    /// Reads the settings from the program's arguments: `args[0]` is the program's own
    /// name, `args[1]` the query, `args[2]` the file to search; further arguments are
    /// ignored. `case_sensitive` is taken as given. With fewer than three arguments the
    /// result is `NOT_ENOUGH_ARGUMENTS`.
    pub fn new(args: &[String], case_sensitive: bool) -> (parsed: Result<Config, &'static str>)
        ensures
            parsed is Err <==> args@.len() < 3,
            parsed matches Err(message) ==> message@ == NOT_ENOUGH_ARGUMENTS@,
            parsed matches Ok(config) ==> {
                &&& config.query@ == args@[1]@
                &&& config.filename@ == args@[2]@
                &&& config.case_sensitive == case_sensitive
            },
    {
        if args.len() < 3 {
            return Err(NOT_ENOUGH_ARGUMENTS);
        }
        let query = args[1].clone();
        let filename = args[2].clone();
        Ok(Config { query, filename, case_sensitive })
    }
}

/// Runs the search that `config` asks for on the text of its file, which the caller
/// has read: the lines of `contents` that hold the query, with or without regard to
/// case as the settings say. The file name plays no part.
pub fn run<'a>(config: &Config, contents: &'a str) -> (results: Vec<&'a str>)
    ensures
        results.deep_view() == search_results(config.query@, contents@, config.case_sensitive),
{
    if config.case_sensitive {
        search(config.query.as_str(), contents)
    } else {
        search_case_insensitive(config.query.as_str(), contents)
    }
}

} // verus!
