//! What the command line asks for: one search whose results are printed, or
//! the interactive browser.

use crate::crates_io::{CratesSort, SearchRequest, SearchRequestView};
use vstd::prelude::*;

verus! {

/// The number of results that a search from the command line prints unless
/// told otherwise.
pub const DEFAULT_COUNT: usize = 5;

/// The arguments of the program.
#[derive(Clone, Debug, PartialEq, Eq)]
pub struct AppArgs {
    /// The term to search for without opening the browser.
    pub find: Option<String>,
    /// The order of the results.
    pub sort: CratesSort,
    /// The number of results to print.
    pub count: usize,
}

/// One search from the command line: the request, and how many results it
/// asks for.
#[derive(Clone, Debug, PartialEq, Eq)]
pub struct CliSearch {
    pub request: SearchRequest,
    pub count: u32,
}

/// What the program is to do.
#[derive(Clone, Debug, PartialEq, Eq)]
pub enum Command {
    /// Print the results of one search and leave.
    Find(CliSearch),
    /// Open the browser.
    Interactive,
}

impl Default for AppArgs {
    /// The arguments of a call without flags: no term, results by relevance,
    /// five of them.
    fn default() -> (args: AppArgs)
        ensures
            args.find is None,
            args.sort == CratesSort::Relevance,
            args.count == DEFAULT_COUNT,
    {
        AppArgs { find: None, sort: CratesSort::Relevance, count: DEFAULT_COUNT }
    }
}

impl AppArgs {
    /// What these arguments ask for: a term to find bypasses the browser,
    /// and the search for it takes the sort order and the count along.
    pub fn command(self) -> (command: Command)
        ensures
            match self.find {
                Some(term) => command matches Command::Find(search) && search.request@
                    == cli_request_spec(term@, self.sort) && search.count == self.count as u32,
                None => command is Interactive,
            },
    {
        match self.find {
            Some(term) => Command::Find(cli_search(term.as_str(), self.sort, self.count)),
            None => Command::Interactive,
        }
    }
}

/// The request of a search from the command line: the term, the first page,
/// the chosen sort order.
pub open spec fn cli_request_spec(term: Seq<char>, sort: CratesSort) -> SearchRequestView {
    SearchRequestView { query: term, page: 1, sort }
}

/// The search that the command line asks for: `term` on the first page in
/// the order `sort`, with `count` results, the count cut to the width of the
/// registry's page size.
pub fn cli_search(term: &str, sort: CratesSort, count: usize) -> (search: CliSearch)
    ensures
        search.request@ == cli_request_spec(term@, sort),
        search.count == count as u32,
        count <= u32::MAX ==> search.count == count,
{
    CliSearch {
        request: SearchRequest { query: term.to_owned(), page: 1, sort },
        count: #[verifier::truncate]
        (count as u32),
    }
}

/// The quotient `a / b`, rounded up.
pub fn ceil_div(a: u32, b: u32) -> (q: u32)
    requires
        b != 0,
    ensures
        q as int == (a as int + b as int - 1) / (b as int),
{
    let wide: u64 = (a as u64 + b as u64 - 1) / (b as u64);
    assert((a as int + b as int - 1) / (b as int) <= a as int) by (nonlinear_arith)
        requires
            b >= 1,
            a >= 0,
    ;
    wide as u32
}

} // verus!
