//! The module that fetches the public domains of bug hunting programmes.

use crate::module::{BahamutModule, ExecutionError};
use vstd::prelude::*;

verus! {

/// Downloads public bug hunting domains.
#[derive(Debug, Clone, Copy, PartialEq, Eq)]
pub struct DomainFetcher;

impl DomainFetcher {
    /// The line that tells the user which target the fetcher is working on.
    pub open spec fn spec_progress_line(target: Seq<char>) -> Seq<char> {
        "Fetching domains for target: "@ + target
    }

    /// The line that tells the user which target the fetcher is working on.
    pub fn progress_line(target: &str) -> (line: String)
        ensures
            line@ == Self::spec_progress_line(target@),
    {
        let mut line = "Fetching domains for target: ".to_owned();
        line.append(target);
        line
    }
}

impl BahamutModule for DomainFetcher {
    open spec fn stated_name(&self) -> Option<Seq<char>> {
        Some("Domain Fetcher"@)
    }

    open spec fn stated_description(&self) -> Option<Seq<char>> {
        Some("Downloads public bug hunting domains"@)
    }

    /// The fetcher accepts every target.
    open spec fn foreseen(&self, target: Seq<char>) -> Option<Result<(), Seq<char>>> {
        Some(Ok(()))
    }

    fn name(&self) -> (name: &str) {
        proof {
            reveal_strlit("Domain Fetcher");
        }
        "Domain Fetcher"
    }

    fn description(&self) -> (description: &str) {
        "Downloads public bug hunting domains"
    }

    fn execute(&self, target: &str) -> (result: Result<(), ExecutionError>) {
        Ok(())
    }
}

} // verus!
