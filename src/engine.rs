//! Analysis and rewriting of SQL against a manifest. The planning engine
//! itself is an outside collaborator; these entry points report that it is
//! not implemented yet.
use vstd::prelude::*;

use crate::error::Error;
use crate::manifest::Manifest;

verus! {

/// Rewrites semantic SQL into SQL for the data source.
pub struct Rewriter;

impl Rewriter {
    pub fn new() -> (r: Self) {
        Rewriter
    }

    /// Plans `sql` against `manifest`; without a planning engine every
    /// request fails with a planning error.
    pub fn rewrite(&self, _manifest: &Manifest, _sql: &str) -> (r: Result<String, Error>)
        ensures
            r matches Err(Error::Planning(m)) && m@ == "Not implemented yet"@,
    {
        proof {
            reveal_strlit("Not implemented yet");
        }
        Err(Error::Planning(String::from_str("Not implemented yet")))
    }
}

impl Default for Rewriter {
    fn default() -> (r: Self) {
        Rewriter::new()
    }
}

/// Analyses a manifest.
pub struct Analyzer;

/// The analysed form of a manifest.
pub struct AnalyzedMDL {}

impl Analyzer {
    /// Analyses `manifest`; without an analysis engine every request fails
    /// with a manifest error.
    pub fn analyze(&self, _manifest: &Manifest) -> (r: Result<AnalyzedMDL, Error>)
        ensures
            r matches Err(Error::Mdl(m)) && m@ == "Not implemented yet"@,
    {
        proof {
            reveal_strlit("Not implemented yet");
        }
        Err(Error::Mdl(String::from_str("Not implemented yet")))
    }
}

} // verus!
