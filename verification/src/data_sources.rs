//! Origins that transaction events are read from.
//!
//! Reading itself is input plumbing and lives outside the verified
//! library; the configuration a reader needs is plain data and is kept
//! here.

use vstd::prelude::*;

verus! {

/// The location of a CSV file of transaction events, one record per event.
pub struct CsvDataSource {
    path: String,
}

impl CsvDataSource {
    /// The path the source was built with, as specifications see it.
    pub closed spec fn spec_path(&self) -> Seq<char> {
        self.path@
    }

    /// Remembers the path of the file to read events from.
    pub fn new(path: String) -> (r: CsvDataSource)
        ensures
            r.spec_path() == path@,
    {
        CsvDataSource { path }
    }

    /// The path the source was built with.
    pub fn path(&self) -> (r: &String)
        ensures
            r@ == self.spec_path(),
    {
        &self.path
    }
}

} // verus!
