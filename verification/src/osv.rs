//! The export command that writes every advisory out in the OSV interchange
//! format. The exporter itself is an external collaborator; this module holds
//! the command's own decisions: which database to read and where to write.

use vstd::prelude::*;

verus! {

/// Exports all advisories of a database to OSV files, one per advisory.
#[derive(Debug, Default)]
pub struct OsvCmd {
    /// Filesystem path to the advisory database repository; a default remote
    /// source is used when absent.
    pub repo_path: Option<String>,
    /// Directory the OSV files are written to; the current directory when
    /// absent.
    pub path: Option<String>,
}

impl OsvCmd {
    /// The directory OSV files are written to: the configured path, or the
    /// current directory when none was given.
    pub fn output_dir(&self) -> (r: String)
        ensures
            r@ == match self.path {
                Some(p) => p@,
                None => "."@,
            },
    {
        match &self.path {
            Some(p) => p.clone(),
            None => ".".to_owned(),
        }
    }
}

} // verus!
