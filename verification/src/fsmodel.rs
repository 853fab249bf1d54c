//! A value-level picture of the parts of the filesystem that command
//! resolution consults.
//!
//! Resolution is a pure function of what exists on disk and of the process
//! search path. Callers outside the crate probe the candidate locations and
//! hand the observations in as an `FsSnapshot`; every decision made over the
//! snapshot is verified.

use vstd::prelude::*;
use crate::text::{seq_contains_str, vec_contains_str};

verus! {

/// What resolution saw of the machine: the regular files and directories
/// known to exist, the process search path, and the platform-specific
/// supplemental search directories probed after the search path fails.
pub struct FsSnapshot {
    /// Paths of existing regular files.
    pub files: Vec<String>,
    /// Paths of existing directories.
    pub dirs: Vec<String>,
    /// The process search path, one directory per entry, in order.
    pub path_dirs: Vec<String>,
    /// Supplemental directories probed after `path_dirs`, in order.
    pub extra_path_dirs: Vec<String>,
}

impl FsSnapshot {
    /// Whether `p` is an existing regular file in this snapshot.
    pub open spec fn has_file(self, p: Seq<char>) -> bool {
        seq_contains_str(self.files@, p)
    }

    /// Whether `p` is an existing directory in this snapshot.
    pub open spec fn has_dir(self, p: Seq<char>) -> bool {
        seq_contains_str(self.dirs@, p)
    }

    /// The full ordered list of directories system lookup walks: the search
    /// path first, then the platform supplemental entries.
    pub open spec fn search_dirs(self) -> Seq<String> {
        self.path_dirs@ + self.extra_path_dirs@
    }

    /// Tests whether `p` is an existing regular file.
    pub fn is_file(&self, p: &str) -> (r: bool)
        ensures
            r == self.has_file(p@),
    {
        vec_contains_str(&self.files, p)
    }

    /// Tests whether `p` is an existing directory.
    pub fn is_dir(&self, p: &str) -> (r: bool)
        ensures
            r == self.has_dir(p@),
    {
        vec_contains_str(&self.dirs, p)
    }
}

} // verus!
