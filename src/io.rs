//! The data directory that templates may read, write and remove files in.
use vstd::prelude::*;
use vstd::string::*;
use crate::paths::{join_path, strip_root, path_below};

verus! {

/// Files below one directory.
pub struct IO {
    pub dir: String,
}

/// The message given when the data path is not a directory.
pub open spec fn not_a_data_dir(dir: Seq<char>) -> Seq<char> {
    "Data must be a directory: "@ + dir
}

impl IO {
    /// Opens the data directory `dir`; `is_dir` says whether that path is a directory.
    pub fn new(dir: String, is_dir: bool) -> (r: Result<IO, String>)
        ensures
            is_dir ==> (r matches Ok(io) && io.dir == dir),
            !is_dir ==> (r matches Err(m) && m@ == not_a_data_dir(dir@)),
    {
        if is_dir {
            Ok(IO { dir })
        } else {
            Err(String::from_str("Data must be a directory: ").concat(dir.as_str()))
        }
    }

    /// The file that `path` names in the data directory; a leading slash still means
    /// a path below the directory.
    pub fn get_path(&self, path: &str) -> (r: Option<String>)
        ensures
            r matches Some(p) && p@ == join_path(self.dir@, strip_root(path@)),
    {
        Some(path_below(self.dir.as_str(), path))
    }
}

} // verus!
