//! The static files served below one directory.
use vstd::prelude::*;
use vstd::string::*;
use glob_match::glob_match;

verus! {

/// Whether `path` matches the glob pattern `glob`.
pub uninterp spec fn glob_matches(glob: Seq<char>, path: Seq<char>) -> bool;

/// Relies on `glob_match::glob_match`: whether the path matches the pattern, from the
/// two texts alone.
#[verifier::external_body]
fn matches_glob(glob: &str, path: &str) -> (r: bool)
    ensures
        r == glob_matches(glob@, path@),
{
    glob_match(glob, path)
}

/// A part of the path that starts at `i` is a hidden name: a dot followed by more.
pub open spec fn hidden_at(p: Seq<char>, i: int) -> bool {
    &&& 0 <= i
    &&& i + 1 < p.len()
    &&& p[i] == '.'
    &&& (i == 0 || p[i - 1] == '/')
    &&& p[i + 1] != '/'
}

/// Some part of the path is a hidden name (`.env`, `..`); a lone `.` is not one.
pub open spec fn has_hidden_part(p: Seq<char>) -> bool {
    exists|i: int| hidden_at(p, i)
}

/// Some pattern of `ignore` matches `path`.
pub open spec fn ignored(ignore: Seq<String>, path: Seq<char>) -> bool {
    exists|i: int| 0 <= i < ignore.len() && glob_matches((#[trigger] ignore[i])@, path)
}

/// The message given when the assets path is not a directory.
pub open spec fn not_an_assets_dir(dir: Seq<char>) -> Seq<char> {
    "assets is not a dir: "@ + dir
}

/// A directory of static files, with the patterns of the paths it hides.
pub struct Assets {
    pub all: bool,
    pub ignore: Vec<String>,
    pub dir: String,
}

impl Assets {
    /// Serves the files of `dir`, hidden ones too where `all` holds, but none that
    /// a pattern of `ignore` matches; `is_dir` says whether that path is a directory.
    pub fn new(dir: String, all: bool, ignore: Vec<String>, is_dir: bool) -> (r: Result<Assets, String>)
        ensures
            is_dir ==> (r matches Ok(a) && a.dir == dir && a.all == all && a.ignore == ignore),
            !is_dir ==> (r matches Err(m) && m@ == not_an_assets_dir(dir@)),
    {
        if is_dir {
            Ok(Assets { dir, all, ignore })
        } else {
            Err(String::from_str("assets is not a dir: ").concat(dir.as_str()))
        }
    }

    /// Whether the file at `path` (relative to the directory) may be served: no
    /// pattern matches it, and unless `all` holds, no part of it is hidden.
    pub fn allows(&self, path: &str) -> (r: bool)
        ensures
            r == (!ignored(self.ignore@, path@) && (self.all || !has_hidden_part(path@))),
    {
        let mut g: usize = 0;
        while g < self.ignore.len()
            invariant
                g <= self.ignore@.len(),
                forall|k: int| 0 <= k < g ==> !glob_matches((#[trigger] self.ignore@[k])@, path@),
            decreases self.ignore.len() - g,
        {
            if matches_glob(self.ignore[g].as_str(), path) {
                return false;
            }
            g = g + 1;
        }
        assert(!ignored(self.ignore@, path@));
        if self.all {
            return true;
        }
        let n = path.unicode_len();
        let mut i: usize = 0;
        while i < n
            invariant
                i <= n,
                n == path@.len(),
                !self.all,
                !ignored(self.ignore@, path@),
                forall|k: int| 0 <= k < i ==> !hidden_at(path@, k),
            decreases n - i,
        {
            if i + 1 < n && path.get_char(i) == '.' && (i == 0 || path.get_char(i - 1) == '/')
                && path.get_char(i + 1) != '/' {
                assert(hidden_at(path@, i as int));
                return false;
            }
            i = i + 1;
        }
        proof {
            assert forall|k: int| !hidden_at(path@, k) by {
                if 0 <= k < n {
                } else {
                }
            }
        }
        true
    }
}

} // verus!
