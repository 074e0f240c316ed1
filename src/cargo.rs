use vstd::prelude::*;
use vstd::string::StrSliceExecFns;

use crate::manifest::{join_path, joined};
use crate::release::same_text;
use crate::text::{is_white, white_space};

verus! {

/// Whether `pattern` occurs in `s`.
pub open spec fn contains_text(s: Seq<char>, pattern: Seq<char>) -> bool {
    exists|i: int| 0 <= i <= s.len() - pattern.len() && #[trigger] s.subrange(i, i + pattern.len()) == pattern
}

/// Whether a text is empty once its surrounding white space is trimmed.
pub open spec fn blank(s: Seq<char>) -> bool {
    forall|i: int| 0 <= i < s.len() ==> white_space(#[trigger] s[i])
}

/// Whether a lockfile's text is plainly not a lockfile: not blank, and with
/// neither a package table nor a version entry.
pub open spec fn lockfile_malformed(s: Seq<char>) -> bool {
    &&& !contains_text(s, "[package]"@)
    &&& !contains_text(s, "version ="@)
    &&& !blank(s)
}

fn find_text(s: &str, pattern: &str) -> (r: bool)
    ensures
        r == contains_text(s@, pattern@),
{
    let n = s.unicode_len();
    let m = pattern.unicode_len();
    if m > n {
        return false;
    }
    if m == 0 {
        proof {
            assert(s@.subrange(0, 0 + pattern@.len() as int) =~= pattern@);
        }
        return true;
    }
    let mut i: usize = 0;
    while i <= n - m
        invariant
            n == s@.len(),
            m == pattern@.len(),
            1 <= m <= n,
            i <= n - m + 1,
            forall|j: int| 0 <= j < i ==> #[trigger] s@.subrange(j, j + m) != pattern@,
        decreases n - m + 1 - i,
    {
        let part = s.substring_char(i, i + m);
        if same_text(part, pattern) {
            return true;
        }
        i = i + 1;
    }
    proof {
        assert forall|j: int| 0 <= j <= s@.len() - pattern@.len() implies #[trigger] s@.subrange(
            j,
            j + pattern@.len(),
        ) != pattern@ by {}
    }
    false
}

fn is_blank(s: &str) -> (r: bool)
    ensures
        r == blank(s@),
{
    let n = s.unicode_len();
    let mut i: usize = 0;
    while i < n
        invariant
            n == s@.len(),
            i <= n,
            forall|j: int| 0 <= j < i ==> white_space(#[trigger] s@[j]),
        decreases n - i,
    {
        if !is_white(s.get_char(i)) {
            return false;
        }
        i = i + 1;
    }
    true
}

/// The package workspace in a directory, whose lockfile a release regenerates.
pub struct Cargo {
    path: String,
}

impl View for Cargo {
    type V = Seq<char>;

    closed spec fn view(&self) -> Seq<char> {
        self.path@
    }
}

impl Cargo {
    /// The workspace in the directory `path`.
    pub fn new(path: &str) -> (r: Cargo)
        ensures
            r@ == path@,
    {
        Cargo { path: path.to_owned() }
    }

    /// Where the workspace's manifest lives.
    pub fn manifest_path(&self) -> (r: String)
        ensures
            r@ == joined(self@, "Cargo.toml"@),
    {
        join_path(self.path.as_str(), "Cargo.toml")
    }

    /// Where the workspace's lockfile lives.
    pub fn lock_path(&self) -> (r: String)
        ensures
            r@ == joined(self@, "Cargo.lock"@),
    {
        join_path(self.path.as_str(), "Cargo.lock")
    }

    /// Whether a lockfile's text is plainly not a lockfile, so that updating
    /// it is refused before the workspace is even read.
    pub fn lockfile_malformed(contents: &str) -> (r: bool)
        ensures
            r == lockfile_malformed(contents@),
    {
        !find_text(contents, "[package]") && !find_text(contents, "version =") && !is_blank(contents)
    }
}

} // verus!
