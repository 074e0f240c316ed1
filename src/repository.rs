use vstd::prelude::*;
use vstd::string::StringExecFns;
use vstd::string::StrSliceExecFns;

use crate::text::{trim, trimmed};
use crate::version::push_char;

verus! {

/// The views of a list of strings.
pub open spec fn strs(v: Seq<String>) -> Seq<Seq<char>> {
    v.map_values(|s: String| s@)
}

/// The views of a list of string slices.
pub open spec fn strs_of(v: Seq<&str>) -> Seq<Seq<char>> {
    v.map_values(|s: &str| s@)
}

/// Each text of a list, trimmed.
pub open spec fn all_trimmed(v: Seq<Seq<char>>) -> Seq<Seq<char>> {
    v.map_values(|a: Seq<char>| trimmed(a))
}

/// The arguments of one `git` run in the working tree at `path`: each of
/// `args` is trimmed of surrounding white space.
pub open spec fn git_args(path: Seq<char>, args: Seq<Seq<char>>) -> Seq<Seq<char>> {
    seq!["-C"@, path] + all_trimmed(args)
}

/// Whether a short-form status line reports a modified tracked file, in the
/// working tree or in the index. Untracked files (`??`) do not count.
pub open spec fn is_modified_line(line: Seq<char>) -> bool {
    &&& line.len() >= 4
    &&& (line[0] == 'M' && (line[1] == ' ' || line[1] == 'M') || line[0] == ' ' && line[1] == 'M')
}

/// What a status line contributes to the dirty files: the rest of the line
/// after the two status characters, for a modified file.
pub open spec fn dirty_entry(line: Seq<char>) -> Seq<Seq<char>> {
    if is_modified_line(line) {
        seq![line.subrange(2, line.len() as int)]
    } else {
        Seq::empty()
    }
}

/// The dirty files of a status output, `line` being the part of the current
/// line already read: the output is cut at each newline.
pub open spec fn dirty_scan(s: Seq<char>, line: Seq<char>) -> Seq<Seq<char>>
    decreases s.len(),
{
    if s.len() == 0 {
        dirty_entry(line)
    } else if s[0] == '\n' {
        dirty_entry(line) + dirty_scan(s.drop_first(), Seq::empty())
    } else {
        dirty_scan(s.drop_first(), line.push(s[0]))
    }
}

/// The dirty files that `git status --branch --porcelain` reports.
pub open spec fn dirty_files_of(status: Seq<char>) -> Seq<Seq<char>> {
    dirty_scan(status, Seq::empty())
}

/// `label` then `text`, where `text` is not empty.
pub open spec fn section(label: Seq<char>, text: Seq<char>) -> Seq<char> {
    if text.len() == 0 {
        Seq::empty()
    } else {
        label + text
    }
}

/// The message of a failed `git` run, from what it wrote to its outputs.
pub open spec fn failure_message(stdout: Seq<char>, stderr: Seq<char>) -> Seq<char> {
    "error while running git:\n"@ + section("- stdout: "@, stdout) + section("- stderr: "@, stderr)
}

pub open spec fn is_digit(c: char) -> bool {
    '0' <= c && c <= '9'
}

/// The number that a sequence of decimal digits writes.
pub open spec fn digits_value(s: Seq<char>) -> nat
    decreases s.len(),
{
    if s.len() == 0 {
        0
    } else {
        digits_value(s.drop_last()) * 10 + ((s.last() as u32) - ('0' as u32)) as nat
    }
}

/// The text less one trailing newline.
pub open spec fn without_newline(s: Seq<char>) -> Seq<char> {
    if s.len() > 0 && s.last() == '\n' {
        s.drop_last()
    } else {
        s
    }
}

/// The count that a `rev-list --count` run printed: decimal digits, then
/// possibly a newline; `None` for anything else or a count beyond `u64`.
pub open spec fn count_of(output: Seq<char>) -> Option<nat> {
    let body = without_newline(output);
    if body.len() > 0 && (forall|i: int| 0 <= i < body.len() ==> is_digit(#[trigger] body[i]))
        && digits_value(body) <= u64::MAX {
        Some(digits_value(body))
    } else {
        None
    }
}

/// A prefix of digits writes no larger a number than the whole.
proof fn lemma_digits_prefix(s: Seq<char>, k: int)
    requires
        0 <= k <= s.len(),
        forall|i: int| 0 <= i < s.len() ==> is_digit(#[trigger] s[i]),
    ensures
        digits_value(s.subrange(0, k)) <= digits_value(s),
    decreases s.len(),
{
    if k < s.len() {
        let init = s.drop_last();
        assert(init.subrange(0, k) =~= s.subrange(0, k));
        lemma_digits_prefix(init, k);
    } else {
        assert(s.subrange(0, k) =~= s);
    }
}

/// The text that a byte sequence encodes in UTF-8; `None` where it is not UTF-8.
pub uninterp spec fn utf8_decoded(bytes: Seq<u8>) -> Option<Seq<char>>;

/// Relies on `String::from_utf8`: the text the bytes encode, if they are UTF-8.
#[verifier::external_body]
fn decode_utf8(bytes: Vec<u8>) -> (r: Option<String>)
    ensures
        match utf8_decoded(bytes@) {
            Some(t) => r is Some && r->0@ == t,
            None => r is None,
        },
{
    String::from_utf8(bytes).ok()
}

/// The working tree at a path, driven through the `git` command line. Its
/// methods give the arguments of each `git` run and read what the runs print.
pub struct Repository {
    path: String,
}

impl View for Repository {
    type V = Seq<char>;

    closed spec fn view(&self) -> Seq<char> {
        self.path@
    }
}

fn trimmed_strings(args: &Vec<&str>) -> (r: Vec<String>)
    ensures
        strs(r@) == all_trimmed(strs_of(args@)),
{
    let mut r: Vec<String> = Vec::new();
    let mut i: usize = 0;
    while i < args.len()
        invariant
            i <= args.len(),
            strs(r@) == all_trimmed(strs_of(args@.subrange(0, i as int))),
        decreases args.len() - i,
    {
        r.push(trim(args[i]).to_owned());
        i = i + 1;
        proof {
            assert(all_trimmed(strs_of(args@.subrange(0, i as int))) =~= all_trimmed(
                strs_of(args@.subrange(0, i - 1)),
            ).push(trimmed(args@[i - 1]@)));
            assert(strs(r@) =~= strs(r@.drop_last()).push(r@.last()@));
        }
    }
    proof {
        assert(args@.subrange(0, args@.len() as int) =~= args@);
    }
    r
}

impl Repository {
    /// The working tree at `path`.
    pub fn new(path: &str) -> (r: Repository)
        ensures
            r@ == path@,
    {
        Repository { path: path.to_owned() }
    }

    /// Nothing to prepare: every run names the path itself.
    pub fn open(&mut self) -> (r: Result<(), ()>)
        ensures
            r is Ok,
            final(self)@ == old(self)@,
    {
        Ok(())
    }

    /// The arguments of a `git` run in this working tree, each trimmed.
    fn git_cmd(&self, args: Vec<&str>) -> (r: Vec<String>)
        ensures
            strs(r@) == git_args(self@, strs_of(args@)),
    {
        let mut r: Vec<String> = Vec::new();
        r.push("-C".to_owned());
        r.push(self.path.clone());
        let mut rest = trimmed_strings(&args);
        r.append(&mut rest);
        proof {
            assert(strs(r@) =~= git_args(self@, strs_of(args@)));
        }
        r
    }

    /// The run whose output lists the changed files.
    pub fn status_command(&self) -> (r: Vec<String>)
        ensures
            strs(r@) == git_args(self@, seq!["status"@, "--branch"@, "--porcelain"@]),
    {
        let r = self.git_cmd(vec!["status", "--branch", "--porcelain"]);
        proof {
            assert(strs_of(seq!["status", "--branch", "--porcelain"]) =~= seq![
                "status"@,
                "--branch"@,
                "--porcelain"@,
            ]);
        }
        r
    }

    /// The modified tracked files that a status output reports, each as the
    /// rest of its line after the two status characters.
    pub fn get_dirty(status: &str) -> (r: Vec<String>)
        ensures
            strs(r@) == dirty_files_of(status@),
    {
        let n = status.unicode_len();
        let mut files: Vec<String> = Vec::new();
        let mut line = String::new();
        let mut i: usize = 0;
        proof {
            assert(status@.skip(0) =~= status@);
            assert(strs(files@) + dirty_files_of(status@) =~= dirty_files_of(status@));
        }
        while i < n
            invariant
                n == status@.len(),
                i <= n,
                strs(files@) + dirty_scan(status@.skip(i as int), line@) == dirty_files_of(
                    status@,
                ),
            decreases n - i,
        {
            let c = status.get_char(i);
            proof {
                assert(status@.skip(i as int).drop_first() =~= status@.skip(i + 1));
            }
            if c == '\n' {
                Self::take_line(&mut files, &line);
                proof {
                    assert(strs(files@) + dirty_scan(status@.skip(i + 1), Seq::empty())
                        =~= dirty_files_of(status@));
                }
                line = String::new();
            } else {
                push_char(&mut line, c);
            }
            i = i + 1;
        }
        Self::take_line(&mut files, &line);
        proof {
            assert(strs(files@) =~= dirty_files_of(status@));
        }
        files
    }

    fn take_line(files: &mut Vec<String>, line: &String)
        ensures
            strs(final(files)@) == strs(old(files)@) + dirty_entry(line@),
    {
        let n = line.as_str().unicode_len();
        if n >= 4 {
            let a = line.as_str().get_char(0);
            let b = line.as_str().get_char(1);
            if a == 'M' && (b == ' ' || b == 'M') || a == ' ' && b == 'M' {
                files.push(line.as_str().substring_char(2, n).to_owned());
                proof {
                    assert(strs(final(files)@) =~= strs(old(files)@) + dirty_entry(line@));
                }
                return;
            }
        }
        proof {
            assert(strs(final(files)@) =~= strs(old(files)@) + dirty_entry(line@));
        }
    }

    /// The runs that stage each of `files`, then commit them with `message`,
    /// showing the status before and after the commit.
    pub fn commit(&self, files: &Vec<String>, message: &str) -> (r: Vec<Vec<String>>)
        ensures
            r@.len() == files@.len() + 3,
            forall|i: int|
                0 <= i < files@.len() ==> strs(#[trigger] r@[i]@) == git_args(
                    self@,
                    seq!["add"@, files@[i]@],
                ),
            strs(r@[files@.len() as int]@) == git_args(self@, seq!["status"@]),
            strs(r@[files@.len() as int + 1]@) == git_args(self@, seq!["commit"@, "-m"@, message@]),
            strs(r@[files@.len() as int + 2]@) == git_args(self@, seq!["status"@]),
    {
        let mut runs: Vec<Vec<String>> = Vec::new();
        let mut i: usize = 0;
        while i < files.len()
            invariant
                i <= files@.len(),
                runs@.len() == i,
                forall|j: int|
                    0 <= j < i ==> strs(#[trigger] runs@[j]@) == git_args(
                        self@,
                        seq!["add"@, files@[j]@],
                    ),
            decreases files.len() - i,
        {
            let f = files[i].as_str();
            let run = self.git_cmd(vec!["add", f]);
            proof {
                assert(strs_of(seq!["add", f]) =~= seq!["add"@, files@[i as int]@]);
            }
            runs.push(run);
            i = i + 1;
        }
        runs.push(self.git_cmd(vec!["status"]));
        runs.push(self.git_cmd(vec!["commit", "-m", message]));
        runs.push(self.git_cmd(vec!["status"]));
        proof {
            assert(strs_of(seq!["status"]) =~= seq!["status"@]);
            assert(strs_of(seq!["commit", "-m", message]) =~= seq!["commit"@, "-m"@, message@]);
        }
        runs
    }

    /// The run that asks whether `file` is ignored.
    pub fn check_ignore(&self, file: &str) -> (r: Vec<String>)
        ensures
            strs(r@) == git_args(self@, seq!["check-ignore"@, file@]),
    {
        let r = self.git_cmd(vec!["check-ignore", file]);
        proof {
            assert(strs_of(seq!["check-ignore", file]) =~= seq!["check-ignore"@, file@]);
        }
        r
    }

    /// Whether the output of `check_ignore`'s run says that the file is ignored.
    pub fn is_ignored(output: &str) -> (r: bool)
        ensures
            r == (output@.len() > 0),
    {
        !output.is_empty()
    }

    /// The run that creates the annotated tag `tag` with message `msg`.
    pub fn tag(&self, tag: &str, msg: &str) -> (r: Vec<String>)
        ensures
            strs(r@) == git_args(self@, seq!["tag"@, tag@, "-m"@, msg@]),
    {
        let r = self.git_cmd(vec!["tag", tag, "-m", msg]);
        proof {
            assert(strs_of(seq!["tag", tag, "-m", msg]) =~= seq!["tag"@, tag@, "-m"@, msg@]);
        }
        r
    }

    /// The run that fetches from the remote.
    pub fn fetch(&self) -> (r: Vec<String>)
        ensures
            strs(r@) == git_args(self@, seq!["fetch"@]),
    {
        let r = self.git_cmd(vec!["fetch"]);
        proof {
            assert(strs_of(seq!["fetch"]) =~= seq!["fetch"@]);
        }
        r
    }

    /// The run that rebases onto the upstream branch.
    pub fn rebase(&self) -> (r: Vec<String>)
        ensures
            strs(r@) == git_args(self@, seq!["rebase"@]),
    {
        let r = self.git_cmd(vec!["rebase"]);
        proof {
            assert(strs_of(seq!["rebase"]) =~= seq!["rebase"@]);
        }
        r
    }

    /// The run that pushes the current branch.
    pub fn push(&self) -> (r: Vec<String>)
        ensures
            strs(r@) == git_args(self@, seq!["push"@]),
    {
        let r = self.git_cmd(vec!["push"]);
        proof {
            assert(strs_of(seq!["push"]) =~= seq!["push"@]);
        }
        r
    }

    /// The run that pushes the tag `tag` to `origin`.
    pub fn push_tag(&self, tag: &str) -> (r: Vec<String>)
        ensures
            strs(r@) == git_args(self@, seq!["push"@, "origin"@, tag@]),
    {
        let r = self.git_cmd(vec!["push", "origin", tag]);
        proof {
            assert(strs_of(seq!["push", "origin", tag]) =~= seq!["push"@, "origin"@, tag@]);
        }
        r
    }

    /// The run that counts the upstream commits that the local branch lacks.
    pub fn upstream_count_command(&self) -> (r: Vec<String>)
        ensures
            strs(r@) == git_args(self@, seq!["rev-list"@, "--count"@, "HEAD..@{upstream}"@]),
    {
        let r = self.git_cmd(vec!["rev-list", "--count", "HEAD..@{upstream}"]);
        proof {
            assert(strs_of(seq!["rev-list", "--count", "HEAD..@{upstream}"]) =~= seq![
                "rev-list"@,
                "--count"@,
                "HEAD..@{upstream}"@,
            ]);
        }
        r
    }

    /// The count that the run of `upstream_count_command` printed.
    pub fn count_from_output(output: &str) -> (r: Option<u64>)
        ensures
            match count_of(output@) {
                Some(n) => r == Some(n as u64),
                None => r is None,
            },
    {
        let total = output.unicode_len();
        let n = if total > 0 && output.get_char(total - 1) == '\n' {
            total - 1
        } else {
            total
        };
        let ghost body = without_newline(output@);
        assert(body =~= output@.subrange(0, n as int));
        if n == 0 {
            return None;
        }
        let mut value: u64 = 0;
        let mut i: usize = 0;
        while i < n
            invariant
                n <= total,
                total == output@.len(),
                body == output@.subrange(0, n as int),
                body == without_newline(output@),
                i <= n,
                forall|j: int| 0 <= j < i ==> is_digit(#[trigger] body[j]),
                value as nat == digits_value(body.subrange(0, i as int)),
            decreases n - i,
        {
            let c = output.get_char(i);
            assert(c == body[i as int]);
            if !('0' <= c && c <= '9') {
                assert(!is_digit(body[i as int]));
                return None;
            }
            let d = (c as u32 - '0' as u32) as u64;
            assert(body.subrange(0, i + 1).drop_last() =~= body.subrange(0, i as int));
            let ghost prefix = body.subrange(0, i + 1);
            assert(prefix.last() == c);
            assert(digits_value(prefix) == value * 10 + d);
            if value > (u64::MAX - d) / 10 {
                proof {
                    assert(value * 10 + d > u64::MAX) by (nonlinear_arith)
                        requires
                            value > (u64::MAX - d) / 10,
                            d <= 9,
                    ;
                    if forall|j: int| 0 <= j < body.len() ==> is_digit(#[trigger] body[j]) {
                        lemma_digits_prefix(body, i + 1);
                    }
                }
                return None;
            }
            value = value * 10 + d;
            i = i + 1;
        }
        assert(body.subrange(0, n as int) =~= body);
        Some(value)
    }

    /// The message of a failed run, from what it printed.
    pub fn failure_message(stdout: &str, stderr: &str) -> (r: String)
        ensures
            r@ == failure_message(stdout@, stderr@),
    {
        let mut error = "error while running git:\n".to_owned();
        if !stdout.is_empty() {
            error.append("- stdout: ");
            error.append(stdout);
        }
        if !stderr.is_empty() {
            error.append("- stderr: ");
            error.append(stderr);
        }
        proof {
            assert(error@ =~= failure_message(stdout@, stderr@));
        }
        error
    }

    /// The text a run printed; `None` where it is not UTF-8.
    pub fn string_from_bytes(bytes: Vec<u8>) -> (r: Option<String>)
        ensures
            match utf8_decoded(bytes@) {
                Some(t) => r is Some && r->0@ == t,
                None => r is None,
            },
    {
        decode_utf8(bytes)
    }
}

} // verus!
