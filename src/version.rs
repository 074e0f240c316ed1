use vstd::prelude::*;
use vstd::string::StringExecFns;

verus! {

/// A semantic version as plain values: what the release logic reads and writes.
pub struct SemVer {
    pub major: nat,
    pub minor: nat,
    pub patch: nat,
    pub pre: Seq<char>,
    pub build: Seq<char>,
}

/// Which component of a version a development bump increments.
#[derive(Clone, Copy, Debug, PartialEq, Eq, Structural)]
pub enum BumpLevel {
    Patch,
    Minor,
    Major,
}

/// A parsed version: `major.minor.patch`, an optional pre-release label and
/// optional build metadata (empty when absent).
#[derive(Debug)]
pub struct Version {
    pub major: u64,
    pub minor: u64,
    pub patch: u64,
    pub pre: String,
    pub build: String,
}

impl View for Version {
    type V = SemVer;

    open spec fn view(&self) -> SemVer {
        SemVer {
            major: self.major as nat,
            minor: self.minor as nat,
            patch: self.patch as nat,
            pre: self.pre@,
            build: self.build@,
        }
    }
}

/// What `semver::Version::parse` makes of a text: `None` where it refuses it.
pub uninterp spec fn semver_parsed(s: Seq<char>) -> Option<SemVer>;

/// A character that a pre-release identifier may hold: `[0-9A-Za-z-]`.
pub open spec fn identifier_char(c: char) -> bool {
    ('0' <= c && c <= '9') || ('A' <= c && c <= 'Z') || ('a' <= c && c <= 'z') || c == '-'
}

/// A pre-release identifier: non-empty, of identifier characters, and without
/// a leading zero where it is numeric.
pub open spec fn valid_identifier(s: Seq<char>) -> bool {
    &&& s.len() > 0
    &&& forall|i: int| 0 <= i < s.len() ==> identifier_char(#[trigger] s[i])
    &&& !(s.len() > 1 && s[0] == '0' && forall|i: int|
        0 <= i < s.len() ==> '0' <= #[trigger] s[i] && s[i] <= '9')
}

/// Whether the rest `s` of a label, `segment` being the part of the current
/// identifier already read, is a dot-separated sequence of identifiers.
pub open spec fn identifiers_from(s: Seq<char>, segment: Seq<char>) -> bool
    decreases s.len(),
{
    if s.len() == 0 {
        valid_identifier(segment)
    } else if s[0] == '.' {
        valid_identifier(segment) && identifiers_from(s.drop_first(), Seq::empty())
    } else {
        identifiers_from(s.drop_first(), segment.push(s[0]))
    }
}

/// Whether `semver::Prerelease::new` accepts a text as a pre-release label:
/// the empty label, or dot-separated identifiers.
pub open spec fn semver_prerelease_ok(s: Seq<char>) -> bool {
    s.len() == 0 || identifiers_from(s, Seq::empty())
}

pub open spec fn digit(d: nat) -> char {
    if d == 0 {
        '0'
    } else if d == 1 {
        '1'
    } else if d == 2 {
        '2'
    } else if d == 3 {
        '3'
    } else if d == 4 {
        '4'
    } else if d == 5 {
        '5'
    } else if d == 6 {
        '6'
    } else if d == 7 {
        '7'
    } else if d == 8 {
        '8'
    } else {
        '9'
    }
}

/// The decimal digits of `n`, most significant first, without leading zeros.
pub open spec fn decimal(n: nat) -> Seq<char>
    decreases n,
{
    if n < 10 {
        seq![digit(n)]
    } else {
        decimal(n / 10).push(digit(n % 10))
    }
}

/// `-label` for a non-empty label (`sep` then the label), nothing for an empty one.
pub open spec fn labelled(sep: char, label: Seq<char>) -> Seq<char> {
    if label.len() == 0 {
        Seq::empty()
    } else {
        seq![sep] + label
    }
}

/// The canonical text of a version: `major.minor.patch[-pre][+build]`.
pub open spec fn version_text(v: SemVer) -> Seq<char> {
    decimal(v.major) + seq!['.'] + decimal(v.minor) + seq!['.'] + decimal(v.patch) + labelled(
        '-',
        v.pre,
    ) + labelled('+', v.build)
}

/// The version with the named component incremented and every lower-order
/// component reset to zero; the labels are kept.
pub open spec fn bumped(v: SemVer, level: BumpLevel) -> SemVer {
    match level {
        BumpLevel::Patch => SemVer { patch: v.patch + 1, ..v },
        BumpLevel::Minor => SemVer { minor: v.minor + 1, patch: 0, ..v },
        BumpLevel::Major => SemVer { major: v.major + 1, minor: 0, patch: 0, ..v },
    }
}

/// The version with its pre-release label replaced by `label`.
pub open spec fn with_pre(v: SemVer, label: Seq<char>) -> SemVer {
    SemVer { pre: label, ..v }
}

/// Whether bumping `v` at `level` keeps the named component within `u64`.
pub open spec fn bump_fits(v: SemVer, level: BumpLevel) -> bool {
    match level {
        BumpLevel::Patch => v.patch < u64::MAX,
        BumpLevel::Minor => v.minor < u64::MAX,
        BumpLevel::Major => v.major < u64::MAX,
    }
}

/// Bumping increments exactly the named component and resets every
/// lower-order component to zero; the pre-release label and the build
/// metadata stay as they are.
pub proof fn lemma_bump_resets_lower(v: SemVer, level: BumpLevel)
    ensures
        ({
            let b = bumped(v, level);
            &&& level == BumpLevel::Patch ==> b.major == v.major && b.minor == v.minor && b.patch
                == v.patch + 1
            &&& level == BumpLevel::Minor ==> b.major == v.major && b.minor == v.minor + 1 && b.patch
                == 0
            &&& level == BumpLevel::Major ==> b.major == v.major + 1 && b.minor == 0 && b.patch == 0
            &&& b.pre == v.pre && b.build == v.build
        }),
{
}

/// Setting a pre-release label replaces whatever label was there: the result
/// does not depend on the earlier label, and an empty label leaves the text
/// without a hyphen.
pub proof fn lemma_suffix_replaces(v: SemVer, earlier: Seq<char>, label: Seq<char>)
    ensures
        with_pre(with_pre(v, earlier), label) == with_pre(v, label),
        with_pre(v, label).pre == label,
        semver_prerelease_ok(Seq::empty()),
        version_text(with_pre(v, Seq::empty())) == decimal(v.major) + seq!['.'] + decimal(v.minor)
            + seq!['.'] + decimal(v.patch) + labelled('+', v.build),
{
    assert(version_text(with_pre(v, Seq::empty())) =~= decimal(v.major) + seq!['.'] + decimal(
        v.minor,
    ) + seq!['.'] + decimal(v.patch) + labelled('+', v.build));
}

/// Relies on `String::push`: appends one character.
#[verifier::external_body]
pub(crate) fn push_char(s: &mut String, c: char)
    ensures
        final(s)@ == old(s)@.push(c),
{
    s.push(c)
}

/// Relies on `semver::Version::parse`, whose fields are copied out as they are.
#[verifier::external_body]
fn parse_semver(s: &str) -> (r: Option<Version>)
    ensures
        match semver_parsed(s@) {
            Some(v) => r is Some && r->0@ == v,
            None => r is None,
        },
{
    match semver::Version::parse(s) {
        Ok(v) => Some(
            Version {
                major: v.major,
                minor: v.minor,
                patch: v.patch,
                pre: v.pre.as_str().to_string(),
                build: v.build.as_str().to_string(),
            },
        ),
        Err(_) => None,
    }
}

/// Relies on `semver::Prerelease::new`, whose parser accepts exactly the empty
/// label and dot-separated identifiers over `[0-9A-Za-z-]`, numeric ones
/// without a leading zero.
#[verifier::external_body]
fn prerelease_accepted(s: &str) -> (r: bool)
    ensures
        r == semver_prerelease_ok(s@),
{
    semver::Prerelease::new(s).is_ok()
}

fn digit_char(d: u64) -> (c: char)
    requires
        d < 10,
    ensures
        c == digit(d as nat),
{
    if d == 0 {
        '0'
    } else if d == 1 {
        '1'
    } else if d == 2 {
        '2'
    } else if d == 3 {
        '3'
    } else if d == 4 {
        '4'
    } else if d == 5 {
        '5'
    } else if d == 6 {
        '6'
    } else if d == 7 {
        '7'
    } else if d == 8 {
        '8'
    } else {
        '9'
    }
}

fn push_decimal(n: u64, out: &mut String)
    ensures
        final(out)@ == old(out)@ + decimal(n as nat),
    decreases n,
{
    if n >= 10 {
        push_decimal(n / 10, out);
    }
    push_char(out, digit_char(n % 10));
    proof {
        assert(final(out)@ =~= old(out)@ + decimal(n as nat));
    }
}

fn push_labelled(sep: char, label: &str, out: &mut String)
    ensures
        final(out)@ == old(out)@ + labelled(sep, label@),
{
    if !label.is_empty() {
        push_char(out, sep);
        out.append(label);
    }
    proof {
        assert(final(out)@ =~= old(out)@ + labelled(sep, label@));
    }
}

impl Version {
    /// Parses a version text; `None` where it is not a semantic version.
    pub fn parse(s: &str) -> (r: Option<Version>)
        ensures
            r is Some <==> semver_parsed(s@) is Some,
            r is Some ==> r->0@ == semver_parsed(s@)->0,
    {
        parse_semver(s)
    }

    /// The canonical text of this version.
    pub fn to_text(&self) -> (r: String)
        ensures
            r@ == version_text(self@),
    {
        let mut out = String::new();
        push_decimal(self.major, &mut out);
        push_char(&mut out, '.');
        push_decimal(self.minor, &mut out);
        push_char(&mut out, '.');
        push_decimal(self.patch, &mut out);
        push_labelled('-', self.pre.as_str(), &mut out);
        push_labelled('+', self.build.as_str(), &mut out);
        proof {
            assert(out@ =~= version_text(self@));
        }
        out
    }

    /// This version bumped at `level`; `None` where the named component is
    /// already at its largest value.
    pub fn bump(&self, level: BumpLevel) -> (r: Option<Version>)
        ensures
            r is Some <==> bump_fits(self@, level),
            r is Some ==> r->0@ == bumped(self@, level),
    {
        let pre = self.pre.clone();
        let build = self.build.clone();
        match level {
            BumpLevel::Patch => {
                if self.patch == u64::MAX {
                    return None;
                }
                Some(Version { major: self.major, minor: self.minor, patch: self.patch + 1, pre, build })
            },
            BumpLevel::Minor => {
                if self.minor == u64::MAX {
                    return None;
                }
                Some(Version { major: self.major, minor: self.minor + 1, patch: 0, pre, build })
            },
            BumpLevel::Major => {
                if self.major == u64::MAX {
                    return None;
                }
                Some(Version { major: self.major + 1, minor: 0, patch: 0, pre, build })
            },
        }
    }

    /// This version with its pre-release label replaced by `label`; `None`
    /// where the label is not a valid pre-release label.
    pub fn with_suffix(&self, label: &str) -> (r: Option<Version>)
        ensures
            r is Some <==> semver_prerelease_ok(label@),
            r is Some ==> r->0@ == with_pre(self@, label@),
    {
        if !prerelease_accepted(label) {
            return None;
        }
        Some(
            Version {
                major: self.major,
                minor: self.minor,
                patch: self.patch,
                pre: label.to_owned(),
                build: self.build.clone(),
            },
        )
    }
}

} // verus!
