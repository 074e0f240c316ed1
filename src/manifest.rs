use vstd::prelude::*;

use crate::version::{
    bump_fits, bumped, semver_parsed, semver_prerelease_ok, version_text, with_pre, BumpLevel,
    SemVer, Version,
};

verus! {

/// Why a manifest operation failed.
#[derive(Clone, Copy, Debug, PartialEq, Eq, Structural)]
pub enum ManifestError {
    /// No document has been loaded yet.
    NotLoaded,
    /// The text is not a TOML document.
    Unparsable,
    /// `package.version` is missing or is not a string.
    UnsupportedVersionFormat,
    /// `package.version` is not a semantic version.
    MalformedVersion,
    /// The label is not a valid pre-release label.
    InvalidSuffix,
    /// The component to bump is already at its largest value.
    VersionOverflow,
}

/// Whether `toml_edit` parses the text as a document.
pub uninterp spec fn toml_parses(text: Seq<char>) -> bool;

/// The string at `key` of the table `table` in the document that `toml_edit`
/// parses from the text; `None` where the text does not parse or holds no such
/// string.
pub uninterp spec fn toml_string_at(text: Seq<char>, table: Seq<char>, key: Seq<char>) -> Option<
    Seq<char>,
>;

/// The text of the document with the string at `key` of the table `table`
/// replaced by `value`, its surrounding whitespace and comments kept, as
/// `toml_edit` renders it; `None` where there is no such string to replace.
pub uninterp spec fn toml_with_string_at(
    text: Seq<char>,
    table: Seq<char>,
    key: Seq<char>,
    value: Seq<char>,
) -> Option<Seq<char>>;

/// Relies on `toml_edit::DocumentMut`'s `FromStr`: whether the text parses.
#[verifier::external_body]
fn document_parses(text: &str) -> (r: bool)
    ensures
        r == toml_parses(text@),
{
    text.parse::<toml_edit::DocumentMut>().is_ok()
}

/// Relies on `toml_edit::DocumentMut`'s `FromStr`, `Table::get`, `Item::get` and
/// `Item::as_str`: the string at `key` of the table `table`.
#[verifier::external_body]
fn document_string_at(text: &str, table: &str, key: &str) -> (r: Option<String>)
    ensures
        match toml_string_at(text@, table@, key@) {
            Some(f) => r is Some && r->0@ == f,
            None => r is None,
        },
{
    let doc = text.parse::<toml_edit::DocumentMut>().ok()?;
    let field = doc.get(table)?.get(key)?.as_str()?;
    Some(field.to_string())
}

/// Relies on `toml_edit::DocumentMut`'s `FromStr`, `Table::get`, `Item::get`,
/// `IndexMut` and `Display`: the string at `key` of the table `table` is
/// replaced by a new one that keeps the old one's decor, and the document is
/// rendered back to text. The lookup is the one of `document_string_at`, so
/// the replacement happens exactly where that finds a string.
#[verifier::external_body]
fn document_with_string_at(text: &str, table: &str, key: &str, value: &str) -> (r: Option<String>)
    ensures
        r is Some <==> toml_string_at(text@, table@, key@) is Some,
        match toml_with_string_at(text@, table@, key@, value@) {
            Some(t) => r is Some && r->0@ == t,
            None => r is None,
        },
{
    let mut doc = text.parse::<toml_edit::DocumentMut>().ok()?;
    let decor = match doc.get(table)?.get(key)? {
        toml_edit::Item::Value(toml_edit::Value::String(s)) => s.decor().clone(),
        _ => return None,
    };
    let mut new_value = toml_edit::Value::from(value);
    *new_value.decor_mut() = decor;
    doc[table][key] = toml_edit::Item::Value(new_value);
    Some(doc.to_string())
}

/// `name` joined onto the directory `dir`, as a path.
pub open spec fn joined(dir: Seq<char>, name: Seq<char>) -> Seq<char> {
    if dir.len() == 0 {
        name
    } else if dir.last() == '/' {
        dir + name
    } else {
        dir + seq!['/'] + name
    }
}

/// The path of the file `name` in the directory `dir`.
pub fn join_path(dir: &str, name: &str) -> (r: String)
    ensures
        r@ == joined(dir@, name@),
{
    let mut r = dir.to_owned();
    let n = dir.unicode_len();
    if n == 0 {
        return name.to_owned();
    }
    if dir.get_char(n - 1) != '/' {
        r.append("/");
        proof {
            reveal_strlit("/");
        }
    }
    r.append(name);
    r
}

/// The string at `package.version` of a loaded text.
pub open spec fn field_of(text: Option<Seq<char>>) -> Result<Seq<char>, ManifestError> {
    match text {
        None => Err(ManifestError::NotLoaded),
        Some(t) => match toml_string_at(t, "package"@, "version"@) {
            None => Err(ManifestError::UnsupportedVersionFormat),
            Some(f) => Ok(f),
        },
    }
}

/// The version that a loaded text declares.
pub open spec fn version_of(text: Option<Seq<char>>) -> Result<SemVer, ManifestError> {
    match field_of(text) {
        Err(e) => Err(e),
        Ok(f) => match semver_parsed(f) {
            None => Err(ManifestError::MalformedVersion),
            Some(v) => Ok(v),
        },
    }
}

/// The text after the version field is set to `v`.
pub open spec fn text_with(text: Option<Seq<char>>, v: SemVer) -> Result<Seq<char>, ManifestError> {
    match text {
        None => Err(ManifestError::NotLoaded),
        Some(t) => match toml_with_string_at(t, "package"@, "version"@, version_text(v)) {
            None => Err(ManifestError::UnsupportedVersionFormat),
            Some(u) => Ok(u),
        },
    }
}

/// The text after the version is bumped at `level`.
pub open spec fn text_bumped(text: Option<Seq<char>>, level: BumpLevel) -> Result<
    Seq<char>,
    ManifestError,
> {
    match version_of(text) {
        Err(e) => Err(e),
        Ok(v) => if bump_fits(v, level) {
            text_with(text, bumped(v, level))
        } else {
            Err(ManifestError::VersionOverflow)
        },
    }
}

/// The text after the pre-release label is replaced by `label`.
pub open spec fn text_with_suffix(text: Option<Seq<char>>, label: Seq<char>) -> Result<
    Seq<char>,
    ManifestError,
> {
    match version_of(text) {
        Err(e) => Err(e),
        Ok(v) => if semver_prerelease_ok(label) {
            text_with(text, with_pre(v, label))
        } else {
            Err(ManifestError::InvalidSuffix)
        },
    }
}

/// The manifest after its text `contents` is loaded.
pub open spec fn loaded(m: ManifestView, contents: Seq<char>) -> ManifestView {
    ManifestView { path: m.path, text: Some(contents) }
}

/// The text that saving the manifest writes.
pub open spec fn saved(m: ManifestView) -> Option<Seq<char>> {
    m.text
}

/// Loading a document, saving it unchanged and loading what was saved gives
/// back the very text that was loaded first, and so the same version and the
/// same surrounding content.
pub proof fn lemma_load_save_round_trip(m: ManifestView, contents: Seq<char>)
    requires
        toml_parses(contents),
    ensures
        saved(loaded(m, contents)) == Some(contents),
        loaded(loaded(m, contents), saved(loaded(m, contents))->0) == loaded(m, contents),
        version_of(loaded(loaded(m, contents), saved(loaded(m, contents))->0).text) == version_of(
            Some(contents),
        ),
{
}

/// The package manifest: where it lives and, once loaded, its text.
pub struct Manifest {
    path: String,
    text: Option<String>,
}

pub struct ManifestView {
    pub path: Seq<char>,
    pub text: Option<Seq<char>>,
}

impl View for Manifest {
    type V = ManifestView;

    closed spec fn view(&self) -> ManifestView {
        ManifestView {
            path: self.path@,
            text: match self.text {
                Some(t) => Some(t@),
                None => None,
            },
        }
    }
}

impl Manifest {
    /// A manifest at `path`, nothing loaded yet.
    pub fn new(path: &str) -> (r: Manifest)
        ensures
            r@.path == path@,
            r@.text is None,
    {
        Manifest { path: path.to_owned(), text: None }
    }

    /// Where the manifest lives.
    pub fn path(&self) -> (r: &str)
        ensures
            r@ == self@.path,
    {
        self.path.as_str()
    }

    /// Takes the manifest's text as read from its file; fails, keeping what was
    /// loaded before, where it is not a TOML document.
    pub fn load(&mut self, contents: &str) -> (r: Result<(), ManifestError>)
        ensures
            final(self)@.path == old(self)@.path,
            toml_parses(contents@) ==> r is Ok && final(self)@ == loaded(old(self)@, contents@),
            !toml_parses(contents@) ==> r == Err::<(), _>(ManifestError::Unparsable)
                && final(self)@ == old(self)@,
    {
        if !document_parses(contents) {
            return Err(ManifestError::Unparsable);
        }
        self.text = Some(contents.to_owned());
        Ok(())
    }

    /// The text to write back to the manifest's file; `None` where nothing was
    /// loaded.
    pub fn save(&self) -> (r: Option<String>)
        ensures
            match saved(self@) {
                Some(t) => r is Some && r->0@ == t,
                None => r is None,
            },
    {
        match &self.text {
            Some(t) => Some(t.clone()),
            None => None,
        }
    }

    fn get_formatted_version(&self) -> (r: Result<String, ManifestError>)
        ensures
            match field_of(self@.text) {
                Ok(f) => r is Ok && r->Ok_0@ == f,
                Err(e) => r == Err::<String, _>(e),
            },
    {
        match &self.text {
            None => Err(ManifestError::NotLoaded),
            Some(t) => match document_string_at(t.as_str(), "package", "version") {
                None => Err(ManifestError::UnsupportedVersionFormat),
                Some(f) => Ok(f),
            },
        }
    }

    /// The version the manifest declares.
    pub fn get_version(&self) -> (r: Result<Version, ManifestError>)
        ensures
            match version_of(self@.text) {
                Ok(v) => r is Ok && r->Ok_0@ == v,
                Err(e) => r == Err::<Version, _>(e),
            },
    {
        let f = self.get_formatted_version()?;
        match Version::parse(f.as_str()) {
            Some(v) => Ok(v),
            None => Err(ManifestError::MalformedVersion),
        }
    }

    /// The version the manifest declares, as text.
    pub fn get_pretty_version(&self) -> (r: Result<String, ManifestError>)
        ensures
            match version_of(self@.text) {
                Ok(v) => r is Ok && r->Ok_0@ == version_text(v),
                Err(e) => r == Err::<String, _>(e),
            },
    {
        let v = self.get_version()?;
        Ok(v.to_text())
    }

    /// Replaces the version, keeping the rest of the document as it is.
    pub fn set_version(&mut self, version: &Version) -> (r: Result<(), ManifestError>)
        ensures
            final(self)@.path == old(self)@.path,
            field_of(old(self)@.text) is Ok ==> r is Ok,
            match text_with(old(self)@.text, version@) {
                Ok(t) => r is Ok && final(self)@.text == Some(t),
                Err(e) => r == Err::<(), _>(e) && final(self)@ == old(self)@,
            },
    {
        let v = version.to_text();
        let new_text = match &self.text {
            None => return Err(ManifestError::NotLoaded),
            Some(t) => match document_with_string_at(t.as_str(), "package", "version", v.as_str()) {
                None => return Err(ManifestError::UnsupportedVersionFormat),
                Some(u) => u,
            },
        };
        self.text = Some(new_text);
        Ok(())
    }

    /// Increments the version at `level`, resetting the lower components.
    pub fn bump_version(&mut self, level: BumpLevel) -> (r: Result<(), ManifestError>)
        ensures
            final(self)@.path == old(self)@.path,
            version_of(old(self)@.text) is Ok && bump_fits(version_of(old(self)@.text)->Ok_0, level)
                ==> r is Ok,
            match text_bumped(old(self)@.text, level) {
                Ok(t) => r is Ok && final(self)@.text == Some(t),
                Err(e) => r == Err::<(), _>(e) && final(self)@ == old(self)@,
            },
    {
        let old_version = self.get_version()?;
        match old_version.bump(level) {
            None => Err(ManifestError::VersionOverflow),
            Some(v) => self.set_version(&v),
        }
    }

    /// Increments the patch component.
    pub fn bump_patch_version(&mut self) -> (r: Result<(), ManifestError>)
        ensures
            final(self)@.path == old(self)@.path,
            version_of(old(self)@.text) is Ok && bump_fits(version_of(old(self)@.text)->Ok_0, BumpLevel::Patch)
                ==> r is Ok,
            match text_bumped(old(self)@.text, BumpLevel::Patch) {
                Ok(t) => r is Ok && final(self)@.text == Some(t),
                Err(e) => r == Err::<(), _>(e) && final(self)@ == old(self)@,
            },
    {
        self.bump_version(BumpLevel::Patch)
    }

    /// Increments the minor component and resets the patch component.
    pub fn bump_minor_version(&mut self) -> (r: Result<(), ManifestError>)
        ensures
            final(self)@.path == old(self)@.path,
            version_of(old(self)@.text) is Ok && bump_fits(version_of(old(self)@.text)->Ok_0, BumpLevel::Minor)
                ==> r is Ok,
            match text_bumped(old(self)@.text, BumpLevel::Minor) {
                Ok(t) => r is Ok && final(self)@.text == Some(t),
                Err(e) => r == Err::<(), _>(e) && final(self)@ == old(self)@,
            },
    {
        self.bump_version(BumpLevel::Minor)
    }

    /// Increments the major component and resets the minor and patch components.
    pub fn bump_major_version(&mut self) -> (r: Result<(), ManifestError>)
        ensures
            final(self)@.path == old(self)@.path,
            version_of(old(self)@.text) is Ok && bump_fits(version_of(old(self)@.text)->Ok_0, BumpLevel::Major)
                ==> r is Ok,
            match text_bumped(old(self)@.text, BumpLevel::Major) {
                Ok(t) => r is Ok && final(self)@.text == Some(t),
                Err(e) => r == Err::<(), _>(e) && final(self)@ == old(self)@,
            },
    {
        self.bump_version(BumpLevel::Major)
    }

    /// Replaces the pre-release label by `suffix` (an empty one removes it).
    pub fn set_version_suffix(&mut self, suffix: &str) -> (r: Result<(), ManifestError>)
        ensures
            final(self)@.path == old(self)@.path,
            version_of(old(self)@.text) is Ok && semver_prerelease_ok(suffix@) ==> r is Ok,
            match text_with_suffix(old(self)@.text, suffix@) {
                Ok(t) => r is Ok && final(self)@.text == Some(t),
                Err(e) => r == Err::<(), _>(e) && final(self)@ == old(self)@,
            },
    {
        let old_version = self.get_version()?;
        match old_version.with_suffix(suffix) {
            None => Err(ManifestError::InvalidSuffix),
            Some(v) => self.set_version(&v),
        }
    }
}

} // verus!
