use vstd::prelude::*;
use vstd::string::StringExecFns;
use vstd::string::StrSliceExecFns;

use crate::manifest::{
    join_path, joined, text_bumped, text_with_suffix, toml_parses, version_of, Manifest,
    ManifestError, ManifestView,
};
use crate::version::{version_text, BumpLevel};

verus! {

/// Which commit message a manifest commit carries.
#[derive(Clone, Copy, Debug, PartialEq, Eq, Structural)]
pub enum GitCommitMessage {
    BumpVersionForRelease,
    BumpVersionForDev,
}

/// One step of a release run. Steps are data; the run interprets them.
#[derive(Clone, Copy, Debug, PartialEq, Eq, Structural)]
pub enum Step {
    /// Stops the run, successfully, where the working tree is dirty and that is not allowed.
    GitEnsureClean,
    /// Lists the dirty files, for the operator only: it never fails the run.
    GitShowDirty,
    CargoLoadManifest,
    /// Sets the configured pre-release label.
    ManifestSetVersionSuffix,
    /// Sets the pre-release label `dev`.
    ManifestSetVersionSuffixDev,
    CargoSaveManifest,
    /// Regenerates the lockfile.
    CargoUpdateWorkspace,
    /// Computes the version text that later steps use.
    ManifestPrintVersion,
    GitCommitManifest(GitCommitMessage),
    /// Fails the run where the fetch brought anything.
    GitFetch,
    GitRebase,
    GitPush,
    GitTag,
    GitPushTag,
    /// Bumps the version at the configured level.
    ManifestBumpLevel,
}

/// The full step sequence: the release half, then the development half.
pub open spec fn release_steps() -> Seq<Step> {
    seq![
        Step::GitEnsureClean,
        Step::CargoLoadManifest,
        Step::ManifestSetVersionSuffix,
        Step::CargoSaveManifest,
        Step::CargoUpdateWorkspace,
        Step::ManifestPrintVersion,
        Step::GitShowDirty,
        Step::GitCommitManifest(GitCommitMessage::BumpVersionForRelease),
        Step::GitFetch,
        Step::GitRebase,
        Step::GitPush,
        Step::GitTag,
        Step::GitPushTag,
        Step::ManifestBumpLevel,
        Step::ManifestSetVersionSuffixDev,
        Step::CargoSaveManifest,
        Step::CargoUpdateWorkspace,
        Step::ManifestPrintVersion,
        Step::GitShowDirty,
        Step::GitCommitManifest(GitCommitMessage::BumpVersionForDev),
        Step::GitFetch,
        Step::GitRebase,
        Step::GitPush,
        Step::GitShowDirty,
    ]
}

/// Whether a step goes through the working tree.
pub open spec fn is_git_step(s: Step) -> bool {
    match s {
        Step::GitEnsureClean | Step::GitShowDirty | Step::GitCommitManifest(_) | Step::GitFetch
        | Step::GitRebase | Step::GitPush | Step::GitTag | Step::GitPushTag => true,
        _ => false,
    }
}

/// Whether a step works on the loaded manifest alone, with nothing from outside.
pub open spec fn is_internal(s: Step) -> bool {
    match s {
        Step::ManifestSetVersionSuffix | Step::ManifestSetVersionSuffixDev
        | Step::ManifestBumpLevel | Step::ManifestPrintVersion => true,
        _ => false,
    }
}

/// The configuration of a release run.
pub struct Config {
    pub bump_level: BumpLevel,
    pub pre_release_suffix: Seq<char>,
    pub allow_dirty: bool,
    pub skip_git: bool,
    pub skip_push: bool,
    pub skip_tag: bool,
    pub skip_all: bool,
    pub path: Seq<char>,
    pub steps: Seq<Step>,
}

/// Whether the skip switches keep a step: `skip_git` and `skip_all` drop every
/// working-tree step, `skip_push` the pushes, `skip_tag` the tag and its push.
pub open spec fn kept(c: Config, s: Step) -> bool {
    &&& !((c.skip_git || c.skip_all) && is_git_step(s))
    &&& !(c.skip_push && (s == Step::GitPush || s == Step::GitPushTag))
    &&& !(c.skip_tag && (s == Step::GitTag || s == Step::GitPushTag))
}

/// The steps that the skip switches keep, in their order.
pub open spec fn kept_steps(c: Config, steps: Seq<Step>) -> Seq<Step>
    decreases steps.len(),
{
    if steps.len() == 0 {
        Seq::empty()
    } else {
        kept_steps(c, steps.drop_last()) + if kept(c, steps.last()) {
            seq![steps.last()]
        } else {
            Seq::empty()
        }
    }
}

/// The steps that a run of the configuration executes.
pub open spec fn planned(c: Config) -> Seq<Step> {
    kept_steps(c, c.steps)
}

/// The configuration that `Release::new` gives.
pub open spec fn default_config() -> Config {
    Config {
        bump_level: BumpLevel::Patch,
        pre_release_suffix: "alpha"@,
        allow_dirty: false,
        skip_git: false,
        skip_push: false,
        skip_tag: false,
        skip_all: false,
        path: "."@,
        steps: release_steps(),
    }
}

/// Why a release run, or its configuration, failed.
#[derive(Debug)]
pub enum ReleaseError {
    /// The bump level is none of `patch`, `minor`, `major`.
    InvalidBumpLevel(String),
    /// A manifest operation failed.
    Manifest(ManifestError),
    /// The manifest file at the path is not a TOML document.
    Unparsable(String),
    /// A step needs the manifest before it was loaded.
    NoManifest,
    /// A step needs the version text before it was computed.
    NoVersion,
    /// The fetch brought new content: the operator has to reconcile it.
    FetchNotEmpty,
    /// A collaborator failed, with its message.
    Collaborator(String),
    /// The reply does not answer the pending request.
    UnexpectedReply,
}

/// A `ReleaseError` as plain values.
pub enum Failure {
    InvalidBumpLevel(Seq<char>),
    Manifest(ManifestError),
    Unparsable(Seq<char>),
    NoManifest,
    NoVersion,
    FetchNotEmpty,
    Collaborator(Seq<char>),
    UnexpectedReply,
}

impl View for ReleaseError {
    type V = Failure;

    open spec fn view(&self) -> Failure {
        match self {
            ReleaseError::InvalidBumpLevel(s) => Failure::InvalidBumpLevel(s@),
            ReleaseError::Manifest(e) => Failure::Manifest(*e),
            ReleaseError::Unparsable(p) => Failure::Unparsable(p@),
            ReleaseError::NoManifest => Failure::NoManifest,
            ReleaseError::NoVersion => Failure::NoVersion,
            ReleaseError::FetchNotEmpty => Failure::FetchNotEmpty,
            ReleaseError::Collaborator(s) => Failure::Collaborator(s@),
            ReleaseError::UnexpectedReply => Failure::UnexpectedReply,
        }
    }
}

/// What a manifest failure says to the operator.
pub open spec fn manifest_error_text(e: ManifestError) -> Seq<char> {
    match e {
        ManifestError::NotLoaded => "No manifest loaded!"@,
        ManifestError::Unparsable => "Couldn't parse manifest"@,
        ManifestError::UnsupportedVersionFormat => "Unsupported version format!"@,
        ManifestError::MalformedVersion => "Malformed version in manifest"@,
        ManifestError::InvalidSuffix => "Invalid pre-release suffix"@,
        ManifestError::VersionOverflow => "Version component out of range"@,
    }
}

/// What a failure says to the operator.
pub open spec fn failure_text(f: Failure) -> Seq<char> {
    match f {
        Failure::InvalidBumpLevel(s) => "Invalid bump level: "@ + s,
        Failure::Manifest(e) => manifest_error_text(e),
        Failure::Unparsable(p) => "Couldn't load manifest from >>"@ + p + "<<"@,
        Failure::NoManifest => "Tried to use the manifest without manifest"@,
        Failure::NoVersion => "Tried to tag without a release version"@,
        Failure::FetchNotEmpty => "Fetch was not empty. Please resolve manually!"@,
        Failure::Collaborator(s) => s,
        Failure::UnexpectedReply => "The reply does not answer the pending step"@,
    }
}

impl ReleaseError {
    /// The message for the operator.
    pub fn message(&self) -> (r: String)
        ensures
            r@ == failure_text(self@),
    {
        match self {
            ReleaseError::InvalidBumpLevel(s) => {
                let mut r = "Invalid bump level: ".to_owned();
                r.append(s.as_str());
                r
            },
            ReleaseError::Manifest(e) => match e {
                ManifestError::NotLoaded => "No manifest loaded!".to_owned(),
                ManifestError::Unparsable => "Couldn't parse manifest".to_owned(),
                ManifestError::UnsupportedVersionFormat => "Unsupported version format!".to_owned(),
                ManifestError::MalformedVersion => "Malformed version in manifest".to_owned(),
                ManifestError::InvalidSuffix => "Invalid pre-release suffix".to_owned(),
                ManifestError::VersionOverflow => "Version component out of range".to_owned(),
            },
            ReleaseError::Unparsable(p) => {
                let mut r = "Couldn't load manifest from >>".to_owned();
                r.append(p.as_str());
                r.append("<<");
                r
            },
            ReleaseError::NoManifest => "Tried to use the manifest without manifest".to_owned(),
            ReleaseError::NoVersion => "Tried to tag without a release version".to_owned(),
            ReleaseError::FetchNotEmpty => "Fetch was not empty. Please resolve manually!".to_owned(),
            ReleaseError::Collaborator(s) => s.clone(),
            ReleaseError::UnexpectedReply => "The reply does not answer the pending step".to_owned(),
        }
    }
}

/// How a run ended.
#[derive(Debug)]
pub enum Outcome {
    /// Every step completed.
    Released,
    /// The working tree was dirty and that was not allowed: nothing was done.
    StoppedDirty,
    /// A step failed; what earlier steps did stays as it is.
    Failed(ReleaseError),
}

pub enum OutcomeView {
    Released,
    StoppedDirty,
    Failed(Failure),
}

impl View for Outcome {
    type V = OutcomeView;

    open spec fn view(&self) -> OutcomeView {
        match self {
            Outcome::Released => OutcomeView::Released,
            Outcome::StoppedDirty => OutcomeView::StoppedDirty,
            Outcome::Failed(e) => OutcomeView::Failed(e@),
        }
    }
}

/// What a run asks of its collaborators next.
#[derive(Debug)]
pub enum Action {
    /// List the dirty files of the working tree.
    ListDirty,
    /// Read the manifest file at the path.
    ReadManifest(String),
    /// Write the text to the manifest file at the path.
    WriteManifest(String, String),
    /// Regenerate the lockfile of the workspace in the directory.
    UpdateLockfile(String),
    /// Stage exactly the files, then commit them with the message.
    Commit(Vec<String>, String),
    /// Fetch from the remote and tell how much it brought.
    Fetch,
    Rebase,
    Push,
    /// Create the annotated tag with the message.
    Tag(String, String),
    /// Push the tag.
    PushTag(String),
    /// The run is over.
    Finish(Outcome),
}

/// An `Action` as plain values.
pub enum Request {
    ListDirty,
    ReadManifest(Seq<char>),
    WriteManifest(Seq<char>, Seq<char>),
    UpdateLockfile(Seq<char>),
    Commit(Seq<Seq<char>>, Seq<char>),
    Fetch,
    Rebase,
    Push,
    Tag(Seq<char>, Seq<char>),
    PushTag(Seq<char>),
    Finish(OutcomeView),
}

impl View for Action {
    type V = Request;

    open spec fn view(&self) -> Request {
        match self {
            Action::ListDirty => Request::ListDirty,
            Action::ReadManifest(p) => Request::ReadManifest(p@),
            Action::WriteManifest(p, t) => Request::WriteManifest(p@, t@),
            Action::UpdateLockfile(p) => Request::UpdateLockfile(p@),
            Action::Commit(f, m) => Request::Commit(f@.map_values(|s: String| s@), m@),
            Action::Fetch => Request::Fetch,
            Action::Rebase => Request::Rebase,
            Action::Push => Request::Push,
            Action::Tag(n, m) => Request::Tag(n@, m@),
            Action::PushTag(n) => Request::PushTag(n@),
            Action::Finish(o) => Request::Finish(o@),
        }
    }
}

/// Whether a request goes to the working tree.
pub open spec fn is_tree_request(r: Request) -> bool {
    match r {
        Request::ListDirty | Request::Commit(..) | Request::Fetch | Request::Rebase
        | Request::Push | Request::Tag(..) | Request::PushTag(..) => true,
        _ => false,
    }
}

/// What a collaborator answers to the pending action.
#[derive(Debug)]
pub enum Reply {
    /// Nothing is pending: the first call of a run.
    Start,
    /// The action completed.
    Done,
    /// The dirty files of the working tree.
    Dirty(Vec<String>),
    /// The text that was read.
    Text(String),
    /// How many new objects the fetch brought.
    Fetched(u64),
    /// The action failed, with the collaborator's message.
    Failed(String),
}

/// A `Reply` as plain values: of the dirty files only their number matters.
pub enum ReplyView {
    Start,
    Done,
    Dirty(nat),
    Text(Seq<char>),
    Fetched(nat),
    Failed(Seq<char>),
}

impl View for Reply {
    type V = ReplyView;

    open spec fn view(&self) -> ReplyView {
        match self {
            Reply::Start => ReplyView::Start,
            Reply::Done => ReplyView::Done,
            Reply::Dirty(d) => ReplyView::Dirty(d@.len()),
            Reply::Text(t) => ReplyView::Text(t@),
            Reply::Fetched(n) => ReplyView::Fetched(*n as nat),
            Reply::Failed(m) => ReplyView::Failed(m@),
        }
    }
}

/// The manifest file of the package in `dir`.
pub open spec fn manifest_file(dir: Seq<char>) -> Seq<char> {
    joined(dir, "Cargo.toml"@)
}

/// The files that every manifest commit stages.
pub open spec fn commit_files() -> Seq<Seq<char>> {
    seq!["Cargo.toml"@, "Cargo.lock"@]
}

pub open spec fn commit_message(kind: GitCommitMessage, suffix: Seq<char>, version: Seq<char>) -> Seq<
    char,
> {
    match kind {
        GitCommitMessage::BumpVersionForRelease => "Bump version for "@ + suffix + " release - "@
            + version,
        GitCommitMessage::BumpVersionForDev => "Bump version back to dev release, and bump patch level - "@
            + version,
    }
}

pub open spec fn tag_message(version: Seq<char>) -> Seq<char> {
    ". Tag "@ + version
}

/// The state of a run as plain values.
pub struct RunView {
    pub suffix: Seq<char>,
    pub level: BumpLevel,
    pub allow_dirty: bool,
    pub path: Seq<char>,
    pub steps: Seq<Step>,
    /// The step being executed.
    pub index: nat,
    /// Whether the action of `steps[index]` was handed out and its reply is due.
    pub awaiting: bool,
    pub manifest: Option<ManifestView>,
    /// The version text, empty until computed.
    pub version: Seq<char>,
    pub outcome: Option<OutcomeView>,
}

/// The run that `start` begins for a configuration.
pub open spec fn initial_run(c: Config) -> RunView {
    RunView {
        suffix: c.pre_release_suffix,
        level: c.bump_level,
        allow_dirty: c.allow_dirty,
        path: c.path,
        steps: planned(c),
        index: 0,
        awaiting: false,
        manifest: None,
        version: Seq::empty(),
        outcome: None,
    }
}

/// The manifest after an edit whose result is `r`.
pub open spec fn edited(m: ManifestView, r: Result<Seq<char>, ManifestError>) -> Result<
    (Option<ManifestView>, Option<Seq<char>>),
    Failure,
> {
    match r {
        Ok(t) => Ok((Some(ManifestView { path: m.path, text: Some(t) }), None)),
        Err(e) => Err(Failure::Manifest(e)),
    }
}

/// What an internal step makes of the state: the new manifest, and the new
/// version text where it computes one.
pub open spec fn internal_effect(s: RunView, step: Step) -> Result<
    (Option<ManifestView>, Option<Seq<char>>),
    Failure,
> {
    match s.manifest {
        None => Err(Failure::NoManifest),
        Some(m) => match step {
            Step::ManifestSetVersionSuffix => edited(m, text_with_suffix(m.text, s.suffix)),
            Step::ManifestSetVersionSuffixDev => edited(m, text_with_suffix(m.text, "dev"@)),
            Step::ManifestBumpLevel => edited(m, text_bumped(m.text, s.level)),
            _ => match version_of(m.text) {
                Ok(v) => Ok((Some(m), Some(version_text(v)))),
                Err(e) => Err(Failure::Manifest(e)),
            },
        },
    }
}

/// What an outside step asks for.
pub open spec fn request_of(s: RunView, step: Step) -> Result<Request, Failure> {
    match step {
        Step::CargoLoadManifest => Ok(Request::ReadManifest(manifest_file(s.path))),
        Step::CargoSaveManifest => match s.manifest {
            Some(m) => match m.text {
                Some(t) => Ok(Request::WriteManifest(m.path, t)),
                None => Err(Failure::NoManifest),
            },
            None => Err(Failure::NoManifest),
        },
        Step::CargoUpdateWorkspace => Ok(Request::UpdateLockfile(s.path)),
        Step::GitCommitManifest(k) => Ok(
            Request::Commit(commit_files(), commit_message(k, s.suffix, s.version)),
        ),
        Step::GitFetch => Ok(Request::Fetch),
        Step::GitRebase => Ok(Request::Rebase),
        Step::GitPush => Ok(Request::Push),
        Step::GitTag => if s.version.len() == 0 {
            Err(Failure::NoVersion)
        } else {
            Ok(Request::Tag(s.version, tag_message(s.version)))
        },
        Step::GitPushTag => if s.version.len() == 0 {
            Err(Failure::NoVersion)
        } else {
            Ok(Request::PushTag(s.version))
        },
        _ => Ok(Request::ListDirty),
    }
}

/// What the reply to an outside step makes of the state: the manifest after
/// it, or how the run ends.
pub open spec fn reply_effect(s: RunView, step: Step, reply: ReplyView) -> Result<
    Option<ManifestView>,
    OutcomeView,
> {
    match reply {
        ReplyView::Failed(m) => if step == Step::GitShowDirty {
            Ok(s.manifest)
        } else {
            Err(OutcomeView::Failed(Failure::Collaborator(m)))
        },
        ReplyView::Dirty(n) => match step {
            Step::GitEnsureClean => if n > 0 && !s.allow_dirty {
                Err(OutcomeView::StoppedDirty)
            } else {
                Ok(s.manifest)
            },
            Step::GitShowDirty => Ok(s.manifest),
            _ => Err(OutcomeView::Failed(Failure::UnexpectedReply)),
        },
        ReplyView::Text(t) => match step {
            Step::CargoLoadManifest => if toml_parses(t) {
                Ok(Some(ManifestView { path: manifest_file(s.path), text: Some(t) }))
            } else {
                Err(OutcomeView::Failed(Failure::Unparsable(manifest_file(s.path))))
            },
            _ => Err(OutcomeView::Failed(Failure::UnexpectedReply)),
        },
        ReplyView::Fetched(n) => match step {
            Step::GitFetch => if n > 0 {
                Err(OutcomeView::Failed(Failure::FetchNotEmpty))
            } else {
                Ok(s.manifest)
            },
            _ => Err(OutcomeView::Failed(Failure::UnexpectedReply)),
        },
        ReplyView::Done => match step {
            Step::CargoSaveManifest | Step::CargoUpdateWorkspace | Step::GitCommitManifest(_)
            | Step::GitRebase | Step::GitPush | Step::GitTag | Step::GitPushTag => Ok(s.manifest),
            _ => Err(OutcomeView::Failed(Failure::UnexpectedReply)),
        },
        ReplyView::Start => Err(OutcomeView::Failed(Failure::UnexpectedReply)),
    }
}

/// The run ended with `o`.
pub open spec fn finish(s: RunView, o: OutcomeView) -> (RunView, Request) {
    (RunView { awaiting: false, outcome: Some(o), ..s }, Request::Finish(o))
}

/// Executes the internal steps from `s.index` on, up to the first outside step,
/// whose action is handed out, or to the end of the run.
pub open spec fn settle(s: RunView) -> (RunView, Request)
    decreases s.steps.len() - s.index,
{
    if s.index >= s.steps.len() {
        finish(s, OutcomeView::Released)
    } else {
        let step = s.steps[s.index as int];
        if is_internal(step) {
            match internal_effect(s, step) {
                Ok((m, v)) => settle(
                    RunView {
                        manifest: m,
                        version: match v {
                            Some(t) => t,
                            None => s.version,
                        },
                        index: s.index + 1,
                        ..s
                    },
                ),
                Err(f) => finish(s, OutcomeView::Failed(f)),
            }
        } else {
            match request_of(s, step) {
                Ok(r) => (RunView { awaiting: true, ..s }, r),
                Err(f) => finish(s, OutcomeView::Failed(f)),
            }
        }
    }
}

/// One move of a run on a reply: a finished run stays finished; a pending
/// step takes its reply; then the run goes on to its next action.
pub open spec fn transition(s: RunView, reply: ReplyView) -> (RunView, Request) {
    match s.outcome {
        Some(o) => (s, Request::Finish(o)),
        None => if s.awaiting {
            match reply_effect(s, s.steps[s.index as int], reply) {
                Ok(m) => settle(RunView { manifest: m, index: s.index + 1, awaiting: false, ..s }),
                Err(o) => finish(s, o),
            }
        } else {
            settle(s)
        },
    }
}

/// Whether a run state is one that the run's own moves reach.
pub open spec fn run_wf(s: RunView) -> bool {
    &&& s.index <= s.steps.len()
    &&& s.awaiting ==> s.index < s.steps.len() && !is_internal(s.steps[s.index as int])
    &&& s.awaiting ==> s.outcome is None
}

/// Whether two texts are the same.
pub(crate) fn same_text(a: &str, b: &str) -> (r: bool)
    ensures
        r == (a@ == b@),
{
    let n = a.unicode_len();
    if n != b.unicode_len() {
        return false;
    }
    let mut i: usize = 0;
    while i < n
        invariant
            n == a@.len(),
            n == b@.len(),
            i <= n,
            a@.subrange(0, i as int) == b@.subrange(0, i as int),
        decreases n - i,
    {
        if a.get_char(i) != b.get_char(i) {
            proof {
                assert(a@[i as int] != b@[i as int]);
            }
            return false;
        }
        proof {
            assert(a@.subrange(0, i + 1) =~= a@.subrange(0, i as int).push(a@[i as int]));
            assert(b@.subrange(0, i + 1) =~= b@.subrange(0, i as int).push(b@[i as int]));
        }
        i = i + 1;
    }
    proof {
        assert(a@ =~= a@.subrange(0, n as int));
        assert(b@ =~= b@.subrange(0, n as int));
    }
    true
}

/// The bump level that a name gives: `patch`, `minor` or `major`.
pub open spec fn bump_level_named(name: Seq<char>) -> Option<BumpLevel> {
    if name == "patch"@ {
        Some(BumpLevel::Patch)
    } else if name == "minor"@ {
        Some(BumpLevel::Minor)
    } else if name == "major"@ {
        Some(BumpLevel::Major)
    } else {
        None
    }
}

fn copy_error(e: &ReleaseError) -> (r: ReleaseError)
    ensures
        r@ == e@,
{
    match e {
        ReleaseError::InvalidBumpLevel(s) => ReleaseError::InvalidBumpLevel(s.clone()),
        ReleaseError::Manifest(m) => ReleaseError::Manifest(*m),
        ReleaseError::Unparsable(p) => ReleaseError::Unparsable(p.clone()),
        ReleaseError::NoManifest => ReleaseError::NoManifest,
        ReleaseError::NoVersion => ReleaseError::NoVersion,
        ReleaseError::FetchNotEmpty => ReleaseError::FetchNotEmpty,
        ReleaseError::Collaborator(s) => ReleaseError::Collaborator(s.clone()),
        ReleaseError::UnexpectedReply => ReleaseError::UnexpectedReply,
    }
}

fn copy_outcome(o: &Outcome) -> (r: Outcome)
    ensures
        r@ == o@,
{
    match o {
        Outcome::Released => Outcome::Released,
        Outcome::StoppedDirty => Outcome::StoppedDirty,
        Outcome::Failed(e) => Outcome::Failed(copy_error(e)),
    }
}

fn release_step_list() -> (r: Vec<Step>)
    ensures
        r@ == release_steps(),
{
    let r = vec![
        Step::GitEnsureClean,
        Step::CargoLoadManifest,
        Step::ManifestSetVersionSuffix,
        Step::CargoSaveManifest,
        Step::CargoUpdateWorkspace,
        Step::ManifestPrintVersion,
        Step::GitShowDirty,
        Step::GitCommitManifest(GitCommitMessage::BumpVersionForRelease),
        Step::GitFetch,
        Step::GitRebase,
        Step::GitPush,
        Step::GitTag,
        Step::GitPushTag,
        Step::ManifestBumpLevel,
        Step::ManifestSetVersionSuffixDev,
        Step::CargoSaveManifest,
        Step::CargoUpdateWorkspace,
        Step::ManifestPrintVersion,
        Step::GitShowDirty,
        Step::GitCommitManifest(GitCommitMessage::BumpVersionForDev),
        Step::GitFetch,
        Step::GitRebase,
        Step::GitPush,
        Step::GitShowDirty,
    ];
    proof {
        assert(r@ =~= release_steps());
    }
    r
}

/// A release: its configuration and the step sequence that a run executes.
#[derive(Debug)]
pub struct Release {
    bump_level: BumpLevel,
    pre_release_suffix: String,
    allow_dirty: bool,
    skip_git: bool,
    skip_push: bool,
    skip_tag: bool,
    skip_all: bool,
    path: String,
    steps: Vec<Step>,
}

impl View for Release {
    type V = Config;

    closed spec fn view(&self) -> Config {
        Config {
            bump_level: self.bump_level,
            pre_release_suffix: self.pre_release_suffix@,
            allow_dirty: self.allow_dirty,
            skip_git: self.skip_git,
            skip_push: self.skip_push,
            skip_tag: self.skip_tag,
            skip_all: self.skip_all,
            path: self.path@,
            steps: self.steps@,
        }
    }
}

impl Release {
    /// A release with level `patch`, label `alpha`, nothing skipped, a clean
    /// tree required, in the current directory, with the full step sequence.
    pub fn new() -> (r: Release)
        ensures
            r@ == default_config(),
    {
        Release {
            bump_level: BumpLevel::Patch,
            pre_release_suffix: "alpha".to_owned(),
            allow_dirty: false,
            skip_git: false,
            skip_push: false,
            skip_tag: false,
            skip_all: false,
            path: ".".to_owned(),
            steps: release_step_list(),
        }
    }

    pub fn set_pre_release_suffix(&mut self, pre_release_suffix: &str)
        ensures
            final(self)@ == (Config { pre_release_suffix: pre_release_suffix@, ..old(self)@ }),
    {
        self.pre_release_suffix = pre_release_suffix.to_owned();
    }

    /// Sets the level from its name; fails, changing nothing, on any other name.
    pub fn set_bump_level(&mut self, bump_level: &str) -> (r: Result<(), ReleaseError>)
        ensures
            match bump_level_named(bump_level@) {
                Some(l) => r is Ok && final(self)@ == (Config { bump_level: l, ..old(self)@ }),
                None => r is Err && r->Err_0@ == Failure::InvalidBumpLevel(bump_level@)
                    && final(self)@ == old(self)@,
            },
    {
        let level = if same_text(bump_level, "patch") {
            BumpLevel::Patch
        } else if same_text(bump_level, "minor") {
            BumpLevel::Minor
        } else if same_text(bump_level, "major") {
            BumpLevel::Major
        } else {
            return Err(ReleaseError::InvalidBumpLevel(bump_level.to_owned()));
        };
        self.bump_level = level;
        Ok(())
    }

    pub fn set_allow_dirty(&mut self, allow_dirty: bool)
        ensures
            final(self)@ == (Config { allow_dirty, ..old(self)@ }),
    {
        self.allow_dirty = allow_dirty;
    }

    pub fn set_skip_git(&mut self, skip_git: bool)
        ensures
            final(self)@ == (Config { skip_git, ..old(self)@ }),
    {
        self.skip_git = skip_git;
    }

    pub fn set_skip_push(&mut self, skip_push: bool)
        ensures
            final(self)@ == (Config { skip_push, ..old(self)@ }),
    {
        self.skip_push = skip_push;
    }

    pub fn set_skip_tag(&mut self, skip_tag: bool)
        ensures
            final(self)@ == (Config { skip_tag, ..old(self)@ }),
    {
        self.skip_tag = skip_tag;
    }

    pub fn set_skip_all(&mut self, skip_all: bool)
        ensures
            final(self)@ == (Config { skip_all, ..old(self)@ }),
    {
        self.skip_all = skip_all;
    }

    pub fn set_path(&mut self, path: &str)
        ensures
            final(self)@ == (Config { path: path@, ..old(self)@ }),
    {
        self.path = path.to_owned();
    }

    /// Whether the skip switches keep `s`.
    fn keeps(&self, s: Step) -> (r: bool)
        ensures
            r == kept(self@, s),
    {
        let git = match s {
            Step::GitEnsureClean | Step::GitShowDirty | Step::GitCommitManifest(_)
            | Step::GitFetch | Step::GitRebase | Step::GitPush | Step::GitTag | Step::GitPushTag => true,
            _ => false,
        };
        let pushes = match s {
            Step::GitPush | Step::GitPushTag => true,
            _ => false,
        };
        let tags = match s {
            Step::GitTag | Step::GitPushTag => true,
            _ => false,
        };
        let dropped = (self.skip_git || self.skip_all) && git || self.skip_push && pushes
            || self.skip_tag && tags;
        !dropped
    }

    /// The steps that a run executes: the step sequence less what the skip
    /// switches drop.
    pub fn planned_steps(&self) -> (r: Vec<Step>)
        ensures
            r@ == planned(self@),
    {
        let mut r: Vec<Step> = Vec::new();
        let mut i: usize = 0;
        while i < self.steps.len()
            invariant
                i <= self.steps@.len(),
                r@ == kept_steps(self@, self.steps@.subrange(0, i as int)),
            decreases self.steps.len() - i,
        {
            let s = self.steps[i];
            if self.keeps(s) {
                r.push(s);
            }
            proof {
                let pre = self.steps@.subrange(0, i + 1);
                assert(pre.drop_last() =~= self.steps@.subrange(0, i as int));
                assert(pre.last() == s);
                assert(r@ =~= kept_steps(self@, pre));
            }
            i = i + 1;
        }
        proof {
            assert(self.steps@.subrange(0, self.steps@.len() as int) =~= self.steps@);
        }
        r
    }

    /// Begins a run of this release.
    pub fn start(&self) -> (r: Run)
        ensures
            r@ == initial_run(self@),
            r.wf(),
    {
        Run {
            suffix: self.pre_release_suffix.clone(),
            level: self.bump_level,
            allow_dirty: self.allow_dirty,
            path: self.path.clone(),
            steps: self.planned_steps(),
            index: 0,
            awaiting: false,
            manifest: None,
            version: String::new(),
            outcome: None,
        }
    }
}

impl Default for Release {
    fn default() -> (r: Release)
        ensures
            r@ == default_config(),
    {
        Release::new()
    }
}

/// A run of a release in progress. It decides; its caller acts: each call of
/// `next` hands in the reply to the previous action and takes the next one.
pub struct Run {
    suffix: String,
    level: BumpLevel,
    allow_dirty: bool,
    path: String,
    steps: Vec<Step>,
    index: usize,
    awaiting: bool,
    manifest: Option<Manifest>,
    version: String,
    outcome: Option<Outcome>,
}

impl View for Run {
    type V = RunView;

    closed spec fn view(&self) -> RunView {
        RunView {
            suffix: self.suffix@,
            level: self.level,
            allow_dirty: self.allow_dirty,
            path: self.path@,
            steps: self.steps@,
            index: self.index as nat,
            awaiting: self.awaiting,
            manifest: match self.manifest {
                Some(m) => Some(m@),
                None => None,
            },
            version: self.version@,
            outcome: match self.outcome {
                Some(o) => Some(o@),
                None => None,
            },
        }
    }
}

impl Run {
    pub open spec fn wf(&self) -> bool {
        run_wf(self@)
    }

    fn finish(&mut self, o: Outcome) -> (a: Action)
        requires
            run_wf(old(self)@),
        ensures
            (final(self)@, a@) == finish(old(self)@, o@),
            run_wf(final(self)@),
    {
        let kept = copy_outcome(&o);
        self.outcome = Some(kept);
        self.awaiting = false;
        Action::Finish(o)
    }

    /// Executes an internal step on the manifest.
    fn internal(&mut self, step: Step) -> (r: Result<(), ReleaseError>)
        requires
            is_internal(step),
        ensures
            match internal_effect(old(self)@, step) {
                Ok((m, v)) => r is Ok && final(self)@ == (RunView {
                    manifest: m,
                    version: match v {
                        Some(t) => t,
                        None => old(self)@.version,
                    },
                    ..old(self)@
                }),
                Err(f) => r is Err && r->Err_0@ == f && final(self)@ == old(self)@,
            },
    {
        let mut m = match self.manifest.take() {
            Some(m) => m,
            None => return Err(ReleaseError::NoManifest),
        };
        let done = match step {
            Step::ManifestSetVersionSuffix => m.set_version_suffix(self.suffix.as_str()),
            Step::ManifestSetVersionSuffixDev => m.set_version_suffix("dev"),
            Step::ManifestBumpLevel => m.bump_version(self.level),
            _ => match m.get_pretty_version() {
                Ok(v) => {
                    self.version = v;
                    Ok(())
                },
                Err(e) => Err(e),
            },
        };
        self.manifest = Some(m);
        match done {
            Ok(()) => Ok(()),
            Err(e) => Err(ReleaseError::Manifest(e)),
        }
    }

    /// The action of an outside step.
    fn request(&self, step: Step) -> (r: Result<Action, ReleaseError>)
        requires
            !is_internal(step),
        ensures
            match request_of(self@, step) {
                Ok(q) => r is Ok && r->Ok_0@ == q,
                Err(f) => r is Err && r->Err_0@ == f,
            },
    {
        match step {
            Step::CargoLoadManifest => {
                proof {
                    reveal_strlit("Cargo.toml");
                }
                Ok(Action::ReadManifest(join_path(self.path.as_str(), "Cargo.toml")))
            },
            Step::CargoSaveManifest => match &self.manifest {
                Some(m) => match m.save() {
                    Some(t) => Ok(Action::WriteManifest(m.path().to_owned(), t)),
                    None => Err(ReleaseError::NoManifest),
                },
                None => Err(ReleaseError::NoManifest),
            },
            Step::CargoUpdateWorkspace => Ok(Action::UpdateLockfile(self.path.clone())),
            Step::GitCommitManifest(k) => {
                let files = vec!["Cargo.toml".to_owned(), "Cargo.lock".to_owned()];
                let message = match k {
                    GitCommitMessage::BumpVersionForRelease => {
                        let mut msg = "Bump version for ".to_owned();
                        msg.append(self.suffix.as_str());
                        msg.append(" release - ");
                        msg.append(self.version.as_str());
                        msg
                    },
                    GitCommitMessage::BumpVersionForDev => {
                        let mut msg = "Bump version back to dev release, and bump patch level - ".to_owned();
                        msg.append(self.version.as_str());
                        msg
                    },
                };
                proof {
                    assert(files@.map_values(|s: String| s@) =~= commit_files());
                }
                Ok(Action::Commit(files, message))
            },
            Step::GitFetch => Ok(Action::Fetch),
            Step::GitRebase => Ok(Action::Rebase),
            Step::GitPush => Ok(Action::Push),
            Step::GitTag => {
                if self.version.as_str().is_empty() {
                    return Err(ReleaseError::NoVersion);
                }
                let mut msg = ". Tag ".to_owned();
                msg.append(self.version.as_str());
                Ok(Action::Tag(self.version.clone(), msg))
            },
            Step::GitPushTag => {
                if self.version.as_str().is_empty() {
                    return Err(ReleaseError::NoVersion);
                }
                Ok(Action::PushTag(self.version.clone()))
            },
            _ => Ok(Action::ListDirty),
        }
    }

    /// Applies the reply to the pending step.
    fn apply(&mut self, step: Step, reply: Reply) -> (r: Result<(), Outcome>)
        ensures
            match reply_effect(old(self)@, step, reply@) {
                Ok(m) => r is Ok && final(self)@ == (RunView { manifest: m, ..old(self)@ }),
                Err(o) => r is Err && r->Err_0@ == o && final(self)@ == old(self)@,
            },
    {
        match reply {
            Reply::Failed(msg) => match step {
                Step::GitShowDirty => Ok(()),
                _ => Err(Outcome::Failed(ReleaseError::Collaborator(msg))),
            },
            Reply::Dirty(files) => match step {
                Step::GitEnsureClean => {
                    if files.len() > 0 && !self.allow_dirty {
                        Err(Outcome::StoppedDirty)
                    } else {
                        Ok(())
                    }
                },
                Step::GitShowDirty => Ok(()),
                _ => Err(Outcome::Failed(ReleaseError::UnexpectedReply)),
            },
            Reply::Text(t) => match step {
                Step::CargoLoadManifest => {
                    proof {
                        reveal_strlit("Cargo.toml");
                    }
                    let file = join_path(self.path.as_str(), "Cargo.toml");
                    let mut m = Manifest::new(file.as_str());
                    match m.load(t.as_str()) {
                        Ok(()) => {
                            self.manifest = Some(m);
                            Ok(())
                        },
                        Err(_) => Err(Outcome::Failed(ReleaseError::Unparsable(file))),
                    }
                },
                _ => Err(Outcome::Failed(ReleaseError::UnexpectedReply)),
            },
            Reply::Fetched(n) => match step {
                Step::GitFetch => {
                    if n > 0 {
                        Err(Outcome::Failed(ReleaseError::FetchNotEmpty))
                    } else {
                        Ok(())
                    }
                },
                _ => Err(Outcome::Failed(ReleaseError::UnexpectedReply)),
            },
            Reply::Done => match step {
                Step::CargoSaveManifest | Step::CargoUpdateWorkspace | Step::GitCommitManifest(_)
                | Step::GitRebase | Step::GitPush | Step::GitTag | Step::GitPushTag => Ok(()),
                _ => Err(Outcome::Failed(ReleaseError::UnexpectedReply)),
            },
            Reply::Start => Err(Outcome::Failed(ReleaseError::UnexpectedReply)),
        }
    }

    /// Executes internal steps up to the next outside step or the end.
    fn settle(&mut self) -> (a: Action)
        requires
            run_wf(old(self)@),
            !old(self)@.awaiting,
            old(self)@.outcome is None,
        ensures
            (final(self)@, a@) == settle(old(self)@),
            run_wf(final(self)@),
    {
        loop
            invariant
                run_wf(self@),
                !self@.awaiting,
                self@.outcome is None,
                settle(self@) == settle(old(self)@),
            decreases self.steps.len() - self.index,
        {
            if self.index >= self.steps.len() {
                return self.finish(Outcome::Released);
            }
            let step = self.steps[self.index];
            let internal = match step {
                Step::ManifestSetVersionSuffix | Step::ManifestSetVersionSuffixDev
                | Step::ManifestBumpLevel | Step::ManifestPrintVersion => true,
                _ => false,
            };
            if internal {
                match self.internal(step) {
                    Ok(()) => {
                        self.index = self.index + 1;
                    },
                    Err(e) => {
                        return self.finish(Outcome::Failed(e));
                    },
                }
            } else {
                match self.request(step) {
                    Ok(a) => {
                        self.awaiting = true;
                        return a;
                    },
                    Err(e) => {
                        return self.finish(Outcome::Failed(e));
                    },
                }
            }
        }
    }

    /// Hands in the reply to the previous action (`Reply::Start` on the first
    /// call) and takes the next action; `Action::Finish` once the run is over.
    pub fn next(&mut self, reply: Reply) -> (a: Action)
        requires
            old(self).wf(),
        ensures
            final(self).wf(),
            (final(self)@, a@) == transition(old(self)@, reply@),
    {
        if let Some(o) = &self.outcome {
            return Action::Finish(copy_outcome(o));
        }
        if self.awaiting {
            let step = self.steps[self.index];
            let n = self.steps.len();
            match self.apply(step, reply) {
                Ok(()) => {
                    assert(self.index < n);
                    self.index = self.index + 1;
                    self.awaiting = false;
                },
                Err(o) => {
                    return self.finish(o);
                },
            }
        }
        self.settle()
    }

    /// Whether the run is over.
    pub fn is_finished(&self) -> (r: bool)
        ensures
            r == self@.outcome is Some,
    {
        self.outcome.is_some()
    }
}

/// Each kept step is a step of the sequence that the switches keep, and each
/// step that the switches keep is kept.
proof fn lemma_kept_steps(c: Config, steps: Seq<Step>)
    ensures
        forall|j: int|
            0 <= j < kept_steps(c, steps).len() ==> kept(c, #[trigger] kept_steps(c, steps)[j])
                && steps.contains(kept_steps(c, steps)[j]),
        forall|i: int|
            0 <= i < steps.len() && kept(c, #[trigger] steps[i]) ==> kept_steps(c, steps).contains(
                steps[i],
            ),
    decreases steps.len(),
{
    if steps.len() > 0 {
        let init = steps.drop_last();
        lemma_kept_steps(c, init);
        let k = kept_steps(c, steps);
        let ki = kept_steps(c, init);
        assert forall|j: int| 0 <= j < k.len() implies kept(c, #[trigger] k[j]) && steps.contains(
            k[j],
        ) by {
            if j < ki.len() {
                assert(k[j] == ki[j]);
                let w = choose|w: int| 0 <= w < init.len() && init[w] == ki[j];
                assert(steps[w] == k[j]);
            } else {
                assert(k[j] == steps.last());
                assert(steps[steps.len() - 1] == k[j]);
            }
        }
        assert forall|i: int| 0 <= i < steps.len() && kept(c, #[trigger] steps[i]) implies k.contains(
            steps[i],
        ) by {
            if i < steps.len() - 1 {
                assert(init[i] == steps[i]);
                let w = choose|w: int| 0 <= w < ki.len() && ki[w] == steps[i];
                assert(k[w] == steps[i]);
            } else {
                assert(k[k.len() - 1] == steps[i]);
            }
        }
    }
}

/// Where the switches keep the first step, it is the first step kept.
proof fn lemma_kept_first(c: Config, steps: Seq<Step>)
    requires
        steps.len() > 0,
        kept(c, steps[0]),
    ensures
        kept_steps(c, steps).len() > 0,
        kept_steps(c, steps)[0] == steps[0],
    decreases steps.len(),
{
    let init = steps.drop_last();
    if steps.len() > 1 {
        assert(init[0] == steps[0]);
        lemma_kept_first(c, init);
        assert(kept_steps(c, steps)[0] == kept_steps(c, init)[0]);
    } else {
        assert(kept_steps(c, init) =~= Seq::<Step>::empty());
        assert(steps.last() == steps[0]);
    }
}

/// A finished run stays finished: every later reply gives back its outcome and
/// changes nothing.
pub proof fn lemma_finished_run_is_over(s: RunView, reply: ReplyView)
    requires
        s.outcome is Some,
    ensures
        transition(s, reply) == (s, Request::Finish(s.outcome->0)),
{
}

/// A run whose working tree is dirty, where that is not allowed, stops with
/// success and asks nothing more: its first action is the dirty check, a
/// non-empty answer ends it as stopped, and no later reply moves it.
pub proof fn lemma_dirty_tree_stops(c: Config, dirty: nat, later: ReplyView)
    requires
        c.steps == release_steps(),
        !c.skip_git,
        !c.skip_all,
        !c.allow_dirty,
        dirty > 0,
    ensures
        ({
            let (s1, a1) = transition(initial_run(c), ReplyView::Start);
            let (s2, a2) = transition(s1, ReplyView::Dirty(dirty));
            &&& a1 == Request::ListDirty
            &&& a2 == Request::Finish(OutcomeView::StoppedDirty)
            &&& transition(s2, later) == (s2, a2)
        }),
{
    assert(c.steps[0] == Step::GitEnsureClean);
    lemma_kept_first(c, c.steps);
}

/// A fetch that brought anything fails the run, and the run then asks
/// nothing more: no rebase, push, tag or tag push follows.
pub proof fn lemma_nonempty_fetch_fails(s: RunView, fetched: nat, later: ReplyView)
    requires
        run_wf(s),
        s.outcome is None,
        s.awaiting,
        s.steps[s.index as int] == Step::GitFetch,
        fetched > 0,
    ensures
        ({
            let (s1, a1) = transition(s, ReplyView::Fetched(fetched));
            &&& a1 == Request::Finish(OutcomeView::Failed(Failure::FetchNotEmpty))
            &&& transition(s1, later) == (s1, a1)
        }),
{
}

/// Settling a run whose steps hold no working-tree step asks nothing of the
/// working tree and keeps the steps.
proof fn lemma_settle_spares_tree(s: RunView)
    requires
        run_wf(s),
        s.outcome is None,
        forall|i: int| 0 <= i < s.steps.len() ==> !is_git_step(#[trigger] s.steps[i]),
    ensures
        !is_tree_request(settle(s).1),
        settle(s).0.steps == s.steps,
        run_wf(settle(s).0),
    decreases s.steps.len() - s.index,
{
    if s.index < s.steps.len() {
        let step = s.steps[s.index as int];
        if is_internal(step) {
            match internal_effect(s, step) {
                Ok((m, v)) => {
                    let t = RunView {
                        manifest: m,
                        version: match v {
                            Some(x) => x,
                            None => s.version,
                        },
                        index: s.index + 1,
                        ..s
                    };
                    lemma_settle_spares_tree(t);
                },
                Err(f) => {},
            }
        }
    }
}

/// With `skip_git` the run leaves the working tree alone: no step of it goes
/// through the working tree, yet it still saves the manifest and updates the
/// lockfile; and a run whose steps hold no working-tree step never asks
/// anything of the working tree, whatever the replies.
pub proof fn lemma_skip_git_spares_tree(c: Config, s: RunView, reply: ReplyView)
    requires
        c.skip_git,
        c.steps == release_steps(),
        run_wf(s),
        forall|i: int| 0 <= i < s.steps.len() ==> !is_git_step(#[trigger] s.steps[i]),
    ensures
        forall|i: int| 0 <= i < planned(c).len() ==> !is_git_step(#[trigger] planned(c)[i]),
        planned(c).contains(Step::CargoSaveManifest),
        planned(c).contains(Step::CargoUpdateWorkspace),
        initial_run(c).steps == planned(c),
        !is_tree_request(transition(s, reply).1),
        transition(s, reply).0.steps == s.steps,
        run_wf(transition(s, reply).0),
{
    lemma_kept_steps(c, c.steps);
    assert(c.steps[3] == Step::CargoSaveManifest);
    assert(c.steps[4] == Step::CargoUpdateWorkspace);
    assert(kept(c, c.steps[3]));
    assert(kept(c, c.steps[4]));
    if s.outcome is None {
        if s.awaiting {
            match reply_effect(s, s.steps[s.index as int], reply) {
                Ok(m) => {
                    lemma_settle_spares_tree(
                        RunView { manifest: m, index: s.index + 1, awaiting: false, ..s },
                    );
                },
                Err(o) => {},
            }
        } else {
            lemma_settle_spares_tree(s);
        }
    }
}

} // verus!
