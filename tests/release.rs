use omr_bumper::{Action, ManifestError, Outcome, Release, ReleaseError, Reply, Step};

/// A stand-in for the collaborators: a manifest file and the calls made.
struct World {
    manifest: String,
    dirty: Vec<String>,
    fetched: u64,
    fail_on: Option<&'static str>,
    calls: Vec<String>,
    commits: Vec<String>,
    tags: Vec<String>,
    writes: Vec<String>,
}

impl World {
    fn new(manifest: &str) -> World {
        World {
            manifest: manifest.to_string(),
            dirty: Vec::new(),
            fetched: 0,
            fail_on: None,
            calls: Vec::new(),
            commits: Vec::new(),
            tags: Vec::new(),
            writes: Vec::new(),
        }
    }

    fn answer(&mut self, action: &Action) -> Reply {
        let name = match action {
            Action::ListDirty => "dirty",
            Action::ReadManifest(_) => "read",
            Action::WriteManifest(_, _) => "write",
            Action::UpdateLockfile(_) => "lock",
            Action::Commit(_, _) => "commit",
            Action::Fetch => "fetch",
            Action::Rebase => "rebase",
            Action::Push => "push",
            Action::Tag(_, _) => "tag",
            Action::PushTag(_) => "push_tag",
            Action::Finish(_) => "finish",
        };
        self.calls.push(name.to_string());
        if self.fail_on == Some(name) {
            return Reply::Failed(format!("{} failed", name));
        }
        match action {
            Action::ListDirty => Reply::Dirty(self.dirty.clone()),
            Action::ReadManifest(_) => Reply::Text(self.manifest.clone()),
            Action::WriteManifest(_, text) => {
                self.manifest = text.clone();
                self.writes.push(text.clone());
                Reply::Done
            },
            Action::Commit(files, message) => {
                assert_eq!(files, &vec!["Cargo.toml".to_string(), "Cargo.lock".to_string()]);
                self.commits.push(message.clone());
                Reply::Done
            },
            Action::Fetch => Reply::Fetched(self.fetched),
            Action::Tag(name, _) => {
                self.tags.push(name.clone());
                Reply::Done
            },
            _ => Reply::Done,
        }
    }

    fn run(&mut self, release: &Release) -> Outcome {
        let mut run = release.start();
        let mut reply = Reply::Start;
        loop {
            match run.next(reply) {
                Action::Finish(o) => return o,
                action => reply = self.answer(&action),
            }
        }
    }

    fn tree_calls(&self) -> usize {
        self.calls
            .iter()
            .filter(|c| ["dirty", "commit", "fetch", "rebase", "push", "tag", "push_tag"].contains(&c.as_str()))
            .count()
    }
}

const DEV: &str = "[package]\nname = \"demo\"\nversion = \"0.3.0-dev\" # current\n";

fn release_rc() -> Release {
    let mut r = Release::new();
    r.set_pre_release_suffix("rc");
    r.set_bump_level("patch").unwrap();
    r
}

#[test]
fn full_release_from_dev_version() {
    let mut world = World::new(DEV);
    let outcome = world.run(&release_rc());
    assert!(matches!(outcome, Outcome::Released));
    assert!(world.writes[0].contains("version = \"0.3.0-rc\" # current"));
    assert!(world.commits[0].contains("Bump version for rc release - 0.3.0"));
    assert_eq!(world.tags, vec!["0.3.0-rc".to_string()]);
    assert!(world.manifest.contains("version = \"0.3.1-dev\" # current"));
    assert_eq!(world.commits.len(), 2);
    assert!(world.commits[1].contains("0.3.1-dev"));
    assert_eq!(
        world.commits[1],
        "Bump version back to dev release, and bump patch level - 0.3.1-dev"
    );
    assert_eq!(
        world.calls,
        vec![
            "dirty", "read", "write", "lock", "dirty", "commit", "fetch", "rebase", "push", "tag",
            "push_tag", "write", "lock", "dirty", "commit", "fetch", "rebase", "push", "dirty",
        ]
    );
}

#[test]
fn dirty_tree_stops_without_further_calls() {
    let mut world = World::new(DEV);
    world.dirty = vec![" src/lib.rs".to_string()];
    let outcome = world.run(&release_rc());
    assert!(matches!(outcome, Outcome::StoppedDirty));
    assert_eq!(world.calls, vec!["dirty"]);
    assert_eq!(world.manifest, DEV);
}

#[test]
fn allowed_dirty_tree_goes_on() {
    let mut world = World::new(DEV);
    world.dirty = vec![" src/lib.rs".to_string()];
    let mut release = release_rc();
    release.set_allow_dirty(true);
    assert!(matches!(world.run(&release), Outcome::Released));
    assert_eq!(world.tags, vec!["0.3.0-rc".to_string()]);
}

#[test]
fn nonempty_fetch_fails_before_rebase() {
    let mut world = World::new(DEV);
    world.fetched = 2;
    let outcome = world.run(&release_rc());
    assert!(matches!(outcome, Outcome::Failed(ReleaseError::FetchNotEmpty)));
    assert_eq!(world.calls.last().unwrap(), "fetch");
    assert!(!world.calls.iter().any(|c| c == "rebase" || c == "push" || c == "tag" || c == "push_tag"));
    assert!(world.manifest.contains("0.3.0-rc"));
}

#[test]
fn skip_git_leaves_tree_alone() {
    let mut world = World::new(DEV);
    let mut release = release_rc();
    release.set_skip_git(true);
    assert!(matches!(world.run(&release), Outcome::Released));
    assert_eq!(world.tree_calls(), 0);
    assert_eq!(world.calls, vec!["read", "write", "lock", "write", "lock"]);
    assert!(world.writes[0].contains("0.3.0-rc"));
    assert!(world.manifest.contains("0.3.1-dev"));
}

#[test]
fn skip_all_leaves_tree_alone() {
    let mut world = World::new(DEV);
    let mut release = release_rc();
    release.set_skip_all(true);
    assert!(matches!(world.run(&release), Outcome::Released));
    assert_eq!(world.tree_calls(), 0);
}

#[test]
fn skip_push_commits_and_tags_locally() {
    let mut world = World::new(DEV);
    let mut release = release_rc();
    release.set_skip_push(true);
    assert!(matches!(world.run(&release), Outcome::Released));
    assert!(!world.calls.iter().any(|c| c == "push" || c == "push_tag"));
    assert_eq!(world.commits.len(), 2);
    assert_eq!(world.tags.len(), 1);
}

#[test]
fn skip_tag_drops_tag_and_its_push() {
    let mut release = release_rc();
    release.set_skip_tag(true);
    let steps = release.planned_steps();
    assert!(!steps.contains(&Step::GitTag));
    assert!(!steps.contains(&Step::GitPushTag));
    assert!(steps.contains(&Step::GitPush));
    let mut world = World::new(DEV);
    assert!(matches!(world.run(&release), Outcome::Released));
    assert!(world.tags.is_empty());
}

#[test]
fn default_plan_is_full_sequence() {
    let steps = Release::new().planned_steps();
    assert_eq!(steps.len(), 24);
    assert_eq!(steps[0], Step::GitEnsureClean);
    assert_eq!(steps[13], Step::ManifestBumpLevel);
    assert_eq!(steps[23], Step::GitShowDirty);
}

#[test]
fn minor_bump_level_in_development_half() {
    let mut world = World::new(DEV);
    let mut release = release_rc();
    release.set_bump_level("minor").unwrap();
    assert!(matches!(world.run(&release), Outcome::Released));
    assert!(world.manifest.contains("0.4.0-dev"));
}

#[test]
fn invalid_bump_level_is_refused() {
    let mut release = Release::new();
    match release.set_bump_level("huge") {
        Err(ReleaseError::InvalidBumpLevel(name)) => assert_eq!(name, "huge"),
        other => panic!("unexpected {:?}", other),
    }
    assert!(release.set_bump_level("major").is_ok());
}

#[test]
fn collaborator_failure_ends_run() {
    let mut world = World::new(DEV);
    world.fail_on = Some("commit");
    match world.run(&release_rc()) {
        Outcome::Failed(ReleaseError::Collaborator(m)) => assert_eq!(m, "commit failed"),
        other => panic!("unexpected {:?}", other),
    }
    assert_eq!(world.calls.last().unwrap(), "commit");
    assert!(world.manifest.contains("0.3.0-rc"));
}

#[test]
fn unparsable_manifest_fails_run() {
    let mut world = World::new("[package\n");
    let outcome = world.run(&release_rc());
    match outcome {
        Outcome::Failed(e) => {
            assert!(matches!(e, ReleaseError::Unparsable(_)));
            assert_eq!(e.message(), "Couldn't load manifest from >>./Cargo.toml<<");
        },
        other => panic!("unexpected {:?}", other),
    }
    assert_eq!(world.calls, vec!["dirty", "read"]);
}

#[test]
fn malformed_version_fails_run() {
    let mut world = World::new("[package]\nversion = \"x\"\n");
    let outcome = world.run(&release_rc());
    assert!(matches!(outcome, Outcome::Failed(ReleaseError::Manifest(ManifestError::MalformedVersion))));
}

#[test]
fn wrong_reply_fails_run() {
    let mut run = release_rc().start();
    assert!(matches!(run.next(Reply::Start), Action::ListDirty));
    let a = run.next(Reply::Done);
    assert!(matches!(a, Action::Finish(Outcome::Failed(ReleaseError::UnexpectedReply))));
    assert!(run.is_finished());
}

#[test]
fn finished_run_repeats_outcome() {
    let mut world = World::new(DEV);
    world.dirty = vec![" a".to_string()];
    let release = release_rc();
    let mut run = release.start();
    assert!(matches!(run.next(Reply::Start), Action::ListDirty));
    assert!(matches!(run.next(Reply::Dirty(world.dirty.clone())), Action::Finish(Outcome::StoppedDirty)));
    assert!(matches!(run.next(Reply::Done), Action::Finish(Outcome::StoppedDirty)));
    assert!(matches!(run.next(Reply::Fetched(1)), Action::Finish(Outcome::StoppedDirty)));
}

#[test]
fn read_manifest_names_the_file() {
    let mut release = release_rc();
    release.set_path("proj");
    release.set_skip_git(true);
    let mut run = release.start();
    match run.next(Reply::Start) {
        Action::ReadManifest(p) => assert_eq!(p, "proj/Cargo.toml"),
        other => panic!("unexpected {:?}", other),
    }
    match run.next(Reply::Text(DEV.to_string())) {
        Action::WriteManifest(p, t) => {
            assert_eq!(p, "proj/Cargo.toml");
            assert!(t.contains("0.3.0-rc"));
        },
        other => panic!("unexpected {:?}", other),
    }
    match run.next(Reply::Done) {
        Action::UpdateLockfile(p) => assert_eq!(p, "proj"),
        other => panic!("unexpected {:?}", other),
    }
}

#[test]
fn tag_message_names_the_version() {
    let mut release = release_rc();
    release.set_skip_push(true);
    let mut run = release.start();
    let mut reply = Reply::Start;
    loop {
        match run.next(reply) {
            Action::ListDirty => reply = Reply::Dirty(Vec::new()),
            Action::ReadManifest(_) => reply = Reply::Text(DEV.to_string()),
            Action::Fetch => reply = Reply::Fetched(0),
            Action::Tag(name, message) => {
                assert_eq!(name, "0.3.0-rc");
                assert_eq!(message, ". Tag 0.3.0-rc");
                break;
            },
            Action::Finish(o) => panic!("unexpected {:?}", o),
            _ => reply = Reply::Done,
        }
    }
}

#[test]
fn failed_dirty_listing_for_display_goes_on() {
    let mut run = release_rc().start();
    assert!(matches!(run.next(Reply::Start), Action::ListDirty));
    assert!(matches!(run.next(Reply::Dirty(Vec::new())), Action::ReadManifest(_)));
    assert!(matches!(run.next(Reply::Text(DEV.to_string())), Action::WriteManifest(_, _)));
    assert!(matches!(run.next(Reply::Done), Action::UpdateLockfile(_)));
    assert!(matches!(run.next(Reply::Done), Action::ListDirty));
    match run.next(Reply::Failed("no git".to_string())) {
        Action::Commit(_, message) => assert_eq!(message, "Bump version for rc release - 0.3.0-rc"),
        other => panic!("unexpected {:?}", other),
    }
}

#[test]
fn failed_dirty_check_ends_run() {
    let mut world = World::new(DEV);
    world.fail_on = Some("dirty");
    assert!(matches!(world.run(&release_rc()), Outcome::Failed(ReleaseError::Collaborator(_))));
    assert_eq!(world.calls, vec!["dirty"]);
}

#[test]
fn default_release_matches_new() {
    let a = Release::default().planned_steps();
    let b = Release::new().planned_steps();
    assert_eq!(a, b);
}

#[test]
fn error_messages_for_the_operator() {
    assert_eq!(ReleaseError::FetchNotEmpty.message(), "Fetch was not empty. Please resolve manually!");
    assert_eq!(ReleaseError::InvalidBumpLevel("huge".to_string()).message(), "Invalid bump level: huge");
    assert_eq!(
        ReleaseError::Manifest(ManifestError::UnsupportedVersionFormat).message(),
        "Unsupported version format!"
    );
    assert_eq!(ReleaseError::Collaborator("git said no".to_string()).message(), "git said no");
    assert_eq!(ReleaseError::NoVersion.message(), "Tried to tag without a release version");
}
