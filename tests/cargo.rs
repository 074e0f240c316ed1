use omr_bumper::Cargo;

#[test]
fn paths_join_the_directory() {
    assert_eq!(Cargo::new(".").manifest_path(), "./Cargo.toml");
    assert_eq!(Cargo::new("dir/").lock_path(), "dir/Cargo.lock");
    assert_eq!(Cargo::new("").manifest_path(), "Cargo.toml");
}

#[test]
fn lockfile_checks() {
    assert!(!Cargo::lockfile_malformed("version = 3\n\n[[package]]\nname = \"a\"\n"));
    assert!(!Cargo::lockfile_malformed("  \n\t"));
    assert!(!Cargo::lockfile_malformed(""));
    assert!(Cargo::lockfile_malformed("garbage"));
    assert!(!Cargo::lockfile_malformed("x [package] y"));
}

#[test]
fn unicode_white_space_is_blank() {
    assert!(!Cargo::lockfile_malformed("\u{3000}\u{2028}\u{a0}\u{85}"));
    assert!(Cargo::lockfile_malformed("\u{200b}"));
}
