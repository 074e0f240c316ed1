use omr_bumper::{Manifest, ManifestError};

const DOC: &str = "# the package\n[package]\nname = \"demo\"\nversion   =   \"1.2.3-beta\"  # keep me\nedition = \"2021\"\n\n[dependencies]\nserde = \"1\"\n";

fn loaded(text: &str) -> Manifest {
    let mut m = Manifest::new("demo/Cargo.toml");
    m.load(text).expect("a TOML document");
    m
}

#[test]
fn load_save_reload_round_trip() {
    let m = loaded(DOC);
    let saved = m.save().unwrap();
    assert_eq!(saved, DOC);
    let again = loaded(&saved);
    assert_eq!(again.get_pretty_version().unwrap(), m.get_pretty_version().unwrap());
    assert_eq!(again.save().unwrap(), DOC);
}

#[test]
fn set_suffix_keeps_surroundings() {
    let mut m = loaded(DOC);
    m.set_version_suffix("alpha").unwrap();
    let text = m.save().unwrap();
    assert_eq!(text, DOC.replace("1.2.3-beta", "1.2.3-alpha"));
    assert_eq!(m.get_pretty_version().unwrap(), "1.2.3-alpha");
}

#[test]
fn set_empty_suffix_removes_label() {
    let mut m = loaded(DOC);
    m.set_version_suffix("").unwrap();
    assert_eq!(m.get_pretty_version().unwrap(), "1.2.3");
    assert!(m.save().unwrap().contains("version   =   \"1.2.3\"  # keep me"));
}

#[test]
fn manifest_bumps_each_level() {
    let text = "[package]\nversion = \"1.4.9\"\n";
    let mut m = loaded(text);
    m.bump_minor_version().unwrap();
    assert_eq!(m.get_pretty_version().unwrap(), "1.5.0");
    m.bump_major_version().unwrap();
    assert_eq!(m.get_pretty_version().unwrap(), "2.0.0");
    m.bump_patch_version().unwrap();
    assert_eq!(m.get_pretty_version().unwrap(), "2.0.1");
    assert_eq!(m.save().unwrap(), "[package]\nversion = \"2.0.1\"\n");
}

#[test]
fn get_version_reads_components() {
    let m = loaded(DOC);
    let v = m.get_version().unwrap();
    assert_eq!((v.major, v.minor, v.patch), (1, 2, 3));
    assert_eq!(v.pre, "beta");
}

#[test]
fn nothing_loaded_is_an_error() {
    let mut m = Manifest::new("Cargo.toml");
    assert!(matches!(m.get_version(), Err(ManifestError::NotLoaded)));
    assert!(matches!(m.set_version_suffix("rc"), Err(ManifestError::NotLoaded)));
    assert!(m.save().is_none());
    assert_eq!(m.path(), "Cargo.toml");
}

#[test]
fn unparsable_text_is_refused() {
    let mut m = Manifest::new("Cargo.toml");
    assert_eq!(m.load("[package\nversion = "), Err(ManifestError::Unparsable));
    assert!(m.save().is_none());
}

#[test]
fn missing_or_non_string_version_is_unsupported() {
    let m = loaded("[package]\nname = \"x\"\n");
    assert!(matches!(m.get_version(), Err(ManifestError::UnsupportedVersionFormat)));
    let m = loaded("[package]\nversion = 3\n");
    assert!(matches!(m.get_version(), Err(ManifestError::UnsupportedVersionFormat)));
    let m = loaded("name = \"x\"\n");
    assert!(matches!(m.get_pretty_version(), Err(ManifestError::UnsupportedVersionFormat)));
}

#[test]
fn malformed_version_is_an_error() {
    let mut m = loaded("[package]\nversion = \"one\"\n");
    assert!(matches!(m.get_version(), Err(ManifestError::MalformedVersion)));
    assert_eq!(m.bump_patch_version(), Err(ManifestError::MalformedVersion));
}

#[test]
fn invalid_suffix_leaves_manifest_unchanged() {
    let mut m = loaded(DOC);
    assert_eq!(m.set_version_suffix("no spaces"), Err(ManifestError::InvalidSuffix));
    assert_eq!(m.save().unwrap(), DOC);
}

#[test]
fn bump_overflow_is_an_error() {
    let mut m = loaded("[package]\nversion = \"18446744073709551615.0.0\"\n");
    assert_eq!(m.bump_major_version(), Err(ManifestError::VersionOverflow));
}

#[test]
fn inline_package_table_is_edited() {
    let mut m = loaded("package = { name = \"x\", version = \"0.1.0\" }\n");
    m.bump_minor_version().unwrap();
    assert_eq!(m.get_pretty_version().unwrap(), "0.2.0");
}
