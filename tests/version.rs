use omr_bumper::{BumpLevel, Version};

fn v(text: &str) -> Version {
    Version::parse(text).expect("a valid version")
}

#[test]
fn bump_minor_resets_patch() {
    assert_eq!(v("1.4.9").bump(BumpLevel::Minor).unwrap().to_text(), "1.5.0");
}

#[test]
fn bump_major_resets_minor_and_patch() {
    assert_eq!(v("1.4.9").bump(BumpLevel::Major).unwrap().to_text(), "2.0.0");
}

#[test]
fn bump_patch_increments_patch() {
    assert_eq!(v("1.4.9").bump(BumpLevel::Patch).unwrap().to_text(), "1.4.10");
}

#[test]
fn bump_keeps_labels() {
    assert_eq!(v("0.3.0-rc+b7").bump(BumpLevel::Patch).unwrap().to_text(), "0.3.1-rc+b7");
}

#[test]
fn bump_at_largest_component_is_refused() {
    assert!(v("1.2.18446744073709551615").bump(BumpLevel::Patch).is_none());
    assert!(v("1.2.18446744073709551615").bump(BumpLevel::Minor).is_some());
}

#[test]
fn suffix_replaces_earlier_label() {
    assert_eq!(v("1.2.3-beta").with_suffix("alpha").unwrap().to_text(), "1.2.3-alpha");
}

#[test]
fn empty_suffix_leaves_no_hyphen() {
    assert_eq!(v("1.2.3-beta").with_suffix("").unwrap().to_text(), "1.2.3");
}

#[test]
fn invalid_suffix_is_refused() {
    assert!(v("1.2.3").with_suffix("not valid").is_none());
    assert!(v("1.2.3").with_suffix("01").is_none());
}

#[test]
fn parse_reads_components() {
    let x = v("10.20.30-rc.1+build.5");
    assert_eq!(x.major, 10);
    assert_eq!(x.minor, 20);
    assert_eq!(x.patch, 30);
    assert_eq!(x.pre, "rc.1");
    assert_eq!(x.build, "build.5");
    assert_eq!(x.to_text(), "10.20.30-rc.1+build.5");
}

#[test]
fn parse_refuses_non_versions() {
    assert!(Version::parse("1.2").is_none());
    assert!(Version::parse("one.two.three").is_none());
    assert!(Version::parse("").is_none());
}

#[test]
fn to_text_of_zero_and_large_numbers() {
    assert_eq!(v("0.0.0").to_text(), "0.0.0");
    assert_eq!(v("18446744073709551615.100.7").to_text(), "18446744073709551615.100.7");
}

#[test]
fn suffix_rule_follows_semver() {
    let x = v("1.2.3");
    assert_eq!(x.with_suffix("rc.1").unwrap().to_text(), "1.2.3-rc.1");
    assert_eq!(x.with_suffix("0").unwrap().to_text(), "1.2.3-0");
    assert_eq!(x.with_suffix("0a.-x").unwrap().to_text(), "1.2.3-0a.-x");
    assert!(x.with_suffix("rc.").is_none());
    assert!(x.with_suffix(".rc").is_none());
    assert!(x.with_suffix("a..b").is_none());
    assert!(x.with_suffix("rc.01").is_none());
    assert!(x.with_suffix("é").is_none());
}
