use cargo_fresh::models::PackageInfo;
use cargo_fresh::package::apply_latest_versions;
use cargo_fresh::package::apply_prerelease_candidates;
use cargo_fresh::package::extract_version_from_line;
use cargo_fresh::package::filter_packages;
use cargo_fresh::package::get_installed_packages;
use cargo_fresh::package::get_installed_version;
use cargo_fresh::package::get_latest_version;
use cargo_fresh::package::is_stable_version;
use cargo_fresh::package::parse_package_line;
use cargo_fresh::package::partition_packages;

fn names(packages: &[PackageInfo]) -> Vec<&str> {
    packages.iter().map(|p| p.name.as_str()).collect()
}

#[test]
fn test_parse_package_line_basic() {
    let parsed = parse_package_line("serde v1.0.219:");
    assert_eq!(parsed, Some(("serde".to_string(), "1.0.219".to_string())));
}

#[test]
fn test_parse_package_line_text_after_colon() {
    let parsed = parse_package_line("cargo-edit v0.12.0: cargo-add, cargo-rm");
    assert_eq!(
        parsed,
        Some(("cargo-edit".to_string(), "0.12.0".to_string()))
    );
}

#[test]
fn test_parse_package_line_rejects_lines_without_separator_or_colon() {
    assert_eq!(parse_package_line(""), None);
    assert_eq!(parse_package_line("    ripgrep"), None);
    assert_eq!(parse_package_line("serde 1.0.219:"), None);
    assert_eq!(parse_package_line("serde v1.0.219"), None);
}

#[test]
fn test_parse_package_line_rejects_repeated_separator() {
    assert_eq!(parse_package_line("a v1 v2:"), None);
}

#[test]
fn test_parse_package_line_rejects_empty_segments() {
    assert_eq!(parse_package_line(" v1.0.0:"), None);
    assert_eq!(parse_package_line("name v :"), None);
}

#[test]
fn test_extract_version_from_line() {
    assert_eq!(
        extract_version_from_line("serde = \"1.0.219\"    # serialization framework"),
        Some("1.0.219".to_string())
    );
    assert_eq!(extract_version_from_line("serde 1.0.219"), None);
    assert_eq!(extract_version_from_line("serde = \"1.0.219"), None);
}

#[test]
fn test_is_stable_version() {
    assert!(is_stable_version("1.0.0"));
    assert!(!is_stable_version("1.2.0-beta.1"));
    assert!(!is_stable_version("2.0.0-rc.1"));
    assert!(!is_stable_version("0.1.0-alpha"));
}

#[test]
fn test_has_update_combinations() {
    let mut p = PackageInfo::new("demo".to_string(), Some("1.0.0".to_string()));
    assert!(!p.has_update());
    p.latest_version = Some("1.0.0".to_string());
    assert!(!p.has_update());
    p.latest_version = Some("1.1.0".to_string());
    assert!(p.has_update());
    p.current_version = None;
    assert!(!p.has_update());
}

#[test]
fn test_is_prerelease_cases() {
    let mut p = PackageInfo::new("demo".to_string(), Some("1.0.0".to_string()));
    assert!(!p.is_prerelease());
    p.latest_version = Some("1.2.0-beta.1".to_string());
    assert!(p.is_prerelease());
    p.latest_version = Some("1.2.0".to_string());
    assert!(!p.is_prerelease());
}

#[test]
fn test_get_installed_packages_parses_and_deduplicates() {
    let output = "ripgrep v13.0.0:\n    rg\nserde-tool v1.0.0:\nripgrep v14.0.0:\n";
    let packages = get_installed_packages(output);
    assert_eq!(names(&packages), vec!["ripgrep", "serde-tool"]);
    assert_eq!(packages[0].current_version, Some("13.0.0".to_string()));
    assert_eq!(packages[0].latest_version, None);
    assert_eq!(packages[1].current_version, Some("1.0.0".to_string()));
}

#[test]
fn test_get_installed_version_needs_exact_name() {
    let output = "abc v1.0.0:\na v2.0.0:\n";
    assert_eq!(get_installed_version(output, "a"), Some("2.0.0".to_string()));
    assert_eq!(get_installed_version(output, "abc"), Some("1.0.0".to_string()));
    assert_eq!(get_installed_version(output, "zzz"), None);
}

#[test]
fn test_get_latest_version_stable_policy_returns_nothing_for_prerelease() {
    let output = "pkg = \"2.0.0-rc.1\"    # description\n";
    assert_eq!(get_latest_version(output, "pkg", false), None);
}

#[test]
fn test_get_latest_version_prerelease_policy_accepts_prerelease() {
    let output = "pkg = \"2.0.0-rc.1\"    # description\n";
    assert_eq!(
        get_latest_version(output, "pkg", true),
        Some("2.0.0-rc.1".to_string())
    );
}

#[test]
fn test_get_latest_version_skips_prerelease_for_stable_callers() {
    let output = "pkg = \"2.0.0-rc.1\"\npkg = \"1.9.0\"\n";
    assert_eq!(
        get_latest_version(output, "pkg", false),
        Some("1.9.0".to_string())
    );
    assert_eq!(
        get_latest_version(output, "pkg", true),
        Some("2.0.0-rc.1".to_string())
    );
}

#[test]
fn test_get_latest_version_requires_exact_prefix() {
    let output = "mypkg = \"9.9.9\"\n";
    assert_eq!(get_latest_version(output, "pkg", true), None);
}

#[test]
fn test_filter_packages_is_case_insensitive() {
    let mut packages = vec![
        PackageInfo::new("serde-tool".to_string(), Some("1.0.0".to_string())),
        PackageInfo::new("ripgrep".to_string(), Some("13.0.0".to_string())),
    ];
    filter_packages(&mut packages, "SERDE");
    assert_eq!(names(&packages), vec!["serde-tool"]);
}

#[test]
fn test_filter_packages_wildcard() {
    let mut packages = vec![
        PackageInfo::new("cargo-edit".to_string(), Some("0.12.0".to_string())),
        PackageInfo::new("ripgrep".to_string(), Some("13.0.0".to_string())),
        PackageInfo::new("cargo-audit".to_string(), Some("0.18.0".to_string())),
    ];
    filter_packages(&mut packages, "cargo*");
    assert_eq!(names(&packages), vec!["cargo-edit", "cargo-audit"]);
}

#[test]
fn test_filter_packages_empty_pattern_keeps_all() {
    let mut packages = vec![
        PackageInfo::new("a".to_string(), Some("1".to_string())),
        PackageInfo::new("b".to_string(), Some("2".to_string())),
    ];
    filter_packages(&mut packages, "");
    assert_eq!(names(&packages), vec!["a", "b"]);
}

#[test]
fn test_apply_latest_versions_by_index() {
    let mut packages = vec![
        PackageInfo::new("a".to_string(), Some("1.0".to_string())),
        PackageInfo::new("b".to_string(), Some("2.0".to_string())),
    ];
    let found = vec![Some("1.1".to_string()), None];
    apply_latest_versions(&mut packages, &found);
    assert_eq!(packages[0].latest_version, Some("1.1".to_string()));
    assert_eq!(packages[1].latest_version, None);
    assert_eq!(packages[0].name, "a");
    assert_eq!(packages[1].current_version, Some("2.0".to_string()));
}

#[test]
fn test_apply_prerelease_candidates_only_overrides_with_new_prereleases() {
    let mut packages = vec![
        PackageInfo::new("a".to_string(), Some("1.0".to_string())),
        PackageInfo::new("b".to_string(), Some("2.0".to_string())),
        PackageInfo::new("c".to_string(), Some("3.0".to_string())),
    ];
    packages[0].latest_version = Some("1.1".to_string());
    let candidates = vec![
        Some("1.1".to_string()),
        Some("2.1-beta".to_string()),
        Some("3.0".to_string()),
    ];
    apply_prerelease_candidates(&mut packages, &candidates);
    // a: candidate is stable, so the known stable update stays
    assert_eq!(packages[0].latest_version, Some("1.1".to_string()));
    // b: a genuinely new prerelease overrides
    assert_eq!(packages[1].latest_version, Some("2.1-beta".to_string()));
    // c: candidate equals the current version, so nothing changes
    assert_eq!(packages[2].latest_version, None);
}

#[test]
fn test_partition_packages_disjoint_groups() {
    let mut a = PackageInfo::new("a".to_string(), Some("1.0".to_string()));
    a.latest_version = Some("1.1".to_string());
    let mut b = PackageInfo::new("b".to_string(), Some("2.0".to_string()));
    b.latest_version = Some("2.1-beta".to_string());
    let mut c = PackageInfo::new("c".to_string(), Some("3.0".to_string()));
    c.latest_version = Some("3.0".to_string());
    let d = PackageInfo::new("d".to_string(), Some("4.0".to_string()));
    let packages = vec![a, b, c, d];
    let (stable, prerelease) = partition_packages(&packages);
    assert_eq!(names(&stable), vec!["a"]);
    assert_eq!(names(&prerelease), vec!["b"]);
}

#[test]
fn test_end_to_end_stable_and_prerelease_updates() {
    // installed set {a@1.0, b@2.0}
    let mut packages = get_installed_packages("a v1.0:\nb v2.0:\n");
    assert_eq!(names(&packages), vec!["a", "b"]);

    // stable lookups: the registry offers a@1.1; b only has a prerelease
    let registry_a = "a = \"1.1\"\n";
    let registry_b = "b = \"2.0-beta\"\n";
    let found = vec![
        get_latest_version(registry_a, "a", false),
        get_latest_version(registry_b, "b", false),
    ];
    assert_eq!(found, vec![Some("1.1".to_string()), None]);
    apply_latest_versions(&mut packages, &found);

    // prerelease probe fills in b@2.0-beta and leaves a alone
    let candidates = vec![
        get_latest_version(registry_a, "a", true),
        get_latest_version(registry_b, "b", true),
    ];
    apply_prerelease_candidates(&mut packages, &candidates);

    let (stable, prerelease) = partition_packages(&packages);
    assert_eq!(names(&stable), vec!["a"]);
    assert_eq!(names(&prerelease), vec!["b"]);
}
