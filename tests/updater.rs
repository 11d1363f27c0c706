use sysmon::updater::{
    ends_with, parse_version_part, trim_leading_v, version_parts_of, GitHubAsset, GitHubRelease,
    UpdateInfo, Updater, CURRENT_VERSION,
};

fn asset(name: &str, url: &str) -> GitHubAsset {
    GitHubAsset { name: name.to_string(), browser_download_url: url.to_string() }
}

#[test]
fn newer_versions_compare_part_by_part() {
    let u = Updater::new();
    assert!(u.is_newer_version("1.2.3", "1.3.0"));
    assert!(u.is_newer_version("1.2.3", "2.0.0"));
    assert!(u.is_newer_version("1.2.3", "1.2.4"));
    assert!(!u.is_newer_version("1.2.3", "1.2.3"));
    assert!(!u.is_newer_version("1.2.3", "1.2.2"));
    assert!(!u.is_newer_version("2.0.0", "1.9.9"));
    assert!(u.is_newer_version("1.2", "1.2.1"));
    assert!(!u.is_newer_version("1.2.0", "1.2"));
    assert!(!u.is_newer_version("1.2.3", "1.2.3.9"));
    assert!(u.is_newer_version("0.9.10", "0.10.0"));
}

#[test]
fn version_parts_skip_what_is_no_number() {
    assert_eq!(version_parts_of("1.2.3"), vec![1, 2, 3]);
    assert_eq!(version_parts_of("1.x.3"), vec![1, 3]);
    assert_eq!(version_parts_of("1..3"), vec![1, 3]);
    assert_eq!(version_parts_of(""), Vec::<u32>::new());
    assert_eq!(version_parts_of("4294967296.1"), vec![1]);
    assert_eq!(version_parts_of("+7.-1.1-beta"), vec![7]);
    let u = Updater::new();
    assert!(u.is_newer_version("1.x.3", "1.4"));
}

#[test]
fn version_part_parse_rules() {
    assert_eq!(parse_version_part("0"), Some(0));
    assert_eq!(parse_version_part("007"), Some(7));
    assert_eq!(parse_version_part("+12"), Some(12));
    assert_eq!(parse_version_part("+"), None);
    assert_eq!(parse_version_part(""), None);
    assert_eq!(parse_version_part("4294967295"), Some(u32::MAX));
    assert_eq!(parse_version_part("4294967296"), None);
    assert_eq!(parse_version_part("99999999999x"), None);
    assert_eq!(parse_version_part("1 "), None);
    for s in ["0", "12", "+3", "", "+", "-1", "4294967296", "a1", "١"] {
        assert_eq!(parse_version_part(s), s.parse::<u32>().ok());
    }
}

#[test]
fn leading_v_and_suffix_helpers() {
    assert_eq!(trim_leading_v("v1.2.0"), "1.2.0");
    assert_eq!(trim_leading_v("vv2"), "2");
    assert_eq!(trim_leading_v("1.0v"), "1.0v");
    assert_eq!(trim_leading_v(""), "");
    assert!(ends_with("setup.exe", ".exe"));
    assert!(!ends_with("setup.exe", ".zip"));
    assert!(!ends_with("ip", ".zip"));
    assert!(ends_with("x", ""));
}

#[test]
fn new_updater_knows_only_its_own_version() {
    let u = Updater::new();
    let info = u.get_update_info();
    assert_eq!(info.current_version, CURRENT_VERSION);
    assert_eq!(info.latest_version, CURRENT_VERSION);
    assert!(!info.update_available);
    assert!(info.download_url.is_empty());
    let d = UpdateInfo::default();
    assert_eq!(d.latest_version, CURRENT_VERSION);
}

#[test]
fn check_for_updates_takes_in_a_newer_release() {
    let mut u = Updater::new();
    let release = GitHubRelease {
        tag_name: "v9.1.0".to_string(),
        assets: vec![
            asset("notes.txt", "https://example.com/notes.txt"),
            asset("app.zip", "https://example.com/app.zip"),
            asset("app.exe", "https://example.com/app.exe"),
        ],
    };
    let info = u.check_for_updates(Ok(release)).unwrap();
    assert_eq!(info.latest_version, "9.1.0");
    assert!(info.update_available);
    assert_eq!(info.download_url, "https://example.com/app.zip");
    assert_eq!(info.current_version, CURRENT_VERSION);
    assert_eq!(u.get_update_info().latest_version, "9.1.0");
    assert_eq!(u.clone().get_update_info().download_url, "https://example.com/app.zip");
}

#[test]
fn check_for_updates_with_an_older_release_and_no_installer() {
    let mut u = Updater::new();
    let first = GitHubRelease {
        tag_name: "v9.0.0".to_string(),
        assets: vec![asset("a.exe", "https://example.com/a.exe")],
    };
    u.check_for_updates(Ok(first)).unwrap();
    let older = GitHubRelease { tag_name: "0.0.1".to_string(), assets: vec![asset("src.tar.gz", "x")] };
    let info = u.check_for_updates(Ok(older)).unwrap();
    assert_eq!(info.latest_version, "0.0.1");
    assert!(!info.update_available);
    assert_eq!(info.download_url, "https://example.com/a.exe");
}

#[test]
fn check_for_updates_reports_a_failed_fetch() {
    let mut u = Updater::new();
    let r = u.check_for_updates(Err("no network".to_string()));
    assert_eq!(r.unwrap_err(), "Failed to check for updates: no network");
    assert_eq!(u.get_update_info().latest_version, CURRENT_VERSION);
    assert!(!u.get_update_info().update_available);
}
