use rscoop::fingerprint::compute_apps_fingerprint;
use rscoop::probe::{
    find_latest_version_dir, get_install_modification_time, get_package_stamp,
    get_path_modification_time, is_candidate_version, is_version_directory, locate_install_dir,
    ActiveVersion, FileStat, FileTime, PackageDir, VersionDir,
};

fn fp_file(secs: i64, nanos: u32) -> Option<FileStat> {
    Some(FileStat { is_dir: false, modified: Some(FileTime { secs, nanos }) })
}

fn fp_dir(secs: i64, nanos: u32) -> Option<FileStat> {
    Some(FileStat { is_dir: true, modified: Some(FileTime { secs, nanos }) })
}

fn fp_absent(name: &str) -> VersionDir {
    VersionDir { name: name.to_string(), dir: None, install_json: None, manifest_json: None }
}

fn fp_version(name: &str, install_secs: Option<i64>, manifest_secs: Option<i64>, dir_secs: i64) -> VersionDir {
    VersionDir {
        name: name.to_string(),
        dir: fp_dir(dir_secs, 0),
        install_json: install_secs.and_then(|s| fp_file(s, 0)),
        manifest_json: manifest_secs.and_then(|s| fp_file(s, 0)),
    }
}

fn fp_package(name: &str, install_secs: i64) -> PackageDir {
    PackageDir {
        name: Some(name.to_string()),
        dir: fp_dir(1, 0),
        current: fp_version("current", Some(install_secs), Some(3), 2),
        entries: vec![],
    }
}

#[test]
fn fingerprint_has_count_and_sorted_entries() {
    let dirs = vec![fp_package("Zed", 20), fp_package("abc", 10)];
    assert_eq!(compute_apps_fingerprint(&dirs), "2|abc:10000;zed:20000");
}

#[test]
fn fingerprint_of_nothing() {
    let dirs: Vec<PackageDir> = vec![];
    assert_eq!(compute_apps_fingerprint(&dirs), "0|");
}

#[test]
fn fingerprint_counts_unnamed_directories() {
    let unnamed =
        PackageDir { name: None, dir: fp_dir(5, 0), current: fp_absent("current"), entries: vec![] };
    let dirs = vec![unnamed, fp_package("git", 1)];
    assert_eq!(compute_apps_fingerprint(&dirs), "2|git:1000");
}

#[test]
fn fingerprint_is_order_independent() {
    let a = vec![fp_package("git", 7), fp_package("7zip", 9), fp_package("Vim", 3)];
    let b = vec![fp_package("Vim", 3), fp_package("git", 7), fp_package("7zip", 9)];
    let c = vec![fp_package("7zip", 9), fp_package("Vim", 3), fp_package("git", 7)];
    let expected = "3|7zip:9000;git:7000;vim:3000";
    assert_eq!(compute_apps_fingerprint(&a), expected);
    assert_eq!(compute_apps_fingerprint(&b), expected);
    assert_eq!(compute_apps_fingerprint(&c), expected);
}

#[test]
fn fingerprint_changes_with_one_stamp() {
    let before = vec![fp_package("git", 7), fp_package("vim", 3)];
    let after = vec![fp_package("git", 7), fp_package("vim", 4)];
    assert_ne!(compute_apps_fingerprint(&before), compute_apps_fingerprint(&after));
}

#[test]
fn fingerprint_changes_when_a_package_is_added_or_removed() {
    let two = vec![fp_package("git", 7), fp_package("vim", 3)];
    let three = vec![fp_package("git", 7), fp_package("vim", 3), fp_package("zip", 1)];
    let one = vec![fp_package("git", 7)];
    let base = compute_apps_fingerprint(&two);
    assert_ne!(base, compute_apps_fingerprint(&three));
    assert_ne!(base, compute_apps_fingerprint(&one));
}

#[test]
fn fingerprint_sorts_by_bytes() {
    // upper case is folded before sorting; digits come before letters
    let dirs = vec![fp_package("b", 1), fp_package("B2", 1), fp_package("a", 1), fp_package("10", 1)];
    assert_eq!(compute_apps_fingerprint(&dirs), "4|10:1000;a:1000;b2:1000;b:1000");
}

#[test]
fn fingerprint_uses_latest_version_without_current() {
    let package = PackageDir {
        name: Some("tool".to_string()),
        dir: fp_dir(100, 0),
        current: fp_absent("current"),
        entries: vec![
            fp_version("1.0", None, Some(5), 50),
            fp_version("2.0", Some(9), Some(4), 60),
        ],
    };
    assert_eq!(compute_apps_fingerprint(&vec![package]), "1|tool:9000");
}

#[test]
fn fingerprint_falls_back_to_package_directory() {
    let package = PackageDir {
        name: Some("empty".to_string()),
        dir: fp_dir(12, 345_000_000),
        current: fp_absent("current"),
        entries: vec![],
    };
    assert_eq!(compute_apps_fingerprint(&vec![package]), "1|empty:12345");
}

#[test]
fn path_stamp_is_in_milliseconds() {
    assert_eq!(get_path_modification_time(&fp_file(3, 999_999_999)), 3999);
    assert_eq!(get_path_modification_time(&fp_file(0, 1_000_000)), 1);
    assert_eq!(get_path_modification_time(&fp_file(i64::MAX, 0)), (i64::MAX as u128) * 1000);
}

#[test]
fn path_stamp_is_zero_without_a_usable_time() {
    assert_eq!(get_path_modification_time(&None), 0);
    assert_eq!(get_path_modification_time(&Some(FileStat { is_dir: true, modified: None })), 0);
    assert_eq!(get_path_modification_time(&fp_file(-1, 500)), 0);
}

#[test]
fn install_stamp_prefers_install_record_then_manifest_then_directory() {
    assert_eq!(get_install_modification_time(&fp_version("1", Some(7), Some(8), 9)), 7000);
    assert_eq!(get_install_modification_time(&fp_version("1", None, Some(8), 9)), 8000);
    assert_eq!(get_install_modification_time(&fp_version("1", None, None, 9)), 9000);
}

#[test]
fn install_stamp_does_not_fall_through_an_untimed_file() {
    let entry = VersionDir {
        name: "1".to_string(),
        dir: fp_dir(9, 0),
        install_json: Some(FileStat { is_dir: false, modified: None }),
        manifest_json: fp_file(8, 0),
    };
    assert_eq!(get_install_modification_time(&entry), 0);
}

#[test]
fn version_directory_needs_a_metadata_file() {
    assert!(is_version_directory(&fp_version("1", Some(1), None, 1)));
    assert!(is_version_directory(&fp_version("1", None, Some(1), 1)));
    assert!(!is_version_directory(&fp_version("1", None, None, 1)));
}

#[test]
fn candidate_excludes_marker_files_and_bare_directories() {
    assert!(is_candidate_version(&fp_version("1.2.3", Some(1), None, 1)));
    assert!(!is_candidate_version(&fp_version("current", Some(1), None, 1)));
    // only the entry named `current`, letter for letter, is the marker
    assert!(is_candidate_version(&fp_version("CURRENT", Some(1), None, 1)));
    assert!(is_candidate_version(&fp_version("Current", None, Some(1), 1)));
    assert!(!is_candidate_version(&fp_version("1.2.3", None, None, 1)));
    let file = VersionDir {
        name: "1.2.3".to_string(),
        dir: fp_file(1, 0),
        install_json: fp_file(1, 0),
        manifest_json: None,
    };
    assert!(!is_candidate_version(&file));
    assert!(!is_candidate_version(&fp_absent("1.2.3")));
}

#[test]
fn latest_version_is_the_one_modified_last() {
    let entries = vec![
        fp_version("1.0", Some(1), None, 10),
        fp_version("2.0", Some(1), None, 30),
        fp_version("1.5", Some(1), None, 20),
    ];
    assert_eq!(find_latest_version_dir(&entries), Some(1));
}

#[test]
fn latest_version_goes_by_the_time_of_the_directory() {
    // the first has the newer install record, the second the newer directory
    let entries = vec![
        fp_version("1.0", Some(500), Some(500), 10),
        fp_version("2.0", Some(100), Some(100), 20),
    ];
    assert_eq!(find_latest_version_dir(&entries), Some(1));
    let package = PackageDir {
        name: Some("bar".to_string()),
        dir: fp_dir(1, 0),
        current: fp_absent("current"),
        entries,
    };
    assert_eq!(locate_install_dir(&package), ActiveVersion::LatestVersion(1));
    // the stamp of the fingerprint is that of the install record of the active version
    assert_eq!(get_package_stamp(&package), 100_000);
}

#[test]
fn latest_version_prefers_the_first_of_equal_stamps() {
    let entries = vec![
        fp_version("current", Some(99), None, 99),
        fp_version("a", Some(10), None, 10),
        fp_version("b", Some(20), None, 10),
    ];
    assert_eq!(find_latest_version_dir(&entries), Some(1));
}

#[test]
fn latest_version_of_no_candidates() {
    assert_eq!(find_latest_version_dir(&vec![]), None);
    assert_eq!(find_latest_version_dir(&vec![fp_version("x", None, None, 5)]), None);
}

#[test]
fn fallback_selects_later_of_two_versions() {
    let package = PackageDir {
        name: Some("bar".to_string()),
        dir: fp_dir(1, 0),
        current: fp_absent("current"),
        entries: vec![fp_version("1.0", Some(100), Some(100), 100), fp_version("2.0", Some(200), Some(200), 200)],
    };
    assert_eq!(locate_install_dir(&package), ActiveVersion::LatestVersion(1));
    assert_eq!(get_package_stamp(&package), 200_000);
}

#[test]
fn current_marker_wins_over_versions() {
    let package = PackageDir {
        name: Some("foo".to_string()),
        dir: fp_dir(1, 0),
        current: fp_version("current", Some(5), None, 5),
        entries: vec![fp_version("9.9", Some(900), None, 900)],
    };
    assert_eq!(locate_install_dir(&package), ActiveVersion::Current);
    assert_eq!(get_package_stamp(&package), 5000);
}

#[test]
fn no_active_version_without_marker_or_versions() {
    let package = PackageDir {
        name: Some("foo".to_string()),
        dir: fp_dir(1, 0),
        current: VersionDir {
            name: "current".to_string(),
            dir: fp_file(1, 0),
            install_json: None,
            manifest_json: None,
        },
        entries: vec![fp_version("docs", None, None, 7)],
    };
    assert_eq!(locate_install_dir(&package), ActiveVersion::Absent);
    assert_eq!(get_package_stamp(&package), 1000);
}
