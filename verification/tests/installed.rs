use rscoop::installed::{
    check_cache, complete_scan, ensure_apps_path, get_installed_packages_full,
    invalidate_installed_cache, refresh_installed_packages, refresh_scoop_path_if_needed,
    scan_installed_packages_internal, update_cache, AppsListing, RefreshPlan, RootRetry,
    ScanError, ScanPlan,
};
use rscoop::loader::{ActiveFiles, FileRead, PackageInput};
use rscoop::models::{InstallManifest, MatchSource, PackageManifest, ScoopPackage};
use rscoop::probe::{FileStat, FileTime, PackageDir, VersionDir};
use rscoop::state::{AppState, PackageVersionsCache, VersionsEntry};

fn is_stat(is_dir: bool, secs: i64) -> Option<FileStat> {
    Some(FileStat { is_dir, modified: Some(FileTime { secs, nanos: 0 }) })
}

fn is_package_dir(name: &str, secs: i64) -> PackageDir {
    PackageDir {
        name: Some(name.to_string()),
        dir: is_stat(true, 1),
        current: VersionDir {
            name: "current".to_string(),
            dir: is_stat(true, secs),
            install_json: is_stat(false, secs),
            manifest_json: is_stat(false, secs),
        },
        entries: vec![],
    }
}

fn is_input(name: &str, version: &str, secs: i64) -> PackageInput {
    PackageInput {
        dir: is_package_dir(name, secs),
        files: ActiveFiles {
            manifest: FileRead::Parsed(PackageManifest { description: None, version: version.to_string() }),
            install: FileRead::Parsed(InstallManifest { bucket: Some("main".to_string()) }),
        },
        buckets: vec![],
    }
}

fn is_record(name: &str) -> ScoopPackage {
    ScoopPackage {
        name: name.to_string(),
        version: "1".to_string(),
        source: "main".to_string(),
        updated: String::new(),
        is_installed: true,
        info: String::new(),
        match_source: MatchSource::NoMatch,
        is_versioned_install: false,
    }
}

fn is_listing(stamps: &[(&str, i64)]) -> AppsListing {
    AppsListing::Listed(stamps.iter().map(|(n, s)| is_package_dir(n, *s)).collect())
}

fn is_versions(fingerprint: &str) -> PackageVersionsCache {
    PackageVersionsCache {
        fingerprint: fingerprint.to_string(),
        versions_map: vec![VersionsEntry { name: "git".to_string(), versions: vec!["1".to_string()] }],
    }
}

#[test]
fn new_state_has_no_caches() {
    let state = AppState::new("C:\\scoop".to_string());
    assert_eq!(state.scoop_path(), "C:\\scoop");
    assert!(state.installed_packages.is_none());
    assert!(state.package_versions.is_none());
    assert_eq!(state.last_refresh_time(), None);
}

#[test]
fn cache_answers_only_its_own_fingerprint() {
    let mut state = AppState::new("r".to_string());
    assert_eq!(check_cache(&state, "1|a:1"), None);
    update_cache(&mut state, vec![is_record("a")], "1|a:1".to_string());
    assert_eq!(check_cache(&state, "1|a:1"), Some(vec![is_record("a")]));
    assert_eq!(check_cache(&state, "1|a:2"), None);
    assert_eq!(check_cache(&state, ""), None);
}

#[test]
fn update_replaces_the_cache_wholesale() {
    let mut state = AppState::new("r".to_string());
    update_cache(&mut state, vec![is_record("a"), is_record("b")], "x".to_string());
    update_cache(&mut state, vec![is_record("c")], "y".to_string());
    assert_eq!(check_cache(&state, "x"), None);
    assert_eq!(check_cache(&state, "y"), Some(vec![is_record("c")]));
}

#[test]
fn first_query_scans_and_second_hits_the_cache() {
    let mut state = AppState::new("r".to_string());
    let listing = is_listing(&[("git", 5), ("vim", 6)]);
    let inputs = vec![is_input("git", "2.0", 5), is_input("vim", "9.1", 6)];

    let plan = scan_installed_packages_internal(&state, &listing).unwrap();
    let fingerprint = match plan {
        ScanPlan::Rescan(fingerprint) => fingerprint,
        ScanPlan::Done(_) => panic!("the first query must scan"),
    };
    assert_eq!(fingerprint, "2|git:5000;vim:6000");
    let first = complete_scan(&mut state, fingerprint, &inputs);
    assert_eq!(first.len(), 2);

    match scan_installed_packages_internal(&state, &listing).unwrap() {
        ScanPlan::Done(second) => assert_eq!(second, first),
        ScanPlan::Rescan(_) => panic!("the second query must not scan"),
    }
}

#[test]
fn second_query_does_not_read_the_inputs() {
    let mut state = AppState::new("r".to_string());
    let listing = is_listing(&[("git", 5)]);
    let first = get_installed_packages_full(&mut state, &listing, &vec![is_input("git", "2.0", 5)]).unwrap();
    // other inputs, same listing: the cache answers
    let second = get_installed_packages_full(&mut state, &listing, &vec![is_input("git", "9.9", 5)]).unwrap();
    assert_eq!(first, second);
    assert_eq!(second[0].version, "2.0");
}

#[test]
fn changed_listing_scans_again() {
    let mut state = AppState::new("r".to_string());
    get_installed_packages_full(&mut state, &is_listing(&[("git", 5)]), &vec![is_input("git", "2.0", 5)]).unwrap();
    let again = get_installed_packages_full(&mut state, &is_listing(&[("git", 6)]), &vec![is_input("git", "2.1", 6)]).unwrap();
    assert_eq!(again[0].version, "2.1");
    assert_eq!(state.installed_packages.as_ref().unwrap().fingerprint, "1|git:6000");
}

#[test]
fn invalidation_forces_a_scan_of_the_same_listing() {
    let mut state = AppState::new("r".to_string());
    let listing = is_listing(&[("git", 5)]);
    get_installed_packages_full(&mut state, &listing, &vec![is_input("git", "2.0", 5)]).unwrap();
    state.package_versions = Some(is_versions("1|git:5000"));
    invalidate_installed_cache(&mut state);
    assert!(state.installed_packages.is_none());
    assert!(state.package_versions.is_none());
    assert_eq!(state.scoop_path(), "r");
    match scan_installed_packages_internal(&state, &listing).unwrap() {
        ScanPlan::Rescan(fingerprint) => assert_eq!(fingerprint, "1|git:5000"),
        ScanPlan::Done(_) => panic!("an invalidated cache must not answer"),
    }
    let again = get_installed_packages_full(&mut state, &listing, &vec![is_input("git", "2.5", 5)]).unwrap();
    assert_eq!(again[0].version, "2.5");
}

#[test]
fn missing_apps_directory_is_an_empty_list() {
    let mut state = AppState::new("r".to_string());
    update_cache(&mut state, vec![is_record("a")], "x".to_string());
    assert_eq!(get_installed_packages_full(&mut state, &AppsListing::Missing, &vec![]), Ok(vec![]));
    // the cache is left as it is
    assert_eq!(check_cache(&state, "x"), Some(vec![is_record("a")]));
}

#[test]
fn unreadable_apps_directory_is_an_error() {
    let mut state = AppState::new("r".to_string());
    assert_eq!(
        get_installed_packages_full(&mut state, &AppsListing::Unreadable, &vec![]),
        Err(ScanError::DirectoryRead)
    );
    assert!(state.installed_packages.is_none());
}

#[test]
fn empty_apps_directory_is_cached_too() {
    let mut state = AppState::new("r".to_string());
    let listing = AppsListing::Listed(vec![]);
    assert_eq!(get_installed_packages_full(&mut state, &listing, &vec![]), Ok(vec![]));
    assert_eq!(state.installed_packages.as_ref().unwrap().fingerprint, "0|");
    match scan_installed_packages_internal(&state, &listing).unwrap() {
        ScanPlan::Done(list) => assert!(list.is_empty()),
        ScanPlan::Rescan(_) => panic!("the cache must answer"),
    }
}

#[test]
fn debounce_window_is_one_second() {
    let mut state = AppState::new("r".to_string());
    assert!(!state.should_debounce_refresh(5));
    state.update_refresh_time(10_000);
    assert_eq!(state.last_refresh_time(), Some(10_000));
    assert!(state.should_debounce_refresh(10_000));
    assert!(state.should_debounce_refresh(10_999));
    assert!(!state.should_debounce_refresh(11_000));
    assert!(!state.should_debounce_refresh(u64::MAX));
    // a clock that went back counts as no time passed
    assert!(state.should_debounce_refresh(9_000));
}

#[test]
fn refresh_twice_within_200ms_returns_the_cached_list() {
    let mut state = AppState::new("r".to_string());
    let listing = is_listing(&[("git", 5)]);
    assert!(matches!(refresh_installed_packages(&mut state, 50_000), RefreshPlan::Rescan));
    let first = get_installed_packages_full(&mut state, &listing, &vec![is_input("git", "2.0", 5)]).unwrap();
    match refresh_installed_packages(&mut state, 50_200) {
        RefreshPlan::Debounced(second) => assert_eq!(second, first),
        RefreshPlan::Rescan => panic!("a refresh after 200 ms must be debounced"),
    }
    assert_eq!(state.last_refresh_time(), Some(50_000));
    assert!(state.installed_packages.is_some());
}

#[test]
fn refresh_at_time_zero_opens_a_window_too() {
    let mut state = AppState::new("root".to_string());
    assert!(matches!(refresh_installed_packages(&mut state, 0), RefreshPlan::Rescan));
    assert_eq!(state.last_refresh_time(), Some(0));
    update_cache(&mut state, vec![is_record("git")], "f".to_string());
    match refresh_installed_packages(&mut state, 200) {
        RefreshPlan::Debounced(packages) => assert_eq!(packages, vec![is_record("git")]),
        RefreshPlan::Rescan => panic!("a refresh 200 ms after the first must not scan"),
    }
    assert_eq!(state.last_refresh_time(), Some(0));
    assert!(matches!(refresh_installed_packages(&mut state, 1000), RefreshPlan::Rescan));
}

#[test]
fn refresh_after_1500ms_scans_again() {
    let mut state = AppState::new("r".to_string());
    let listing = is_listing(&[("git", 5)]);
    assert!(matches!(refresh_installed_packages(&mut state, 50_000), RefreshPlan::Rescan));
    get_installed_packages_full(&mut state, &listing, &vec![is_input("git", "2.0", 5)]).unwrap();
    state.package_versions = Some(is_versions("1|git:5000"));
    assert!(matches!(refresh_installed_packages(&mut state, 51_500), RefreshPlan::Rescan));
    assert_eq!(state.last_refresh_time(), Some(51_500));
    assert!(state.installed_packages.is_none());
    assert!(state.package_versions.is_none());
    assert!(matches!(scan_installed_packages_internal(&state, &listing), Ok(ScanPlan::Rescan(_))));
}

#[test]
fn refresh_within_the_window_scans_when_nothing_is_cached() {
    let mut state = AppState::new("r".to_string());
    assert!(matches!(refresh_installed_packages(&mut state, 50_000), RefreshPlan::Rescan));
    assert!(matches!(refresh_installed_packages(&mut state, 50_100), RefreshPlan::Rescan));
    assert_eq!(state.last_refresh_time(), Some(50_100));
}

#[test]
fn new_root_replaces_the_old_and_drops_the_installed_cache() {
    let mut state = AppState::new("C:\\old".to_string());
    update_cache(&mut state, vec![is_record("a")], "x".to_string());
    state.package_versions = Some(is_versions("x"));
    assert_eq!(refresh_scoop_path_if_needed(&mut state, Some("D:\\new".to_string())), Some("D:\\new".to_string()));
    assert_eq!(state.scoop_path(), "D:\\new");
    assert!(state.installed_packages.is_none());
    assert!(state.package_versions.is_some());
}

#[test]
fn same_root_keeps_the_cache() {
    let mut state = AppState::new("C:\\scoop".to_string());
    update_cache(&mut state, vec![is_record("a")], "x".to_string());
    assert_eq!(refresh_scoop_path_if_needed(&mut state, Some("C:\\scoop".to_string())), Some("C:\\scoop".to_string()));
    assert!(state.installed_packages.is_some());
    assert_eq!(refresh_scoop_path_if_needed(&mut state, None), None);
    assert_eq!(state.scoop_path(), "C:\\scoop");
    assert!(state.installed_packages.is_some());
}

#[test]
fn apps_path_is_looked_for_once_more() {
    let mut state = AppState::new("C:\\old".to_string());
    let unused = RootRetry { resolved: Some("D:\\other".to_string()), apps_is_dir: true };
    assert_eq!(ensure_apps_path(&mut state, true, unused), Some("C:\\old".to_string()));
    assert_eq!(state.scoop_path(), "C:\\old");

    let found = RootRetry { resolved: Some("D:\\new".to_string()), apps_is_dir: true };
    assert_eq!(ensure_apps_path(&mut state, false, found), Some("D:\\new".to_string()));
    assert_eq!(state.scoop_path(), "D:\\new");

    let still_missing = RootRetry { resolved: Some("E:\\bare".to_string()), apps_is_dir: false };
    assert_eq!(ensure_apps_path(&mut state, false, still_missing), None);
    assert_eq!(state.scoop_path(), "E:\\bare");

    let failed = RootRetry { resolved: None, apps_is_dir: false };
    assert_eq!(ensure_apps_path(&mut state, false, failed), None);
    assert_eq!(state.scoop_path(), "E:\\bare");
}

#[test]
fn set_scoop_path_keeps_the_caches() {
    let mut state = AppState::new("a".to_string());
    update_cache(&mut state, vec![is_record("a")], "x".to_string());
    state.set_scoop_path("b".to_string());
    assert_eq!(state.scoop_path(), "b");
    assert_eq!(check_cache(&state, "x"), Some(vec![is_record("a")]));
}
