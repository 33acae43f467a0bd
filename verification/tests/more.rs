use rscoop::appinfo::FileEntry;
use rscoop::bucket_info::{get_last_updated, load_bucket_info, BucketInfoError, BucketProbe};
use rscoop::bucket_install::{
    install_failed_message, installed_result, plan_install, resolve_bucket,
    validate_bucket_install, validation_result, BucketTarget, InstallStep, ValidationStep,
};
use rscoop::info::{format_field_key, get_package_info, InstalledCopy, KeyOrder, ScoopInfo};
use rscoop::locate::is_package_held;
use rscoop::models::{MatchSource, ScoopPackage};
use rscoop::probe::{FileStat, FileTime};
use rscoop::schedule::{next_scheduler_step, SchedulerStep};
use rscoop::search::{
    any_match, find_match_source, is_match, mark_installed, parse_package_from_manifest,
    search_pattern, SearchResult,
};
use rscoop::sorting::sort_by;
use rscoop::text::TextOrder;

fn mr_pairs(items: &[(&str, &str)]) -> Vec<(String, String)> {
    items.iter().map(|(k, v)| (k.to_string(), v.to_string())).collect()
}

fn mr_package(name: &str) -> ScoopPackage {
    ScoopPackage {
        name: name.to_string(),
        version: "1".to_string(),
        source: "main".to_string(),
        updated: String::new(),
        is_installed: false,
        info: String::new(),
        match_source: MatchSource::Name,
        is_versioned_install: false,
    }
}

fn mr_json(name: &str) -> FileEntry {
    FileEntry { file_name: Some(name.to_string()), extension: Some("json".to_string()), is_file: true }
}

fn mr_probe() -> BucketProbe {
    BucketProbe {
        name: Some("extras".to_string()),
        path: "C:\\scoop\\buckets\\extras".to_string(),
        stat: Some(FileStat { is_dir: true, modified: Some(FileTime { secs: 1431648000, nanos: 5 }) }),
        root: vec![mr_json("a.json"), mr_json("bucket.json")],
        nested: vec![mr_json("b.json"), mr_json("c.json")],
        has_git_dir: true,
        git_url: Some("https://github.com/ScoopInstaller/Extras".to_string()),
        git_branch: Some("master".to_string()),
    }
}

#[test]
fn scheduler_sleeps_while_updates_are_off() {
    assert_eq!(next_scheduler_step("off", 1000, 10), SchedulerStep::Sleep(300));
    assert_eq!(next_scheduler_step("nonsense", 1000, 0), SchedulerStep::Sleep(300));
}

#[test]
fn scheduler_runs_the_first_update_at_once() {
    assert_eq!(next_scheduler_step("24h", 1000, 0), SchedulerStep::RunUpdate);
    assert_eq!(next_scheduler_step("0", 1000, 999), SchedulerStep::RunUpdate);
}

#[test]
fn scheduler_waits_for_the_interval() {
    assert_eq!(next_scheduler_step("1h", 10_000, 10_000 - 3600), SchedulerStep::RunUpdate);
    assert_eq!(next_scheduler_step("1h", 10_000, 10_000 - 3599), SchedulerStep::Sleep(1));
    assert_eq!(next_scheduler_step("1h", 10_000, 10_000 - 3541), SchedulerStep::Sleep(59));
    assert_eq!(next_scheduler_step("1h", 10_000, 10_000 - 3540), SchedulerStep::Sleep(60));
    assert_eq!(next_scheduler_step("1h", 10_000, 10_000), SchedulerStep::Sleep(60));
    assert_eq!(next_scheduler_step("custom:30", 10_000, 9_990), SchedulerStep::Sleep(20));
    // a clock that went back counts as no time passed
    assert_eq!(next_scheduler_step("custom:30", 10_000, 20_000), SchedulerStep::Sleep(30));
    assert_eq!(next_scheduler_step("18446744073709551615", u64::MAX, 1), SchedulerStep::Sleep(1));
}

#[test]
fn field_keys_are_capitalized() {
    assert_eq!(format_field_key("bin"), "Includes");
    assert_eq!(format_field_key("version"), "Version");
    assert_eq!(format_field_key("Version"), "Version");
    assert_eq!(format_field_key("x"), "X");
    assert_eq!(format_field_key(""), "");
    assert_eq!(format_field_key("ßeta"), "SSeta");
    assert_eq!(format_field_key("1st"), "1st");
    assert_eq!(format_field_key("Bin"), "Bin");
}

#[test]
fn package_info_of_a_package_that_is_not_installed() {
    let info = get_package_info(
        "git",
        mr_pairs(&[("Version", "2.1"), ("Description", "vcs"), ("Homepage", "h")]),
        Some("notes".to_string()),
        "main".to_string(),
        None,
        Some("2.1".to_string()),
    );
    assert_eq!(
        info.details,
        mr_pairs(&[("Name", "git"), ("Bucket", "main"), ("Description", "vcs"), ("Homepage", "h"), ("Version", "2.1")])
    );
    assert_eq!(info.notes, Some("notes".to_string()));
}

#[test]
fn package_info_shows_installed_and_latest_version() {
    let copy = || Some(InstalledCopy { path: "C:\\scoop\\apps\\git\\current".to_string(), version: Some("2.0".to_string()) });
    let info = get_package_info("git", mr_pairs(&[("Version", "2.1"), ("License", "MIT")]), None, "main".to_string(), copy(), Some("2.1".to_string()));
    assert_eq!(
        info.details,
        mr_pairs(&[
            ("Name", "git"),
            ("Bucket", "main"),
            ("Installed", "C:\\scoop\\apps\\git\\current"),
            ("Installed Version", "2.0"),
            ("Latest Version", "2.1"),
            ("License", "MIT"),
        ])
    );
    assert_eq!(info.notes, None);
    // same version: no latest version
    let info = get_package_info("git", mr_pairs(&[("Version", "2.0")]), None, "main".to_string(), copy(), Some("2.0".to_string()));
    assert_eq!(
        info.details,
        mr_pairs(&[("Name", "git"), ("Bucket", "main"), ("Installed", "C:\\scoop\\apps\\git\\current"), ("Installed Version", "2.0")])
    );
    // no version among the details: the installed version is appended
    let info = get_package_info("git", mr_pairs(&[("License", "MIT")]), None, "main".to_string(), copy(), Some("2.1".to_string()));
    assert_eq!(
        info.details,
        mr_pairs(&[("Name", "git"), ("Bucket", "main"), ("Installed", "C:\\scoop\\apps\\git\\current"), ("Installed Version", "2.0"), ("License", "MIT")])
    );
    // the installed manifest could not be read
    let unread = Some(InstalledCopy { path: "p".to_string(), version: None });
    let info = get_package_info("git", mr_pairs(&[("Version", "2.1")]), None, "main".to_string(), unread, Some("2.1".to_string()));
    assert_eq!(info.details, mr_pairs(&[("Name", "git"), ("Bucket", "main"), ("Installed", "p"), ("Version", "2.1")]));
}

#[test]
fn package_info_keeps_details_with_equal_keys_in_order() {
    let info = get_package_info(
        "x",
        mr_pairs(&[("b", "1"), ("a", "2"), ("b", "3"), ("Version", "v1"), ("Version", "v2"), ("a", "4")]),
        None,
        "B".to_string(),
        Some(InstalledCopy { path: "p".to_string(), version: Some("i".to_string()) }),
        None,
    );
    assert_eq!(
        info.details,
        mr_pairs(&[("Name", "x"), ("Bucket", "B"), ("Installed", "p"), ("Installed Version", "i"), ("Version", "v2"), ("a", "2"), ("a", "4"), ("b", "1"), ("b", "3")])
    );
    let empty = ScoopInfo::default();
    assert!(empty.details.is_empty() && empty.notes.is_none());
}

#[test]
fn generic_sort_is_stable_and_agrees_with_the_standard_library() {
    let input = mr_pairs(&[("c", "1"), ("a", "2"), ("b", "3"), ("c", "4"), ("a", "5"), ("", "6"), ("B", "7")]);
    let mut expected = input.clone();
    expected.sort_by(|a, b| a.0.cmp(&b.0));
    assert_eq!(sort_by(input, &KeyOrder), expected);
    let texts: Vec<String> = ["ccc", "a", "bb", "dd", "e", "", "fff", "a"].iter().map(|s| s.to_string()).collect();
    let mut by_text = texts.clone();
    by_text.sort();
    assert_eq!(sort_by(texts, &TextOrder), by_text);
    assert_eq!(sort_by(Vec::<String>::new(), &TextOrder), Vec::<String>::new());
}

#[test]
fn bucket_is_resolved_from_name_and_address() {
    let target = resolve_bucket("", "github.com/ScoopInstaller/scoop-Extras").unwrap();
    assert_eq!((target.bucket_name.as_str(), target.url.as_str()), ("extras", "https://github.com/ScoopInstaller/scoop-Extras.git"));
    let target = resolve_bucket(" Mine ", "o/r").unwrap();
    assert_eq!((target.bucket_name.as_str(), target.url.as_str()), ("mine", "https://github.com/o/r.git"));
    assert_eq!(resolve_bucket("x", "ftp").unwrap_err(), "URL must be a valid Git repository (GitHub, GitLab, or Bitbucket)");
    assert_eq!(
        resolve_bucket("", "https://example.org/o/r").unwrap_err(),
        "Could not extract bucket name from URL. Please provide a name."
    );
}

#[test]
fn validation_rejects_bad_addresses_and_names() {
    match validate_bucket_install("mine".to_string(), "nonsense".to_string()) {
        ValidationStep::Rejected(report) => {
            assert!(!report.success);
            assert_eq!(report.message, "Invalid URL: URL must be a valid Git repository (GitHub, GitLab, or Bitbucket)");
            assert_eq!(report.bucket_name, "mine");
            assert_eq!((report.bucket_path, report.manifest_count), (None, None));
        }
        ValidationStep::Resolved(_) => panic!("must be rejected"),
    }
    match validate_bucket_install(String::new(), "https://example.org/o/r".to_string()) {
        ValidationStep::Rejected(report) => {
            assert_eq!(report.message, "Invalid bucket name: Could not extract bucket name from URL. Please provide a name.");
            assert_eq!(report.bucket_name, "");
        }
        ValidationStep::Resolved(_) => panic!("must be rejected"),
    }
    match validate_bucket_install(String::new(), "https://github.com/o/Scoop-Games".to_string()) {
        ValidationStep::Resolved(target) => {
            assert_eq!((target.bucket_name.as_str(), target.url.as_str()), ("games", "https://github.com/o/Scoop-Games.git"));
        }
        ValidationStep::Rejected(_) => panic!("must be resolved"),
    }
}

#[test]
fn validation_reports_whether_the_bucket_exists() {
    let target = || BucketTarget { bucket_name: "games".to_string(), url: "https://github.com/o/g.git".to_string() };
    let fresh = validation_result(target(), None);
    assert!(fresh.success);
    assert_eq!(fresh.message, "Bucket 'games' can be installed from https://github.com/o/g.git");
    assert_eq!((fresh.bucket_name.as_str(), fresh.bucket_path, fresh.manifest_count), ("games", None, None));
    let taken = validation_result(target(), Some("C:\\scoop\\buckets\\games".to_string()));
    assert!(!taken.success);
    assert_eq!(taken.message, "Bucket 'games' already exists");
    assert_eq!(taken.bucket_path, Some("C:\\scoop\\buckets\\games".to_string()));
}

#[test]
fn install_is_refused_or_planned() {
    match plan_install("games", "p", true, false) {
        InstallStep::Refused(report) => {
            assert!(!report.success);
            assert_eq!(report.message, "Bucket 'games' already exists. Use force=true to reinstall.");
            assert_eq!((report.bucket_name.as_str(), report.bucket_path, report.manifest_count), ("games", Some("p".to_string()), None));
        }
        InstallStep::Clone { .. } => panic!("must be refused"),
    }
    assert!(matches!(plan_install("games", "p", true, true), InstallStep::Clone { remove_existing: true }));
    assert!(matches!(plan_install("games", "p", false, true), InstallStep::Clone { remove_existing: false }));
    assert!(matches!(plan_install("games", "p", false, false), InstallStep::Clone { remove_existing: false }));
}

#[test]
fn install_reports() {
    let report = installed_result("games", "p", 321);
    assert!(report.success);
    assert_eq!(report.message, "Successfully installed bucket 'games' with 321 manifests");
    assert_eq!((report.bucket_name.as_str(), report.bucket_path, report.manifest_count), ("games", Some("p".to_string()), Some(321)));
    assert_eq!(installed_result("g", "p", 0).message, "Successfully installed bucket 'g' with 0 manifests");
    assert_eq!(install_failed_message("games", "network down"), "Failed to install bucket 'games': network down");
}

#[test]
fn search_patterns() {
    assert_eq!(search_pattern("git"), "(?i)git");
    assert_eq!(search_pattern("  visual studio  "), "(?i)visual\\-studio");
    assert_eq!(search_pattern("\"7zip\""), "(?i)^7zip$");
    assert_eq!(search_pattern(" \" a b \" "), "(?i)^a\\-b$");
    assert_eq!(search_pattern("\""), "(?i)\"");
    assert_eq!(search_pattern("\"\""), "(?i)^$");
    assert_eq!(search_pattern("c++"), "(?i)c\\+\\+");
    assert_eq!(search_pattern(""), "(?i)");
    assert_eq!(search_pattern("\"open"), "(?i)\"open");
}

#[test]
fn search_matches_names_before_binaries() {
    let pattern = search_pattern("GIT");
    assert!(is_match(&pattern, "git-lfs"));
    assert!(is_match(&pattern, "LibGit2"));
    assert!(!is_match(&pattern, "vim"));
    assert!(!is_match("(unclosed", "anything"));
    let bins = vec!["bin\\tool.exe".to_string(), "git-gui".to_string()];
    assert!(any_match(&pattern, &bins));
    assert!(!any_match(&pattern, &vec![]));
    assert_eq!(find_match_source(&pattern, "git", &vec![]), MatchSource::Name);
    assert_eq!(find_match_source(&pattern, "tools", &bins), MatchSource::Binary);
    assert_eq!(find_match_source(&pattern, "tools", &vec!["x".to_string()]), MatchSource::NoMatch);
    let exact = search_pattern("\"git\"");
    assert_eq!(find_match_source(&exact, "git-lfs", &vec!["GIT".to_string()]), MatchSource::Binary);
    assert_eq!(find_match_source(&exact, "Git", &vec![]), MatchSource::Name);
}

#[test]
fn found_packages_are_marked_when_installed() {
    let mut found = vec![mr_package("Git"), mr_package("vim"), mr_package("ÄPP")];
    found[1].is_installed = true;
    let installed = vec![mr_package("git"), mr_package("äpp"), mr_package("other")];
    mark_installed(&mut found, &installed);
    assert_eq!(found.iter().map(|p| p.is_installed).collect::<Vec<_>>(), vec![true, true, true]);
    assert_eq!(found[0].name, "Git");
    let mut none = vec![mr_package("zip")];
    mark_installed(&mut none, &installed);
    assert!(!none[0].is_installed);
    mark_installed(&mut none, &vec![]);
    assert!(!none[0].is_installed);
    let record = parse_package_from_manifest("git", "2.1", "main", MatchSource::Binary);
    assert_eq!(
        record,
        ScoopPackage {
            name: "git".to_string(),
            version: "2.1".to_string(),
            source: "main".to_string(),
            updated: String::new(),
            is_installed: false,
            info: String::new(),
            match_source: MatchSource::Binary,
            is_versioned_install: false,
        }
    );
    let empty = SearchResult::default();
    assert!(empty.packages.is_empty() && !empty.is_cold);
}

#[test]
fn hold_is_read_from_the_install_record() {
    assert!(is_package_held("{\"bucket\":\"main\",\"hold\":true}"));
    assert!(!is_package_held("{\"bucket\":\"main\",\"hold\":false}"));
    assert!(!is_package_held("{\"bucket\":\"main\"}"));
    assert!(!is_package_held("{\"hold\":\"true\"}"));
    assert!(!is_package_held("{\"hold\":1}"));
    assert!(!is_package_held("[true]"));
    assert!(!is_package_held("not json"));
    assert!(!is_package_held(""));
}

#[test]
fn bucket_info_is_built_from_the_probe() {
    let info = load_bucket_info(&mr_probe()).unwrap();
    assert_eq!(info.name, "extras");
    assert_eq!(info.path, "C:\\scoop\\buckets\\extras");
    assert_eq!(info.manifest_count, 3);
    assert!(info.is_git_repo);
    assert_eq!(info.git_url, Some("https://github.com/ScoopInstaller/Extras".to_string()));
    assert_eq!(info.git_branch, Some("master".to_string()));
    assert_eq!(info.last_updated, Some("2015-05-15 00:00:00 UTC".to_string()));
}

#[test]
fn bucket_info_without_repository() {
    let mut probe = mr_probe();
    probe.has_git_dir = false;
    let info = load_bucket_info(&probe).unwrap();
    assert!(!info.is_git_repo);
    assert_eq!((info.git_url, info.git_branch), (None, None));
}

#[test]
fn bucket_info_errors() {
    let mut probe = mr_probe();
    probe.name = None;
    probe.stat = None;
    assert_eq!(load_bucket_info(&probe).unwrap_err(), BucketInfoError::InvalidName);
    probe.name = Some("x".to_string());
    assert_eq!(load_bucket_info(&probe).unwrap_err(), BucketInfoError::NotADirectory);
    probe.stat = Some(FileStat { is_dir: false, modified: None });
    assert_eq!(load_bucket_info(&probe).unwrap_err(), BucketInfoError::NotADirectory);
}

#[test]
fn last_update_of_a_bucket() {
    let at = |secs: i64| Some(FileStat { is_dir: true, modified: Some(FileTime { secs, nanos: 999_999_999 }) });
    assert_eq!(get_last_updated(&at(0)), Some("1970-01-01 00:00:00 UTC".to_string()));
    assert_eq!(get_last_updated(&at(1_700_000_000)), Some("2023-11-14 22:13:20 UTC".to_string()));
    assert_eq!(get_last_updated(&at(i64::MIN)), None);
    assert_eq!(get_last_updated(&None), None);
    assert_eq!(get_last_updated(&Some(FileStat { is_dir: true, modified: None })), None);
}

fn mr_link(relative: Option<&str>, local: Option<&str>, dir: Option<&str>) -> rscoop::shortcuts::LinkData {
    rscoop::shortcuts::LinkData {
        relative_path: relative.map(String::from),
        local_base_path: local.map(String::from),
        working_dir: dir.map(String::from),
        icon_location: Some("icon.ico".to_string()),
    }
}

#[test]
fn link_target_prefers_the_relative_path() {
    assert_eq!(rscoop::shortcuts::link_target(&mr_link(Some("..\\a.exe"), Some("C:\\b.exe"), None)), "..\\a.exe");
    assert_eq!(rscoop::shortcuts::link_target(&mr_link(Some(""), Some("C:\\b.exe"), None)), "C:\\b.exe");
    assert_eq!(rscoop::shortcuts::link_target(&mr_link(None, Some("C:\\b.exe"), None)), "C:\\b.exe");
    assert_eq!(rscoop::shortcuts::link_target(&mr_link(None, None, None)), "");
    assert_eq!(rscoop::shortcuts::link_target(&mr_link(Some(""), None, None)), "");
}

#[test]
fn relative_targets_begin_with_two_dots() {
    assert!(rscoop::shortcuts::is_relative_target("..\\..\\apps\\x\\x.exe"));
    assert!(rscoop::shortcuts::is_relative_target(".."));
    assert!(!rscoop::shortcuts::is_relative_target(".\\x.exe"));
    assert!(!rscoop::shortcuts::is_relative_target("C:\\x.exe"));
    assert!(!rscoop::shortcuts::is_relative_target(""));
}

#[test]
fn working_directory_of_a_shortcut() {
    let profile = || Some("C:\\Users\\me".to_string());
    let parent = || Some("C:\\apps\\x".to_string());

    let named = rscoop::shortcuts::parse_shortcut(mr_link(None, None, Some("D:\\work")), "C:\\apps\\x\\x.exe".into(), parent(), profile());
    assert_eq!(named.target_path, "C:\\apps\\x\\x.exe");
    assert_eq!(named.working_directory, "D:\\work");
    assert_eq!(named.icon_path.as_deref(), Some("icon.ico"));

    let by_parent = rscoop::shortcuts::parse_shortcut(mr_link(None, None, Some("")), "C:\\apps\\x\\x.exe".into(), parent(), profile());
    assert_eq!(by_parent.working_directory, "C:\\apps\\x");

    let no_parent = rscoop::shortcuts::parse_shortcut(mr_link(None, None, None), "C:\\".into(), None, profile());
    assert_eq!(no_parent.working_directory, "C:\\Users\\me");

    let no_target = rscoop::shortcuts::parse_shortcut(mr_link(None, None, None), String::new(), parent(), profile());
    assert_eq!(no_target.working_directory, "C:\\Users\\me");

    let nothing = rscoop::shortcuts::parse_shortcut(mr_link(None, None, None), String::new(), None, None);
    assert_eq!(nothing.working_directory, "C:\\");
    assert_eq!(nothing.target_path, "");
}

#[test]
fn new_version_is_told_from_the_recorded_one() {
    assert!(!rscoop::appinfo::is_new_version("1.2.3", "1.2.3"));
    assert!(!rscoop::appinfo::is_new_version("  1.2.3\r\n", "1.2.3"));
    assert!(rscoop::appinfo::is_new_version("1.2.2", "1.2.3"));
    assert!(rscoop::appinfo::is_new_version("", "1.2.3"));
    assert!(rscoop::appinfo::is_new_version("1.2.3", " 1.2.3"));
}
