use rscoop::loader::{
    build_package_record, find_package_bucket, format_updated, load_package_details,
    scan_packages, ActiveFiles, BucketDir, FileRead, LoadError, PackageInput,
};
use rscoop::models::{InstallManifest, MatchSource, PackageManifest, ScoopPackage};
use rscoop::probe::{FileStat, FileTime, PackageDir, VersionDir};

fn ld_file(secs: i64) -> Option<FileStat> {
    Some(FileStat { is_dir: false, modified: Some(FileTime { secs, nanos: 0 }) })
}

fn ld_dir(secs: i64, nanos: u32) -> Option<FileStat> {
    Some(FileStat { is_dir: true, modified: Some(FileTime { secs, nanos }) })
}

fn ld_no_current() -> VersionDir {
    VersionDir { name: "current".to_string(), dir: None, install_json: None, manifest_json: None }
}

fn ld_current(secs: i64) -> VersionDir {
    VersionDir {
        name: "current".to_string(),
        dir: ld_dir(secs, 0),
        install_json: ld_file(secs),
        manifest_json: ld_file(secs),
    }
}

fn ld_package(name: &str) -> PackageDir {
    PackageDir {
        name: Some(name.to_string()),
        dir: ld_dir(1, 0),
        current: ld_current(1431648000),
        entries: vec![],
    }
}

fn ld_manifest(version: &str, description: Option<&str>) -> FileRead<PackageManifest> {
    FileRead::Parsed(PackageManifest {
        description: description.map(|d| d.to_string()),
        version: version.to_string(),
    })
}

fn ld_install(bucket: Option<&str>) -> FileRead<InstallManifest> {
    FileRead::Parsed(InstallManifest { bucket: bucket.map(|b| b.to_string()) })
}

fn ld_files(version: &str, bucket: Option<&str>) -> ActiveFiles {
    ActiveFiles { manifest: ld_manifest(version, Some("a tool")), install: ld_install(bucket) }
}

fn ld_bucket(name: &str, is_dir: bool, nested: bool) -> BucketDir {
    BucketDir {
        name: name.to_string(),
        is_dir,
        root_manifest: None,
        nested_manifest: if nested { Some(format!("buckets/{}/bucket/x.json", name)) } else { None },
    }
}

#[test]
fn load_gives_the_record_of_the_package() {
    let loaded = load_package_details(&ld_package("foo"), &ld_files("1.0", Some("main")), &vec![]);
    assert_eq!(
        loaded,
        Ok(ScoopPackage {
            name: "foo".to_string(),
            version: "1.0".to_string(),
            source: "main".to_string(),
            updated: "2015-05-15T00:00:00+00:00".to_string(),
            is_installed: true,
            info: "a tool".to_string(),
            match_source: MatchSource::NoMatch,
            is_versioned_install: false,
        })
    );
}

#[test]
fn load_fails_on_a_name_that_is_not_unicode() {
    let mut package = ld_package("foo");
    package.name = None;
    assert_eq!(
        load_package_details(&package, &ld_files("1.0", Some("main")), &vec![]),
        Err(LoadError::InvalidName)
    );
}

#[test]
fn load_fails_without_active_version() {
    let mut package = ld_package("foo");
    package.current = ld_no_current();
    assert_eq!(
        load_package_details(&package, &ld_files("1.0", Some("main")), &vec![]),
        Err(LoadError::NoActiveVersion)
    );
}

#[test]
fn load_fails_on_missing_manifest() {
    let files = ActiveFiles { manifest: FileRead::Unreadable, install: ld_install(Some("main")) };
    assert_eq!(
        load_package_details(&ld_package("foo"), &files, &vec![]),
        Err(LoadError::MissingManifest)
    );
}

#[test]
fn load_fails_on_invalid_manifest() {
    let files = ActiveFiles { manifest: FileRead::Malformed, install: FileRead::Unreadable };
    assert_eq!(
        load_package_details(&ld_package("foo"), &files, &vec![]),
        Err(LoadError::InvalidManifest)
    );
}

#[test]
fn load_fails_on_missing_install_record() {
    let files = ActiveFiles { manifest: ld_manifest("1.0", None), install: FileRead::Unreadable };
    assert_eq!(
        load_package_details(&ld_package("foo"), &files, &vec![]),
        Err(LoadError::MissingInstallRecord)
    );
}

#[test]
fn load_fails_on_invalid_install_record() {
    let files = ActiveFiles { manifest: ld_manifest("1.0", None), install: FileRead::Malformed };
    assert_eq!(
        load_package_details(&ld_package("foo"), &files, &vec![]),
        Err(LoadError::InvalidInstallRecord)
    );
}

#[test]
fn load_reports_the_first_failure() {
    let mut package = ld_package("foo");
    package.name = None;
    package.current = ld_no_current();
    let files = ActiveFiles { manifest: FileRead::Unreadable, install: FileRead::Unreadable };
    assert_eq!(load_package_details(&package, &files, &vec![]), Err(LoadError::InvalidName));
    package.name = Some("foo".to_string());
    assert_eq!(load_package_details(&package, &files, &vec![]), Err(LoadError::NoActiveVersion));
}

#[test]
fn load_takes_the_bucket_from_a_search_when_none_is_recorded() {
    let buckets = vec![
        ld_bucket("alpha", true, false),
        ld_bucket("beta", false, true),
        ld_bucket("extras", true, true),
        ld_bucket("zeta", true, true),
    ];
    let record = load_package_details(&ld_package("bar"), &ld_files("2.0", None), &buckets).unwrap();
    assert_eq!(record.source, "extras");
    assert!(!record.is_versioned_install);
}

#[test]
fn load_marks_a_versioned_install_when_no_bucket_is_found() {
    let buckets = vec![ld_bucket("alpha", true, false)];
    let record = load_package_details(&ld_package("bar"), &ld_files("2.0", None), &buckets).unwrap();
    assert_eq!(record.source, "");
    assert!(record.is_versioned_install);
}

#[test]
fn untraceable_package_does_not_name_a_bucket_that_lacks_it() {
    let buckets = vec![ld_bucket("main", true, false)];
    let record = load_package_details(&ld_package("bar"), &ld_files("2.0", None), &buckets).unwrap();
    assert_eq!(record.source, "");
    assert!(record.is_versioned_install);
}

#[test]
fn load_ignores_the_buckets_when_a_bucket_is_recorded() {
    let buckets = vec![ld_bucket("extras", true, true)];
    let record =
        load_package_details(&ld_package("bar"), &ld_files("2.0", Some("games")), &buckets).unwrap();
    assert_eq!(record.source, "games");
    assert!(!record.is_versioned_install);
}

#[test]
fn load_without_description_has_empty_info() {
    let files = ActiveFiles { manifest: ld_manifest("3", None), install: ld_install(Some("main")) };
    let record = load_package_details(&ld_package("bar"), &files, &vec![]).unwrap();
    assert_eq!(record.info, "");
    assert_eq!(record.version, "3");
}

#[test]
fn load_dates_the_record_by_the_active_directory() {
    let package = PackageDir {
        name: Some("bar".to_string()),
        dir: ld_dir(1, 0),
        current: ld_no_current(),
        entries: vec![
            VersionDir {
                name: "1.0".to_string(),
                dir: ld_dir(0, 0),
                install_json: ld_file(5),
                manifest_json: ld_file(5),
            },
            VersionDir {
                name: "2.0".to_string(),
                dir: ld_dir(1_000_000_000, 500_000_000),
                install_json: ld_file(6),
                manifest_json: ld_file(6),
            },
        ],
    };
    let record = load_package_details(&package, &ld_files("2.0", Some("main")), &vec![]).unwrap();
    assert_eq!(record.updated, "2001-09-09T01:46:40.500+00:00");
}

#[test]
fn updated_text_of_times() {
    assert_eq!(format_updated(&ld_dir(0, 0)), "1970-01-01T00:00:00+00:00");
    assert_eq!(format_updated(&ld_dir(-1, 0)), "1969-12-31T23:59:59+00:00");
    assert_eq!(format_updated(&ld_dir(1431648000, 123_456_789)), "2015-05-15T00:00:00.123456789+00:00");
    assert_eq!(format_updated(&None), "");
    assert_eq!(format_updated(&Some(FileStat { is_dir: true, modified: None })), "");
    assert_eq!(format_updated(&ld_dir(i64::MAX, 0)), "");
}

#[test]
fn bucket_search_takes_the_first_bucket_that_lists_the_package() {
    assert_eq!(find_package_bucket(&vec![]), None);
    assert_eq!(find_package_bucket(&vec![ld_bucket("a", true, false)]), None);
    assert_eq!(find_package_bucket(&vec![ld_bucket("a", false, true)]), None);
    assert_eq!(
        find_package_bucket(&vec![ld_bucket("a", true, false), ld_bucket("b", true, true), ld_bucket("c", true, true)]),
        Some("b".to_string())
    );
}

#[test]
fn bucket_search_ignores_a_manifest_at_the_top_of_a_bucket() {
    let bucket = BucketDir {
        name: "flat".to_string(),
        is_dir: true,
        root_manifest: Some("buckets/flat/x.json".to_string()),
        nested_manifest: None,
    };
    assert_eq!(find_package_bucket(&vec![bucket]), None);
}

#[test]
fn record_is_built_from_its_parts() {
    let manifest = PackageManifest { description: Some("d".to_string()), version: "v".to_string() };
    let install = InstallManifest { bucket: None };
    let record = build_package_record("n", &manifest, &install, Some("found".to_string()), "t".to_string());
    assert_eq!(
        record,
        ScoopPackage {
            name: "n".to_string(),
            version: "v".to_string(),
            source: "found".to_string(),
            updated: "t".to_string(),
            is_installed: true,
            info: "d".to_string(),
            match_source: MatchSource::NoMatch,
            is_versioned_install: false,
        }
    );
}

#[test]
fn missing_install_record_skips_the_package_only() {
    let inputs = vec![
        PackageInput { dir: ld_package("a"), files: ld_files("1", Some("main")), buckets: vec![] },
        PackageInput {
            dir: ld_package("broken"),
            files: ActiveFiles { manifest: ld_manifest("1", None), install: FileRead::Unreadable },
            buckets: vec![],
        },
        PackageInput { dir: ld_package("c"), files: ld_files("3", Some("extras")), buckets: vec![] },
    ];
    let packages = scan_packages(&inputs);
    let names: Vec<&str> = packages.iter().map(|p| p.name.as_str()).collect();
    assert_eq!(names, vec!["a", "c"]);
    assert_eq!(packages[1].version, "3");
    assert_eq!(packages[1].source, "extras");
    // the package that was left out is reported, for the log
    let skipped = rscoop::loader::skipped_packages(&inputs);
    assert_eq!(skipped.len(), 1);
    assert_eq!(skipped[0].name.as_deref(), Some("broken"));
    assert_eq!(skipped[0].reason, rscoop::loader::LoadError::MissingInstallRecord);
}

#[test]
fn scan_of_nothing_is_empty() {
    assert_eq!(scan_packages(&vec![]), vec![]);
}

#[test]
fn end_to_end_scan_of_two_packages() {
    // foo has a `current` marker; bar has a single version directory and no marker
    let foo = PackageInput {
        dir: PackageDir {
            name: Some("foo".to_string()),
            dir: ld_dir(10, 0),
            current: ld_current(1431648000),
            entries: vec![VersionDir {
                name: "1.0".to_string(),
                dir: ld_dir(1431648000, 0),
                install_json: ld_file(1431648000),
                manifest_json: ld_file(1431648000),
            }],
        },
        files: ActiveFiles { manifest: ld_manifest("1.0", None), install: ld_install(Some("main")) },
        buckets: vec![],
    };
    let bar_dir = || PackageDir {
        name: Some("bar".to_string()),
        dir: ld_dir(10, 0),
        current: ld_no_current(),
        entries: vec![VersionDir {
            name: "2.0".to_string(),
            dir: ld_dir(1431648060, 0),
            install_json: ld_file(1431648060),
            manifest_json: ld_file(1431648060),
        }],
    };
    let bar_found = PackageInput {
        dir: bar_dir(),
        files: ActiveFiles { manifest: ld_manifest("2.0", None), install: ld_install(None) },
        buckets: vec![ld_bucket("extras", true, true)],
    };
    let packages = scan_packages(&vec![foo, bar_found]);
    assert_eq!(packages.len(), 2);
    assert_eq!((packages[0].name.as_str(), packages[0].version.as_str(), packages[0].source.as_str()), ("foo", "1.0", "main"));
    assert!(!packages[0].is_versioned_install);
    assert_eq!((packages[1].name.as_str(), packages[1].version.as_str(), packages[1].source.as_str()), ("bar", "2.0", "extras"));
    assert!(!packages[1].is_versioned_install);
    assert_eq!(packages[1].updated, "2015-05-15T00:01:00+00:00");

    let bar_lost = PackageInput {
        dir: bar_dir(),
        files: ActiveFiles { manifest: ld_manifest("2.0", None), install: ld_install(None) },
        buckets: vec![ld_bucket("extras", true, false)],
    };
    let packages = scan_packages(&vec![bar_lost]);
    assert_eq!(packages.len(), 1);
    assert!(packages[0].is_versioned_install);
    assert!(packages[0].is_installed);
}
