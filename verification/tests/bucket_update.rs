use rscoop::bucket_update::{
    check_update, failed_update_result, missing_bucket_result, removal_result, update_result,
    GitUpdate,
};

#[test]
fn update_of_a_missing_bucket_is_refused() {
    let r = check_update("extras", "C:\\scoop\\buckets\\extras", false, false).unwrap();
    assert!(!r.success);
    assert_eq!(r.message, "Bucket 'extras' does not exist");
    assert_eq!(r.bucket_name, "extras");
    assert_eq!(r.bucket_path, None);
    assert_eq!(r.manifest_count, None);
}

#[test]
fn update_of_a_plain_directory_is_refused() {
    let r = check_update("extras", "C:\\scoop\\buckets\\extras", true, false).unwrap();
    assert!(!r.success);
    assert_eq!(r.message, "Bucket 'extras' is not a git repository and cannot be updated");
    assert_eq!(r.bucket_path.as_deref(), Some("C:\\scoop\\buckets\\extras"));
}

#[test]
fn update_of_a_repository_goes_on() {
    assert!(check_update("extras", "p", true, true).is_none());
}

#[test]
fn update_reports_by_outcome() {
    let cases: Vec<(GitUpdate, bool, &str, Option<u32>)> = vec![
        (
            GitUpdate::OpenFailed("bad repo".to_string()),
            false,
            "Failed to open bucket 'main' as git repository: bad repo",
            None,
        ),
        (GitUpdate::NoOrigin, false, "Bucket 'main' has no origin remote", None),
        (
            GitUpdate::FetchFailed("offline".to_string()),
            false,
            "Failed to fetch updates for bucket 'main': offline",
            None,
        ),
        (GitUpdate::NoHead, false, "Could not get current branch for bucket 'main'", None),
        (
            GitUpdate::NoBranchName,
            false,
            "Could not determine current branch for bucket 'main'",
            None,
        ),
        (GitUpdate::NoRemoteBranch, false, "Could not find remote branch for bucket 'main'", None),
        (GitUpdate::UpToDate(12), true, "Bucket 'main' is already up to date", Some(12)),
        (
            GitUpdate::Updated(1402),
            true,
            "Successfully updated bucket 'main' with 1402 manifests",
            Some(1402),
        ),
    ];
    for (outcome, success, message, count) in cases {
        let r = update_result("main", "/s/buckets/main", outcome).unwrap();
        assert_eq!(r.success, success);
        assert_eq!(r.message, message);
        assert_eq!(r.bucket_name, "main");
        assert_eq!(r.bucket_path.as_deref(), Some("/s/buckets/main"));
        assert_eq!(r.manifest_count, count);
    }
}

#[test]
fn failed_reset_is_an_error() {
    let r = update_result("main", "p", GitUpdate::ResetFailed("locked".to_string()));
    assert_eq!(r.unwrap_err(), "Failed to update bucket 'main': locked");
}

#[test]
fn failed_update_is_written_into_a_report() {
    let r = failed_update_result("main", "p", "Failed to update bucket 'main': locked".to_string());
    assert!(!r.success);
    assert_eq!(r.message, "Failed to update bucket 'main': locked");
    assert_eq!(r.bucket_name, "main");
    assert_eq!(r.bucket_path.as_deref(), Some("p"));
    assert_eq!(r.manifest_count, None);
}

#[test]
fn removal_reports() {
    let missing = missing_bucket_result("games");
    assert!(!missing.success);
    assert_eq!(missing.message, "Bucket 'games' does not exist");
    assert_eq!(missing.bucket_path, None);

    let removed = removal_result("games", "p", Ok(()));
    assert!(removed.success);
    assert_eq!(removed.message, "Successfully removed bucket 'games'");
    assert_eq!(removed.bucket_path, None);

    let failed = removal_result("games", "p", Err("in use".to_string()));
    assert!(!failed.success);
    assert_eq!(failed.message, "Failed to remove bucket 'games': in use");
    assert_eq!(failed.bucket_path.as_deref(), Some("p"));
}

fn bu_file(stem: Option<&str>, extension: Option<&str>, is_file: bool) -> rscoop::bucket_manifests::BucketFile {
    rscoop::bucket_manifests::BucketFile {
        stem: stem.map(String::from),
        extension: extension.map(String::from),
        is_file,
    }
}

#[test]
fn bucket_manifests_are_listed_in_order() {
    let root = vec![
        bu_file(Some("zeta"), Some("json"), true),
        bu_file(Some(".hidden"), Some("json"), true),
        bu_file(Some("bucket"), Some("json"), true),
        bu_file(Some("README"), Some("md"), true),
        bu_file(Some("dir"), Some("json"), false),
        bu_file(None, Some("json"), true),
        bu_file(Some("noext"), None, true),
    ];
    let nested = vec![
        bu_file(Some("git"), Some("json"), true),
        bu_file(Some("bucket"), Some("json"), true),
        bu_file(Some(".dot"), Some("json"), true),
        bu_file(Some("Alpha"), Some("json"), true),
        bu_file(Some("notes"), Some("txt"), true),
    ];
    assert_eq!(
        rscoop::bucket_manifests::list_bucket_manifests(&root, &nested),
        vec![".dot", "Alpha", "bucket", "git", "zeta (root)"]
    );
    assert!(rscoop::bucket_manifests::list_bucket_manifests(&Vec::new(), &Vec::new()).is_empty());
}

#[test]
fn missing_bucket_message_names_the_bucket() {
    assert_eq!(
        rscoop::bucket_manifests::missing_bucket_message("games"),
        "Bucket 'games' does not exist"
    );
}
