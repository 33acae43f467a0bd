use rscoop::loader::BucketDir;
use rscoop::locate::{locate_package_manifest, name_installed_bucket, ManifestSearch};

fn lc_bucket(name: &str, is_dir: bool, root: Option<&str>, nested: Option<&str>) -> BucketDir {
    BucketDir {
        name: name.to_string(),
        is_dir,
        root_manifest: root.map(|p| p.to_string()),
        nested_manifest: nested.map(|p| p.to_string()),
    }
}

fn lc_search(buckets: Vec<BucketDir>) -> ManifestSearch {
    ManifestSearch {
        buckets_is_dir: true,
        named_bucket: None,
        buckets,
        installed_manifest: None,
        install_record: None,
    }
}

#[test]
fn manifest_is_taken_from_the_named_bucket_first() {
    let mut search = lc_search(vec![lc_bucket("main", true, None, Some("main/bucket/git.json"))]);
    search.named_bucket = Some(lc_bucket("extras", true, None, Some("extras/bucket/git.json")));
    assert_eq!(
        locate_package_manifest(&search, "git", Some("extras".to_string())),
        Ok(("extras/bucket/git.json".to_string(), "extras".to_string()))
    );
}

#[test]
fn manifest_at_the_top_of_a_bucket_wins_over_the_nested_one() {
    let search = lc_search(vec![lc_bucket("flat", true, Some("flat/git.json"), Some("flat/bucket/git.json"))]);
    assert_eq!(
        locate_package_manifest(&search, "git", None),
        Ok(("flat/git.json".to_string(), "flat".to_string()))
    );
}

#[test]
fn manifest_is_searched_in_all_buckets_in_order() {
    let search = lc_search(vec![
        lc_bucket("a", true, None, None),
        lc_bucket("b", false, Some("b/git.json"), None),
        lc_bucket("c", true, None, Some("c/bucket/git.json")),
        lc_bucket("d", true, Some("d/git.json"), None),
    ]);
    assert_eq!(
        locate_package_manifest(&search, "git", None),
        Ok(("c/bucket/git.json".to_string(), "c".to_string()))
    );
}

#[test]
fn named_bucket_without_the_manifest_falls_back_to_all_buckets() {
    let mut search = lc_search(vec![lc_bucket("main", true, None, Some("main/bucket/git.json"))]);
    search.named_bucket = Some(lc_bucket("extras", true, None, None));
    assert_eq!(
        locate_package_manifest(&search, "git", Some("extras".to_string())),
        Ok(("main/bucket/git.json".to_string(), "main".to_string()))
    );
}

#[test]
fn source_none_or_empty_names_no_bucket() {
    let mut search = lc_search(vec![]);
    search.named_bucket = Some(lc_bucket("None", true, Some("None/git.json"), None));
    assert_eq!(
        locate_package_manifest(&search, "git", Some("None".to_string())),
        Err("Package 'git' not found in any bucket.".to_string())
    );
    assert_eq!(
        locate_package_manifest(&search, "git", Some(String::new())),
        Err("Package 'git' not found in any bucket.".to_string())
    );
    assert_eq!(
        locate_package_manifest(&search, "git", None),
        Err("Package 'git' not found in any bucket.".to_string())
    );
}

#[test]
fn missing_manifest_names_the_bucket_that_was_asked_for() {
    let search = lc_search(vec![lc_bucket("main", true, None, None)]);
    assert_eq!(
        locate_package_manifest(&search, "git", Some("extras".to_string())),
        Err("Package 'git' not found in bucket 'extras'.".to_string())
    );
}

#[test]
fn buckets_are_not_searched_without_a_buckets_directory() {
    let mut search = lc_search(vec![lc_bucket("main", true, Some("main/git.json"), None)]);
    search.named_bucket = Some(lc_bucket("main", true, Some("main/git.json"), None));
    search.buckets_is_dir = false;
    assert_eq!(
        locate_package_manifest(&search, "git", Some("main".to_string())),
        Err("Package 'git' not found in bucket 'main'.".to_string())
    );
}

#[test]
fn installed_manifest_is_the_last_resort() {
    let mut search = lc_search(vec![lc_bucket("main", true, None, None)]);
    search.installed_manifest = Some("apps/git/current/m.json".to_string());
    assert_eq!(
        locate_package_manifest(&search, "git", Some("main".to_string())),
        Ok(("apps/git/current/m.json".to_string(), "Installed (Bucket missing)".to_string()))
    );
    search.install_record = Some("{\"bucket\": \"extras\", \"architecture\": \"64bit\"}".to_string());
    assert_eq!(
        locate_package_manifest(&search, "git", None),
        Ok(("apps/git/current/m.json".to_string(), "extras (missing)".to_string()))
    );
}

#[test]
fn installed_bucket_name_from_the_install_record() {
    assert_eq!(name_installed_bucket(&None), "Installed (Bucket missing)");
    assert_eq!(name_installed_bucket(&Some("{\"bucket\":\"main\"}".to_string())), "main (missing)");
    assert_eq!(name_installed_bucket(&Some("{\"bucket\":\"\"}".to_string())), " (missing)");
    assert_eq!(name_installed_bucket(&Some("{\"bucket\":7}".to_string())), "Installed (Bucket missing)");
    assert_eq!(name_installed_bucket(&Some("{\"url\":\"x\"}".to_string())), "Installed (Bucket missing)");
    assert_eq!(name_installed_bucket(&Some("[\"bucket\"]".to_string())), "Installed (Bucket missing)");
    assert_eq!(name_installed_bucket(&Some("bucket".to_string())), "Installed (Bucket missing)");
    assert_eq!(name_installed_bucket(&Some("{\"bucket\":\"main\"} x".to_string())), "Installed (Bucket missing)");
    assert_eq!(name_installed_bucket(&Some("{\"bucket\":\"m\\u00e4in\"}".to_string())), "mäin (missing)");
}
