use rscoop::custom_update::{
    custom_update_info, releases_url, select_update, signature_from, signature_url, tag_version,
    Release, ReleaseAsset,
};
use rscoop::operations::{
    handle_cancellation, handle_command_completion, is_error_line, stream_output,
    to_signed_decimal, virustotal_command, virustotal_result,
};

fn op_lines(items: &[&str]) -> Vec<String> {
    items.iter().map(|s| s.to_string()).collect()
}

fn op_asset(name: &str, url: &str) -> ReleaseAsset {
    ReleaseAsset { name: name.to_string(), download_url: url.to_string() }
}

fn op_release(tag: &str, prerelease: bool, assets: Vec<ReleaseAsset>) -> Release {
    Release {
        tag_name: tag.to_string(),
        published_at: "2025-01-02T03:04:05Z".to_string(),
        body: Some(format!("notes of {tag}")),
        assets,
        prerelease,
    }
}

#[test]
fn stderr_lines_are_errors() {
    assert!(is_error_line("stderr", "all is well"));
    assert!(!is_error_line("stdout", "all is well"));
}

#[test]
fn error_words_are_found_in_any_case() {
    assert!(is_error_line("stdout", "ERROR: no such app"));
    assert!(is_error_line("stdout", "Download Failed"));
    assert!(is_error_line("stdout", "An Exception was thrown"));
    assert!(is_error_line("stdout", "Cannot continue"));
    assert!(is_error_line("stdout", "Could Not connect"));
    assert!(is_error_line("stdout", "App Not Found"));
    assert!(is_error_line("stdout", "ACCESS TO THE PATH 'x'"));
    assert!(is_error_line("stdout", "Permission DENIED"));
    assert!(is_error_line("stdout", "Remove-Item : x"));
    assert!(!is_error_line("stdout", "remove-item : x"));
    assert!(!is_error_line("stdout", "Installing 7zip (24.08)"));
}

#[test]
fn stream_output_keeps_line_and_source() {
    let out = stream_output("hello".to_string(), "stdout");
    assert_eq!(out.line, "hello");
    assert_eq!(out.source, "stdout");
}

#[test]
fn signed_decimal_matches_display() {
    for n in [0, 1, -1, 16, 255, -1073741510, i32::MAX, i32::MIN] {
        assert_eq!(to_signed_decimal(n), n.to_string());
    }
}

#[test]
fn completion_without_errors_succeeds() {
    let r = handle_command_completion("Installing 7zip", true, Some(0), &Vec::new());
    assert!(r.success);
    assert_eq!(r.message, "Installing 7zip completed successfully");
}

#[test]
fn completion_with_error_lines_fails_even_on_exit_zero() {
    let errors = op_lines(&["error: a", "error: b"]);
    let r = handle_command_completion("Update", true, Some(0), &errors);
    assert!(!r.success);
    assert_eq!(
        r.message,
        "Update failed with 2 error(s):\nerror: a\nerror: b\nPlease check the output log for details."
    );
}

#[test]
fn completion_shows_three_errors_and_counts_the_rest() {
    let errors = op_lines(&["e1", "e2", "e3", "e4", "e5"]);
    let r = handle_command_completion("Update", false, Some(1), &errors);
    assert!(!r.success);
    assert_eq!(
        r.message,
        "Update failed with 5 error(s):\ne1\ne2\ne3\n... and 2 more errors\nPlease check the output log for details."
    );
}

#[test]
fn completion_with_exactly_three_errors_shows_all() {
    let errors = op_lines(&["e1", "e2", "e3"]);
    let r = handle_command_completion("Update", false, Some(1), &errors);
    assert_eq!(
        r.message,
        "Update failed with 3 error(s):\ne1\ne2\ne3\nPlease check the output log for details."
    );
}

#[test]
fn completion_with_exit_code_only() {
    let r = handle_command_completion("Update", false, Some(-3), &Vec::new());
    assert!(!r.success);
    assert_eq!(
        r.message,
        format!(
            "Update failed with exit code {:?}. Please check the output log for details.",
            Some(-3)
        )
    );
    let r = handle_command_completion("Update", false, None, &Vec::new());
    assert_eq!(
        r.message,
        format!(
            "Update failed with exit code {:?}. Please check the output log for details.",
            None::<i32>
        )
    );
}

#[test]
fn cancellation_message() {
    let r = handle_cancellation("Installing git");
    assert!(!r.success);
    assert_eq!(r.message, "Installing git was cancelled by user");
}

#[test]
fn virustotal_command_names_the_bucket_when_given() {
    assert_eq!(virustotal_command("git", "main"), "scoop virustotal main/git");
    assert_eq!(virustotal_command("git", ""), "scoop virustotal git");
    assert_eq!(virustotal_command("git", "none"), "scoop virustotal git");
    assert_eq!(virustotal_command("git", "NoNe"), "scoop virustotal git");
    assert_eq!(virustotal_command("git", "nonex"), "scoop virustotal nonex/git");
}

#[test]
fn bucket_is_named_unless_empty_or_none() {
    assert_eq!(rscoop::operations::named_bucket("main"), Some("main"));
    assert_eq!(rscoop::operations::named_bucket(""), None);
    assert_eq!(rscoop::operations::named_bucket("None"), None);
    assert_eq!(rscoop::operations::named_bucket("NONE"), None);
    assert_eq!(rscoop::operations::named_bucket("none "), Some("none "));
}

#[test]
fn virustotal_result_by_exit_code() {
    let clean = virustotal_result(0);
    assert!(!clean.detections_found && !clean.is_api_key_missing);
    assert_eq!(clean.message, "No threats found.");
    let found = virustotal_result(2);
    assert!(found.detections_found && !found.is_api_key_missing);
    assert_eq!(found.message, "VirusTotal found one or more detections.");
    let no_key = virustotal_result(16);
    assert!(!no_key.detections_found && no_key.is_api_key_missing);
    assert_eq!(no_key.message, "VirusTotal API key is not configured.");
    let other = virustotal_result(7);
    assert!(other.detections_found && !other.is_api_key_missing);
    assert_eq!(
        other.message,
        "Scan failed with an unexpected error (exit code 7). Please check the output."
    );
    assert_eq!(
        virustotal_result(-1).message,
        "Scan failed with an unexpected error (exit code -1). Please check the output."
    );
}

#[test]
fn update_addresses_by_channel() {
    assert_eq!(releases_url("test"), "https://api.github.com/repos/Kwensiu/Pailer/releases");
    assert_eq!(
        releases_url("stable"),
        "https://api.github.com/repos/Kwensiu/Pailer/releases/latest"
    );
    assert_eq!(
        signature_url("test"),
        "https://raw.githubusercontent.com/Kwensiu/Pailer/refs/heads/test/docs/test-update.json"
    );
    assert_eq!(
        signature_url("stable"),
        "https://github.com/Kwensiu/Pailer/releases/latest/download/update.json"
    );
}

#[test]
fn tag_version_drops_one_leading_v() {
    assert_eq!(tag_version("v1.2.3"), "1.2.3");
    assert_eq!(tag_version("1.2.3"), "1.2.3");
    assert_eq!(tag_version("vv1"), "v1");
    assert_eq!(tag_version(""), "");
    assert_eq!(tag_version("v"), "");
}

#[test]
fn stable_channel_takes_the_first_release() {
    let releases = vec![
        op_release("v2.0.0", false, vec![
            op_asset("pailer_2.0.0_arm.dmg", "https://dl/arm"),
            op_asset("pailer_2.0.0_x64-setup.exe", "https://dl/x64"),
            op_asset("pailer-windows.zip", "https://dl/zip"),
        ]),
        op_release("v1.0.0", false, vec![op_asset("x64-setup.exe", "https://dl/old")]),
    ];
    let update = select_update("stable", &releases).unwrap();
    assert_eq!(update.version, "2.0.0");
    assert_eq!(update.pub_date, "2025-01-02T03:04:05Z");
    assert_eq!(update.download_url, "https://dl/x64");
    assert_eq!(update.body.as_deref(), Some("notes of v2.0.0"));
}

#[test]
fn test_channel_takes_the_first_prerelease_or_test_tag() {
    let releases = vec![
        op_release("v2.0.0", false, vec![op_asset("a-windows.exe", "https://dl/a")]),
        op_release("v2.1.0-TEST", false, vec![op_asset("b-windows.exe", "https://dl/b")]),
        op_release("v2.2.0", true, vec![op_asset("c-windows.exe", "https://dl/c")]),
    ];
    let update = select_update("test", &releases).unwrap();
    assert_eq!(update.version, "2.1.0-TEST");
    assert_eq!(update.download_url, "https://dl/b");

    let releases = vec![
        op_release("v2.0.0", false, vec![op_asset("a-windows.exe", "https://dl/a")]),
        op_release("v2.2.0", true, vec![op_asset("c-windows.exe", "https://dl/c")]),
    ];
    let update = select_update("test", &releases).unwrap();
    assert_eq!(update.version, "2.2.0");
}

#[test]
fn select_update_errors() {
    assert_eq!(select_update("stable", &Vec::new()).unwrap_err(), "No stable release found");
    assert_eq!(select_update("test", &Vec::new()).unwrap_err(), "No test release found");
    let only_stable = vec![op_release("v1", false, vec![op_asset("x-windows", "u")])];
    assert_eq!(select_update("test", &only_stable).unwrap_err(), "No test release found");
    let no_installer = vec![op_release("v1", false, vec![op_asset("x.dmg", "u")])];
    assert_eq!(
        select_update("stable", &no_installer).unwrap_err(),
        "Windows installer not found in release assets"
    );
}

#[test]
fn signature_is_read_from_the_windows_platform() {
    let content = r#"{"version":"1.0","platforms":{"windows-x86_64":{"signature":"abc==","url":"u"}}}"#;
    assert_eq!(signature_from(content).as_deref(), Some("abc=="));
}

#[test]
fn signature_not_found_where_the_file_gives_none() {
    assert_eq!(signature_from(r#"{"platforms":{}}"#).as_deref(), Some("signature-not-found"));
    assert_eq!(signature_from("[]").as_deref(), Some("signature-not-found"));
    assert_eq!(
        signature_from(r#"{"platforms":{"windows-x86_64":{"signature":5}}}"#).as_deref(),
        Some("signature-not-found")
    );
    assert_eq!(
        signature_from(r#"{"platforms":{"linux-x86_64":{"signature":"abc"}}}"#).as_deref(),
        Some("signature-not-found")
    );
}

#[test]
fn no_signature_from_what_is_no_json() {
    assert_eq!(signature_from("not json"), None);
    assert_eq!(signature_from(""), None);
}

#[test]
fn update_info_is_put_together() {
    let releases = vec![op_release("v3.1.4", false, vec![op_asset("p_x64-setup.exe", "https://dl")])];
    let update = select_update("stable", &releases).unwrap();
    let info = custom_update_info(update, "sig".to_string(), "stable".to_string());
    assert_eq!(info.version, "3.1.4");
    assert_eq!(info.pub_date, "2025-01-02T03:04:05Z");
    assert_eq!(info.download_url, "https://dl");
    assert_eq!(info.signature, "sig");
    assert_eq!(info.notes, "Update available for stable channel");
    assert_eq!(info.body.as_deref(), Some("notes of v3.1.4"));
    assert_eq!(info.channel, "stable");
}
