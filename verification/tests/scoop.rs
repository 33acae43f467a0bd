use rscoop::scoop::{build_scoop_cmd, operation_name, ScoopOp};
use rscoop::shortcuts::{display_name, get_scoop_app_shortcuts, ShortcutFile, ShortcutInfo};

#[test]
fn commands_for_one_package() {
    assert_eq!(build_scoop_cmd(ScoopOp::Install, Some("git"), None), Ok("scoop install git".to_string()));
    assert_eq!(build_scoop_cmd(ScoopOp::Install, Some("git"), Some("main")), Ok("scoop install main/git".to_string()));
    assert_eq!(build_scoop_cmd(ScoopOp::Uninstall, Some("git"), Some("main")), Ok("scoop uninstall git".to_string()));
    assert_eq!(build_scoop_cmd(ScoopOp::Update, Some("git"), None), Ok("scoop update git".to_string()));
    assert_eq!(build_scoop_cmd(ScoopOp::UpdateForce, Some("git"), None), Ok("scoop update git --force".to_string()));
    assert_eq!(build_scoop_cmd(ScoopOp::ClearCache, Some("git"), None), Ok("scoop cache rm git".to_string()));
}

#[test]
fn update_all_needs_no_package() {
    assert_eq!(build_scoop_cmd(ScoopOp::UpdateAll, None, None), Ok("scoop update *".to_string()));
    assert_eq!(build_scoop_cmd(ScoopOp::UpdateAll, Some("git"), Some("main")), Ok("scoop update *".to_string()));
}

#[test]
fn commands_without_package_are_refused() {
    assert_eq!(build_scoop_cmd(ScoopOp::Install, None, Some("main")), Err("A package name is required to install.".to_string()));
    assert_eq!(build_scoop_cmd(ScoopOp::Uninstall, None, None), Err("A package name is required to uninstall.".to_string()));
    assert_eq!(build_scoop_cmd(ScoopOp::Update, None, None), Err("A package name is required to update.".to_string()));
    assert_eq!(build_scoop_cmd(ScoopOp::UpdateForce, None, None), Err("A package name is required to force update.".to_string()));
    assert_eq!(build_scoop_cmd(ScoopOp::ClearCache, None, None), Err("A package name is required to clear the cache.".to_string()));
}

#[test]
fn operations_are_named_for_display() {
    assert_eq!(operation_name(ScoopOp::Install, Some("git")), Ok("Installing git".to_string()));
    assert_eq!(operation_name(ScoopOp::Uninstall, Some("git")), Ok("Uninstalling git".to_string()));
    assert_eq!(operation_name(ScoopOp::Update, Some("git")), Ok("Updating git".to_string()));
    assert_eq!(operation_name(ScoopOp::UpdateForce, Some("git")), Ok("Force updating git".to_string()));
    assert_eq!(operation_name(ScoopOp::ClearCache, Some("git")), Ok("Clearing cache for git".to_string()));
    assert_eq!(operation_name(ScoopOp::UpdateAll, None), Ok("Updating all packages".to_string()));
    assert_eq!(operation_name(ScoopOp::Update, None), Err("Invalid operation or missing package name.".to_string()));
}

#[test]
fn display_name_replaces_underscores() {
    assert_eq!(display_name("Visual_Studio_Code"), "Visual Studio Code");
    assert_eq!(display_name("__"), "  ");
    assert_eq!(display_name("plain"), "plain");
    assert_eq!(display_name(""), "");
}

#[test]
fn shortcuts_are_the_link_files_that_parse() {
    let link = |target: &str| Some(ShortcutInfo {
        target_path: target.to_string(),
        working_directory: "C:\\w".to_string(),
        icon_path: Some("i.ico".to_string()),
    });
    let files = vec![
        ShortcutFile { file_stem: Some("Git_Bash".to_string()), extension: Some("lnk".to_string()), link: link("git.exe") },
        ShortcutFile { file_stem: Some("readme".to_string()), extension: Some("txt".to_string()), link: link("x") },
        ShortcutFile { file_stem: Some("broken".to_string()), extension: Some("lnk".to_string()), link: None },
        ShortcutFile { file_stem: None, extension: Some("lnk".to_string()), link: link("y") },
        ShortcutFile { file_stem: Some("Upper".to_string()), extension: Some("LNK".to_string()), link: link("z") },
        ShortcutFile { file_stem: Some("vim".to_string()), extension: Some("lnk".to_string()), link: Some(ShortcutInfo {
            target_path: "vim.exe".to_string(),
            working_directory: String::new(),
            icon_path: None,
        }) },
    ];
    let shortcuts = get_scoop_app_shortcuts(&files);
    assert_eq!(shortcuts.len(), 2);
    assert_eq!(shortcuts[0].name, "Git_Bash");
    assert_eq!(shortcuts[0].display_name, "Git Bash");
    assert_eq!(shortcuts[0].target_path, "git.exe");
    assert_eq!(shortcuts[0].working_directory, "C:\\w");
    assert_eq!(shortcuts[0].icon_path, Some("i.ico".to_string()));
    assert_eq!(shortcuts[1].name, "vim");
    assert_eq!(shortcuts[1].icon_path, None);
    assert!(get_scoop_app_shortcuts(&vec![]).is_empty());
}
