use hupdater::winget::{
    parse_winget_available_version, parse_winget_installed_version, winget_action, winget_failure_message, winget_lists_helium,
    winget_success_message, winget_update_args,
};

const LIST_OUTPUT: &str = "Name    Id              Version   Source\r\n\
-----------------------------------------\r\n\
Helium  ImputNet.Helium v0.4.7.1  winget\r\n";

#[test]
fn reads_version_after_package_id() {
    assert_eq!(
        parse_winget_installed_version(true, LIST_OUTPUT),
        Some("0.4.7.1".to_string())
    );
}

#[test]
fn failed_run_gives_no_version() {
    assert_eq!(parse_winget_installed_version(false, LIST_OUTPUT), None);
}

#[test]
fn id_column_matches_in_any_ascii_case() {
    let out = "x imputnet.helium-other\nHelium IMPUTNET.HELIUM 1.2 winget ImputNet.Helium";
    assert_eq!(parse_winget_installed_version(true, out), Some("1.2".to_string()));
}

#[test]
fn line_without_version_column_is_skipped() {
    let out = "Helium ImputNet.Helium\nHelium ImputNet.Helium   v   \nHelium ImputNet.Helium 2.0\n";
    assert_eq!(parse_winget_installed_version(true, out), Some("2.0".to_string()));
}

#[test]
fn no_matching_line_gives_none() {
    assert_eq!(parse_winget_installed_version(true, "No installed package found."), None);
    assert_eq!(parse_winget_installed_version(true, ""), None);
}

#[test]
fn listing_mentions_package() {
    assert!(winget_lists_helium(true, LIST_OUTPUT));
    assert!(!winget_lists_helium(false, LIST_OUTPUT));
    assert!(!winget_lists_helium(true, "imputnet.helium"));
}

#[test]
fn action_and_messages() {
    assert_eq!(winget_action(true), "upgrade");
    assert_eq!(winget_action(false), "install");
    assert_eq!(
        winget_success_message(true),
        "Helium update finished successfully (winget)."
    );
    assert_eq!(
        winget_success_message(false),
        "Helium installation finished successfully (winget)."
    );
    assert_eq!(
        winget_failure_message(true, Some(-1978335212)),
        "winget upgrade failed with exit code Some(-1978335212)"
    );
    assert_eq!(
        winget_failure_message(false, None),
        "winget install failed with exit code None"
    );
}

#[test]
fn update_arguments() {
    assert_eq!(
        winget_update_args(false),
        vec![
            "install",
            "--id",
            "ImputNet.Helium",
            "--source",
            "winget",
            "--silent",
            "--disable-interactivity",
            "--accept-package-agreements",
            "--accept-source-agreements"
        ]
    );
    assert_eq!(winget_update_args(true)[0], "upgrade");
}

#[test]
fn available_version_from_upgrade_column() {
    let out = "Name    Id              Version  Available Source\r\n\
---------------------------------------------------\r\n\
Helium  ImputNet.Helium 0.4.5.1  0.4.7.1   winget\r\n";
    assert_eq!(parse_winget_available_version(true, out), Some("0.4.7.1".to_string()));
    assert_eq!(parse_winget_installed_version(true, out), Some("0.4.5.1".to_string()));
    assert_eq!(parse_winget_available_version(false, out), None);
}

#[test]
fn no_upgrade_offered_gives_no_available_version() {
    // Without an upgrade the column after the version is the source name.
    assert_eq!(parse_winget_available_version(true, LIST_OUTPUT), None);
    assert_eq!(parse_winget_available_version(true, "Helium ImputNet.Helium 1.0"), None);
    assert_eq!(parse_winget_available_version(true, ""), None);
}
