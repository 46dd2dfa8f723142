use hupdater::config::UpdateMethod;
use hupdater::release::{
    find_installer_asset, get_system_architecture, hupdater_update_prompt, installer_name_part,
    installer_outcome, latest_version_from_tag, select_installer_asset, silent_update_plan,
    winget_outcome, Asset, Release, SilentUpdate, UpdateError,
};

fn release(tag: &str, names: &[&str]) -> Release {
    Release {
        tag_name: tag.to_string(),
        assets: names
            .iter()
            .map(|n| Asset { name: n.to_string(), browser_download_url: format!("https://x/{}", n) })
            .collect(),
    }
}

#[test]
fn architecture() {
    assert_eq!(get_system_architecture("AMD64", ""), "x64");
    assert_eq!(get_system_architecture("arm64", ""), "arm64");
    assert_eq!(get_system_architecture("x86", "ARM64"), "arm64");
    assert_eq!(get_system_architecture("", ""), "x64");
}

#[test]
fn installer_selection() {
    let r = release("0.5.1", &["helium_0.5.1_arm64-installer.exe", "helium_0.5.1_x64-installer.exe", "x.zip"]);
    assert_eq!(installer_name_part("x64"), "_x64-installer.exe");
    assert_eq!(find_installer_asset(&r, "x64"), Some(1));
    assert_eq!(find_installer_asset(&r, "arm64"), Some(0));
    assert!(matches!(select_installer_asset(&r, "x64"), Ok(1)));
    let none = release("0.5.1", &["notes.txt"]);
    let err = select_installer_asset(&none, "x64");
    assert!(matches!(err, Err(UpdateError::NoInstallerFound)));
    if let Err(e) = err {
        assert_eq!(e.message(), "No installer found");
    }
}

#[test]
fn update_errors() {
    assert!(installer_outcome(true, Some(0)).is_ok());
    let e = installer_outcome(false, Some(2)).unwrap_err();
    assert_eq!(e.message(), "Helium installer failed with exit code Some(2)");
    let e = winget_outcome(true, false, None).unwrap_err();
    assert_eq!(e.message(), "winget upgrade failed with exit code None");
    assert!(winget_outcome(false, true, Some(0)).is_ok());
}

#[test]
fn latest_from_tag() {
    assert_eq!(latest_version_from_tag("v0.5.2"), Some("0.5.2".to_string()));
    assert_eq!(latest_version_from_tag(" v "), None);
}

#[test]
fn updater_prompt() {
    assert_eq!(
        hupdater_update_prompt("v1.3.0", "1.2.0"),
        Some("A new version of HUpdater (v1.3.0) is available! Current version is v1.2.0.\n\nWould you like to open the download page?".to_string())
    );
    assert_eq!(hupdater_update_prompt("v1.2.0", "1.2.0"), None);
    assert_eq!(hupdater_update_prompt("v1.1", "1.2.0"), None);
    assert_eq!(hupdater_update_prompt("", "1.2.0"), None);
}

#[test]
fn silent_update_from_github_only_when_newer() {
    let gh = UpdateMethod::Installer;
    let r = Some(release("v0.5.1", &["helium_0.5.1_x64-installer.exe"]));
    let v = |s: &str| Some(s.to_string());
    assert_eq!(silent_update_plan(gh, &v("0.5.0"), &r, &None, "x64"), SilentUpdate::Installer(0));
    assert_eq!(silent_update_plan(gh, &v("0.5.1"), &r, &None, "x64"), SilentUpdate::Nothing);
    // An installed version newer than the release is never downgraded.
    assert_eq!(silent_update_plan(gh, &v("0.6"), &r, &None, "x64"), SilentUpdate::Nothing);
    let old = Some(release("v1", &["helium_1_x64-installer.exe"]));
    assert_eq!(silent_update_plan(gh, &v("2"), &old, &None, "x64"), SilentUpdate::Nothing);
    assert_eq!(silent_update_plan(gh, &None, &r, &None, "x64"), SilentUpdate::Nothing);
    assert_eq!(silent_update_plan(gh, &v("0.5.0"), &r, &None, "arm64"), SilentUpdate::Nothing);
    assert_eq!(silent_update_plan(gh, &v("0.5.0"), &None, &None, "x64"), SilentUpdate::Nothing);
    // The winget offer plays no part when GitHub is the source.
    assert_eq!(silent_update_plan(gh, &v("0.5.0"), &None, &v("9.9"), "x64"), SilentUpdate::Nothing);
    // Only lower-case v is removed from the tag: "V0" does not parse, so
    // "V0.5.1" reads as 5.1, newer than 0.5.0 and than 0.5.1 alike.
    let upper = Some(release("V0.5.1", &["helium_0.5.1_x64-installer.exe"]));
    assert_eq!(silent_update_plan(gh, &v("0.5.0"), &upper, &None, "x64"), SilentUpdate::Installer(0));
    assert_eq!(silent_update_plan(gh, &v("5.1"), &upper, &None, "x64"), SilentUpdate::Nothing);
    let two = Some(release("v0.6", &["notes.txt", "helium_0.6_x64-installer.exe"]));
    assert_eq!(silent_update_plan(gh, &v("0.5.9"), &two, &None, "x64"), SilentUpdate::Installer(1));
}

#[test]
fn silent_update_from_winget_only_when_offered_newer() {
    let wg = UpdateMethod::Winget;
    let r = Some(release("v9.0", &["helium_9.0_x64-installer.exe"]));
    let v = |s: &str| Some(s.to_string());
    assert_eq!(silent_update_plan(wg, &v("0.4.5"), &None, &v("0.4.7"), "x64"), SilentUpdate::WingetUpgrade);
    assert_eq!(silent_update_plan(wg, &v("0.4.7"), &None, &v("0.4.7"), "x64"), SilentUpdate::Nothing);
    assert_eq!(silent_update_plan(wg, &v("0.5"), &None, &v("0.4.7"), "x64"), SilentUpdate::Nothing);
    assert_eq!(silent_update_plan(wg, &v("0.4.5"), &None, &None, "x64"), SilentUpdate::Nothing);
    assert_eq!(silent_update_plan(wg, &None, &None, &v("0.4.7"), "x64"), SilentUpdate::Nothing);
    // A GitHub release plays no part when winget is the source.
    assert_eq!(silent_update_plan(wg, &v("0.4.5"), &r, &None, "x64"), SilentUpdate::Nothing);
}
