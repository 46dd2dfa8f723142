use hupdater::appid::{
    app_id_from_classes_values, application_key_path, classes_key_path,
    app_id_lookup_order, classes_keys_with_prefix, find_app_id_in_start_menu_internet,
    is_valid_app_id, nonempty_trimmed, AppIdError,
};
use hupdater::appid::AppIdLookup::{ClassesKey, ClassesPrefix, StartMenuInternet};
use hupdater::appid::ClassKey::{HeliumHtm, HeliumPdf};
use hupdater::appid::Hive::{CurrentUser, LocalMachine};
use hupdater::install::{
    installed_version, pick_existing_candidate, scan_uninstall_entries, scope_label,
    ExactUninstallKey, InstallScope, UninstallEntry,
};

fn entry(scope: InstallScope, key: &str, name: &str, version: &str) -> UninstallEntry {
    UninstallEntry {
        scope,
        key_name: key.to_string(),
        display_name: name.to_string(),
        display_version: version.to_string(),
    }
}

#[test]
fn exact_key_wins() {
    let exact = vec![
        ExactUninstallKey { scope: InstallScope::System, display_version: " v0.4.2 ".to_string() },
        ExactUninstallKey { scope: InstallScope::User, display_version: "9".to_string() },
    ];
    let entries = vec![entry(InstallScope::User, "Helium", "Helium", "1.0")];
    let r = scan_uninstall_entries(&exact, &entries);
    assert!(r.installed);
    assert_eq!(r.version, Some("0.4.2".to_string()));
    assert_eq!(r.scope, Some(InstallScope::System));
}

#[test]
fn exact_key_without_version() {
    let exact = vec![ExactUninstallKey { scope: InstallScope::User, display_version: String::new() }];
    let r = scan_uninstall_entries(&exact, &vec![]);
    assert!(r.installed);
    assert_eq!(r.version, None);
    assert_eq!(r.scope, Some(InstallScope::User));
}

#[test]
fn scan_matches_display_name_in_ascii_case() {
    let entries = vec![
        entry(InstallScope::User, "{1234}", "Other Browser", "5"),
        entry(InstallScope::System, "{5678}", "HELIUM Browser", "0.5"),
    ];
    let r = scan_uninstall_entries(&vec![], &entries);
    assert!(r.installed);
    assert_eq!(r.version, Some("0.5".to_string()));
    assert_eq!(r.scope, Some(InstallScope::System));
}

#[test]
fn scan_matches_key_name_after_unicode_lowercasing() {
    // The key name is lower-cased before the search: an upper-case key name
    // matches only if the lower-casing really happens.
    let entries = vec![entry(InstallScope::User, "HELIUM-ÜBER", "", "")];
    let r = scan_uninstall_entries(&vec![], &entries);
    assert!(r.installed);
    assert_eq!(r.version, None);
}

#[test]
fn scan_finds_nothing() {
    let entries = vec![entry(InstallScope::User, "Firefox", "Mozilla Firefox", "120")];
    let r = scan_uninstall_entries(&vec![], &entries);
    assert!(!r.installed);
    assert_eq!(r.version, None);
    assert_eq!(r.scope, None);
}

#[test]
fn registry_version_preferred() {
    assert_eq!(installed_version(Some("1".into()), Some("2".into())), Some("1".into()));
    assert_eq!(installed_version(None, Some("2".into())), Some("2".into()));
    assert_eq!(installed_version(None, None), None);
    assert_eq!(scope_label(InstallScope::System), "system");
    assert_eq!(scope_label(InstallScope::User), "user");
}

#[test]
fn candidate_choice() {
    assert_eq!(pick_existing_candidate(&vec![false, true, true]), 1);
    assert_eq!(pick_existing_candidate(&vec![false, false, false]), 2);
    assert_eq!(pick_existing_candidate(&vec![true]), 0);
}

#[test]
fn app_id_validity() {
    assert!(is_valid_app_id("Helium.ABCDEF"));
    assert!(!is_valid_app_id(""));
    assert!(!is_valid_app_id("Helium HTML"));
    assert!(is_valid_app_id(&"a".repeat(128)));
    assert!(!is_valid_app_id(&"a".repeat(129)));
    // 64 two-byte characters are 128 bytes; 65 are too many.
    assert!(is_valid_app_id(&"é".repeat(64)));
    assert!(!is_valid_app_id(&"é".repeat(65)));
}

#[test]
fn registry_strings_are_trimmed() {
    assert_eq!(nonempty_trimmed(Some("  Helium.X \n".into())), Some("Helium.X".into()));
    assert_eq!(nonempty_trimmed(Some("   ".into())), None);
    assert_eq!(nonempty_trimmed(None), None);
}

#[test]
fn classes_values_first_found_must_be_valid() {
    assert_eq!(
        app_id_from_classes_values(Some(" Helium.A ".into()), Some("Helium.B".into())),
        Some("Helium.A".into())
    );
    assert_eq!(app_id_from_classes_values(Some("  ".into()), Some("Helium.B".into())), Some("Helium.B".into()));
    // An invalid direct value is not replaced by the nested one.
    assert_eq!(app_id_from_classes_values(Some("Helium A".into()), Some("Helium.B".into())), None);
    assert_eq!(app_id_from_classes_values(None, None), None);
}

#[test]
fn key_paths() {
    assert_eq!(classes_key_path("HeliumHTM"), "Software\\Classes\\HeliumHTM");
    assert_eq!(
        application_key_path("Software\\Classes\\HeliumHTM"),
        "Software\\Classes\\HeliumHTM\\Application"
    );
}

#[test]
fn start_menu_registration() {
    let names: Vec<String> =
        vec!["Firefox".into(), "Helium Beta".into(), "HELIUM.ABC".into(), "helium.def".into()];
    assert_eq!(find_app_id_in_start_menu_internet(&names), Some("HELIUM.ABC".into()));
    assert_eq!(find_app_id_in_start_menu_internet(&vec!["Edge".to_string()]), None);
}

#[test]
fn prefixed_class_keys() {
    let names: Vec<String> =
        vec!["HeliumHTM.1".into(), "heliumHTM.2".into(), "HeliumPDF".into(), "HeliumHTM".into()];
    assert_eq!(
        classes_keys_with_prefix(&names, "HeliumHTM"),
        vec!["HeliumHTM.1".to_string(), "HeliumHTM".to_string()]
    );
}

#[test]
fn lookup_order() {
    assert_eq!(
        app_id_lookup_order(),
        vec![
            ClassesKey(CurrentUser, HeliumHtm),
            ClassesKey(CurrentUser, HeliumPdf),
            ClassesKey(LocalMachine, HeliumHtm),
            ClassesKey(LocalMachine, HeliumPdf),
            StartMenuInternet(CurrentUser),
            StartMenuInternet(LocalMachine),
            ClassesPrefix(CurrentUser, HeliumHtm),
            ClassesPrefix(CurrentUser, HeliumPdf),
            ClassesPrefix(LocalMachine, HeliumHtm),
            ClassesPrefix(LocalMachine, HeliumPdf),
        ]
    );
    assert_eq!(HeliumHtm.name(), "HeliumHTM");
    assert_eq!(HeliumPdf.name(), "HeliumPDF");
    assert_eq!(
        AppIdError::NotFound.message(),
        "Could not resolve Helium AppUserModelID from the registry."
    );
}
