use hupdater::shortcut::{
    forwarded_launch_args, intercepting_shortcut, restored_shortcut, shortcut_slots,
    shortcuts_to_rewrite, start_menu_shortcut_path,
};

#[test]
fn intercepting_and_restored_shortcuts() {
    let s = intercepting_shortcut("C:\\U\\hupdater.exe", "C:\\U", "C:\\H\\chrome.exe");
    assert_eq!(s.target, "C:\\U\\hupdater.exe");
    assert_eq!(s.arguments, Some("--launch".to_string()));
    assert_eq!(s.working_dir, "C:\\U");
    // The shortcut keeps Helium's icon.
    assert_eq!(s.icon_location, Some("C:\\H\\chrome.exe".to_string()));
    let r = restored_shortcut("C:\\H\\chrome.exe", "C:\\H");
    assert_eq!(r.target, "C:\\H\\chrome.exe");
    assert_eq!(r.arguments, None);
    assert_eq!(r.working_dir, "C:\\H");
    assert_eq!(r.icon_location, None);
}

#[test]
fn existing_slots() {
    assert_eq!(shortcuts_to_rewrite(&vec![false, true, false, true, true]), vec![1, 3, 4]);
    assert!(shortcuts_to_rewrite(&vec![false; 5]).is_empty());
}

#[test]
fn launch_arguments() {
    let args = |v: &[&str]| v.iter().map(|s| s.to_string()).collect::<Vec<String>>();
    assert_eq!(
        forwarded_launch_args(&args(&["hupdater.exe", "--launch", "https://a", "--incognito"])),
        args(&["https://a", "--incognito"])
    );
    assert!(forwarded_launch_args(&args(&["hupdater.exe", "--launch"])).is_empty());
    assert!(forwarded_launch_args(&args(&["hupdater.exe"])).is_empty());
}

#[test]
fn slot_paths() {
    let some = |s: &str| Some(s.to_string());
    let sep = std::path::MAIN_SEPARATOR;
    let j = |parts: &[&str]| parts.join(&sep.to_string());
    let start = "Microsoft\\Windows\\Start Menu\\Programs";
    let taskbar = "Microsoft\\Internet Explorer\\Quick Launch\\User Pinned\\TaskBar\\Helium.lnk";
    let slots = shortcut_slots(&some("u"), &some("p"), &some("a"), &some("d"), false, true);
    assert_eq!(
        slots,
        vec![
            j(&["u", "Desktop", "Helium.lnk"]),
            j(&["p", "Desktop", "Helium.lnk"]),
            j(&["a", start, "Helium.lnk"]),
            j(&["d", start, "Helium", "Helium.lnk"]),
            j(&["a", taskbar]),
        ]
    );
    let none = shortcut_slots(&None, &None, &None, &None, true, true);
    assert_eq!(none, vec![String::new(); 5]);
    let only_appdata = shortcut_slots(&None, &None, &some("a"), &None, true, false);
    assert_eq!(
        only_appdata,
        vec![
            String::new(),
            String::new(),
            j(&["a", start, "Helium", "Helium.lnk"]),
            String::new(),
            j(&["a", taskbar]),
        ]
    );
    assert_eq!(start_menu_shortcut_path("a", true), j(&["a", start, "Helium", "Helium.lnk"]));
    assert_eq!(start_menu_shortcut_path("a", false), j(&["a", start, "Helium.lnk"]));
}
