use hupdater::layout::{
    client_size_for_dpi, control_layout_for_dpi, dpi_supported, effective_dpi, scale_for_dpi,
    section_dividers_for_dpi, section_rects_for_dpi, Rect,
};
use hupdater::messages::{
    cleanup_script, escape_for_powershell_single_quote, explorer_stop_failure_message,
    interceptor_setup_failure_body,
};
use hupdater::theme::{
    button_theme_name, combo_theme_name, command_notification, dark_mode_from_setting, rgb,
    theme_colors, title_font_height, use_own_brush,
};

#[test]
fn scaling() {
    assert_eq!(scale_for_dpi(12, 96), 12);
    assert_eq!(scale_for_dpi(12, 144), 18);
    assert_eq!(scale_for_dpi(1, 144), 2);
    assert_eq!(scale_for_dpi(5, 120), 6);
    assert_eq!(scale_for_dpi(-1, 96), 0);
    assert_eq!(scale_for_dpi(-10, 96), -9);
    assert_eq!(scale_for_dpi(i32::MAX, i32::MAX), ((i32::MAX as i64 * i32::MAX as i64 + 48) / 96) as i32);
    for v in 0..600 {
        assert_eq!(scale_for_dpi(v, 96), v);
    }
}

#[test]
fn section_geometry_at_96() {
    assert_eq!(
        section_rects_for_dpi(96),
        [
            Rect { left: 12, top: 100, right: 468, bottom: 176 },
            Rect { left: 12, top: 212, right: 468, bottom: 334 },
        ]
    );
    assert_eq!(section_dividers_for_dpi(96), [(72, 86, 468), (112, 198, 468)]);
    assert_eq!(client_size_for_dpi(96), (480, 340));
    assert_eq!(client_size_for_dpi(192), (960, 680));
}

#[test]
fn dividers_fit_frames_on_many_dpis() {
    for dpi in 1..600 {
        let rects = section_rects_for_dpi(dpi);
        let divs = section_dividers_for_dpi(dpi);
        for i in 0..2 {
            assert_eq!(divs[i].2, rects[i].right);
            assert!(divs[i].0 >= rects[i].left);
            assert!(divs[i].1 <= rects[i].top);
        }
    }
}

#[test]
fn control_positions_at_96() {
    let l = control_layout_for_dpi(96);
    assert_eq!((l.title.x, l.title.y, l.title.width, l.title.height), (12, 10, 300, 30));
    assert_eq!((l.subtitle.y, l.subtitle.width), (42, 452));
    assert_eq!((l.helium_title.y, l.group_helium.y, l.group_helium.height), (76, 100, 76));
    assert_eq!((l.status_label.x, l.status_label.y), (24, 112));
    assert_eq!(l.version_label.y, 136);
    assert_eq!((l.check_install.x, l.check_install.y, l.check_install.width), (280, 118, 180));
    assert_eq!((l.config_title.y, l.group_config.y), (188, 212));
    assert_eq!((l.combo_source.x, l.combo_source.y, l.combo_source.height), (280, 224, 220));
    assert_eq!((l.help.x, l.restore.x, l.enable.x), (438, 359, 280));
    assert_eq!((l.enable.y, l.enable.width, l.enable.height), (258, 73, 28));
    assert_eq!((l.uninstall.x, l.uninstall.y), (280, 292));
    assert_eq!(l.uninstall_label.y, 294);
    assert_eq!(effective_dpi(0), 96);
    assert_eq!(effective_dpi(144), 144);
}

#[test]
fn colours_and_themes() {
    assert_eq!(rgb(1, 2, 3), 0x030201);
    assert_eq!(rgb(255, 255, 255), 0xffffff);
    let d = theme_colors(true);
    assert_eq!((d.background, d.surface, d.text), (0x202020, 0x2b2b2b, 0xf3f3f3));
    assert_eq!((d.border, d.divider, d.custom_brushes), (0x4e4e4e, 0x606060, true));
    let l = theme_colors(false);
    assert_eq!((l.background, l.border, l.divider, l.custom_brushes), (0, 0xd2d2d2, 0xc6c6c6, false));
    assert!(dark_mode_from_setting(Some(0)));
    assert!(!dark_mode_from_setting(Some(1)));
    assert!(!dark_mode_from_setting(None));
    assert!(use_own_brush(true, 5));
    assert!(!use_own_brush(true, 0));
    assert!(!use_own_brush(false, 5));
    assert_eq!(button_theme_name(true), "DarkMode_Explorer");
    assert_eq!(button_theme_name(false), "Explorer");
    assert_eq!(combo_theme_name(true), "DarkMode_CFD");
    assert_eq!(combo_theme_name(false), "CFD");
    assert_eq!(command_notification(0x0001_0005), 1);
    assert_eq!(command_notification(0x1234_0000_0009_0000), 9);
    assert_eq!(title_font_height(-12), -18);
    assert_eq!(title_font_height(i32::MAX), i32::MAX / 2);
    assert_eq!(title_font_height(i32::MIN), i32::MIN / 2);
}

#[test]
fn powershell_quoting() {
    assert_eq!(escape_for_powershell_single_quote("C:\\Users\\O'Brien"), "C:\\Users\\O''Brien");
    assert_eq!(escape_for_powershell_single_quote("''"), "''''");
    assert_eq!(escape_for_powershell_single_quote("plain"), "plain");
    for s in ["", "'", "a'b''c", "x"] {
        let e = escape_for_powershell_single_quote(s);
        assert_eq!(e.replace("''", "'"), s);
    }
}

#[test]
fn texts() {
    let body = interceptor_setup_failure_body("boom: cause");
    assert!(body.starts_with("Could not enable launch interception.\n\nReason:\nboom: cause\n\nRecommended fixes:\n1) Launch Helium once"));
    assert!(body.ends_with("5) Try \"Enable Interceptor\" again."));
    assert_eq!(explorer_stop_failure_message(Some(1)), "Stopping Explorer returned exit code Some(1)");
    let script = cleanup_script(4242, "C:\\L'x\\hupdater", "C:\\R\\hupdater");
    assert!(script.starts_with("$pidToWait = 4242\n$targets = @(\n    'C:\\L''x\\hupdater',\n    'C:\\R\\hupdater'\n)\n"));
    assert!(script.contains("for ($i = 0; $i -lt 120; $i++) {"));
    assert!(script.ends_with("    ) | Out-Null\n}\n"));
    // Every running updater is stopped before the folders are deleted.
    let stop = script
        .find("Get-Process -Name 'hupdater' -ErrorAction SilentlyContinue | Stop-Process -Force")
        .unwrap();
    let remove = script.find("Remove-Item").unwrap();
    assert!(stop < remove);
}

#[test]
fn route_buttons_side_by_side() {
    for dpi in [96, 120, 144, 168, 192, 288, 1, 7] {
        let l = control_layout_for_dpi(dpi);
        assert!(l.enable.x + l.enable.width <= l.restore.x);
        assert!(l.restore.x + l.restore.width <= l.help.x);
    }
}

#[test]
fn group_boxes_sit_on_painted_frames() {
    for dpi in [1, 72, 96, 120, 144, 192, 288, 480, 4_000_000, 400_000_000] {
        let rects = section_rects_for_dpi(dpi);
        let l = control_layout_for_dpi(dpi);
        for (g, r) in [(l.group_helium, rects[0]), (l.group_config, rects[1])] {
            assert_eq!((g.x, g.y), (r.left, r.top));
            assert_eq!((g.width, g.height), (r.right - r.left, r.bottom - r.top));
        }
    }
}

#[test]
fn supported_dpis() {
    assert!(dpi_supported(96));
    assert!(dpi_supported(400_000_000));
    assert!(dpi_supported(-400_000_000));
    assert!(!dpi_supported(400_000_001));
    assert!(!dpi_supported(i32::MIN));
}
