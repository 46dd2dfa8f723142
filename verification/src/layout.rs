//! Geometry and colours of the updater's window.
use vstd::prelude::*;

verus! {

/// Division truncating toward zero, as Rust's `/` on signed integers.
pub open spec fn trunc_div(a: int, b: int) -> int {
    if a >= 0 {
        a / b
    } else {
        -((-a) / b)
    }
}

/// A length given at 96 DPI, scaled to `dpi` and rounded to nearest.
pub open spec fn scaled(value: int, dpi: int) -> int {
    trunc_div(value * dpi + 48, 96)
}

/// Scales a length given at 96 DPI to the given DPI, rounding to nearest.
pub fn scale_for_dpi(value: i32, dpi: i32) -> (r: i32)
    ensures
        r == #[verifier::truncate] (scaled(value as int, dpi as int) as i32),
{
    let v = value as i64;
    let d = dpi as i64;
    assert(-0x4000_0000_0000_0000 <= v * d <= 0x4000_0000_0000_0000) by (nonlinear_arith)
        requires
            -0x8000_0000 <= v <= 0x7fff_ffff,
            -0x8000_0000 <= d <= 0x7fff_ffff,
    ;
    let p = v * d + 48;
    let q = p / 96;
    #[verifier::truncate] (q as i32)
}

/// The DPI range over which the window's geometry stays within `i32`.
pub open spec fn dpi_in_range(dpi: int) -> bool {
    -400_000_000 <= dpi <= 400_000_000
}

/// Whether the window can be laid out at this DPI (see `dpi_in_range`).
pub fn dpi_supported(dpi: i32) -> (r: bool)
    ensures
        r == dpi_in_range(dpi as int),
{
    -400_000_000 <= dpi && dpi <= 400_000_000
}

proof fn lemma_scaled_bounds(v: int, dpi: int)
    requires
        0 <= v <= 500,
        dpi_in_range(dpi),
    ensures
        -(v * 4_200_000) - 1 <= scaled(v, dpi) <= v * 4_200_000 + 1,
{
    assert(-(v * 400_000_000) <= v * dpi <= v * 400_000_000) by (nonlinear_arith)
        requires
            0 <= v <= 500,
            -400_000_000 <= dpi <= 400_000_000,
    ;
}

/// Scales one of the window's fixed lengths, which lie between 0 and 500.
fn scale(value: i32, dpi: i32) -> (r: i32)
    requires
        0 <= value <= 500,
        dpi_in_range(dpi as int),
    ensures
        r as int == scaled(value as int, dpi as int),
        -(value * 4_200_000) - 1 <= r <= value * 4_200_000 + 1,
{
    proof {
        lemma_scaled_bounds(value as int, dpi as int);
    }
    scale_for_dpi(value, dpi)
}

/// A rectangle by its edges.
#[derive(Clone, Copy, PartialEq, Eq, Structural, Debug)]
pub struct Rect {
    pub left: i32,
    pub top: i32,
    pub right: i32,
    pub bottom: i32,
}

/// The logical width and height of the window's client area.
pub const CLIENT_WIDTH: i32 = 480;

pub const CLIENT_HEIGHT: i32 = 340;

pub open spec fn sc(v: int, dpi: int) -> int {
    scaled(v, dpi)
}

pub open spec fn margin(dpi: int) -> int {
    sc(12, dpi)
}

pub open spec fn content_width(dpi: int) -> int {
    sc(456, dpi)
}

pub open spec fn helium_title_y(dpi: int) -> int {
    sc(10, dpi) + sc(30, dpi) + sc(2, dpi) + sc(22, dpi) + sc(12, dpi)
}

pub open spec fn helium_y(dpi: int) -> int {
    helium_title_y(dpi) + sc(20, dpi) + sc(4, dpi)
}

pub open spec fn config_title_y(dpi: int) -> int {
    helium_y(dpi) + sc(76, dpi) + sc(12, dpi)
}

pub open spec fn config_y(dpi: int) -> int {
    config_title_y(dpi) + sc(20, dpi) + sc(4, dpi)
}

/// The frames of the Helium section and the configuration section.
pub open spec fn section_rects(dpi: int) -> Seq<Rect> {
    seq![
        Rect {
            left: margin(dpi) as i32,
            top: helium_y(dpi) as i32,
            right: (margin(dpi) + content_width(dpi)) as i32,
            bottom: (helium_y(dpi) + sc(76, dpi)) as i32,
        },
        Rect {
            left: margin(dpi) as i32,
            top: config_y(dpi) as i32,
            right: (margin(dpi) + content_width(dpi)) as i32,
            bottom: (config_y(dpi) + sc(122, dpi)) as i32,
        },
    ]
}

/// The frames of the two sections of the window at the given DPI.
pub fn section_rects_for_dpi(dpi: i32) -> (r: [Rect; 2])
    requires
        dpi_in_range(dpi as int),
    ensures
        r@ == section_rects(dpi as int),
{
    let margin = scale(12, dpi);
    let content_width = scale(CLIENT_WIDTH - 24, dpi);
    let title_y = scale(10, dpi);
    let title_h = scale(30, dpi);
    let subtitle_y = title_y + title_h + scale(2, dpi);
    let subtitle_h = scale(22, dpi);
    let section_title_h = scale(20, dpi);
    let frame_gap = scale(4, dpi);
    let helium_title_y = subtitle_y + subtitle_h + scale(12, dpi);
    let helium_y = helium_title_y + section_title_h + frame_gap;
    let helium_h = scale(76, dpi);
    let config_title_y = helium_y + helium_h + scale(12, dpi);
    let config_y = config_title_y + section_title_h + frame_gap;
    let config_h = scale(122, dpi);
    let r = [
        Rect {
            left: margin,
            top: helium_y,
            right: margin + content_width,
            bottom: helium_y + helium_h,
        },
        Rect {
            left: margin,
            top: config_y,
            right: margin + content_width,
            bottom: config_y + config_h,
        },
    ];
    assert(r@ =~= section_rects(dpi as int));
    r
}

/// The lines after the two section titles: start x, y, end x.
pub open spec fn section_dividers(dpi: int) -> Seq<(i32, i32, i32)> {
    seq![
        (
            (margin(dpi) + sc(52, dpi) + sc(8, dpi)) as i32,
            (helium_title_y(dpi) + trunc_div(sc(20, dpi), 2)) as i32,
            (margin(dpi) + content_width(dpi)) as i32,
        ),
        (
            (margin(dpi) + sc(92, dpi) + sc(8, dpi)) as i32,
            (config_title_y(dpi) + trunc_div(sc(20, dpi), 2)) as i32,
            (margin(dpi) + content_width(dpi)) as i32,
        ),
    ]
}

/// The divider lines drawn after the two section titles at the given DPI.
pub fn section_dividers_for_dpi(dpi: i32) -> (r: [(i32, i32, i32); 2])
    requires
        dpi_in_range(dpi as int),
    ensures
        r@ == section_dividers(dpi as int),
{
    let margin = scale(12, dpi);
    let content_width = scale(CLIENT_WIDTH - 24, dpi);
    let title_y = scale(10, dpi);
    let title_h = scale(30, dpi);
    let subtitle_y = title_y + title_h + scale(2, dpi);
    let subtitle_h = scale(22, dpi);
    let section_title_h = scale(20, dpi);
    let helium_title_y = subtitle_y + subtitle_h + scale(12, dpi);
    let config_title_y = helium_title_y + section_title_h + scale(4, dpi) + scale(76, dpi) + scale(
        12,
        dpi,
    );
    let divider_gap = scale(8, dpi);
    let divider_end = margin + content_width;
    let r = [
        (margin + scale(52, dpi) + divider_gap, helium_title_y + section_title_h / 2, divider_end),
        (margin + scale(92, dpi) + divider_gap, config_title_y + section_title_h / 2, divider_end),
    ];
    assert(r@ =~= section_dividers(dpi as int));
    r
}

/// The window's client size: its logical size scaled to the DPI.
pub fn client_size_for_dpi(dpi: i32) -> (r: (i32, i32))
    requires
        dpi_in_range(dpi as int),
    ensures
        r.0 == sc(480, dpi as int),
        r.1 == sc(340, dpi as int),
{
    (scale(CLIENT_WIDTH, dpi), scale(CLIENT_HEIGHT, dpi))
}

/// The DPI to lay out with: the window's, or 96 when the system reports none.
pub fn effective_dpi(reported: u32) -> (r: i32)
    ensures
        r == (if reported == 0 {
            96i32
        } else {
            #[verifier::truncate] (reported as i32)
        }),
{
    if reported == 0 {
        96
    } else {
        #[verifier::truncate] (reported as i32)
    }
}

// ---------------------------------------------------------------------------
// Laws
// ---------------------------------------------------------------------------

/// At 96 DPI, lengths are unchanged.
pub proof fn law_scale_identity_at_96(value: i32)
    requires
        value >= 0,
    ensures
        scaled(value as int, 96) == value,
{
}

/// Scaling is monotonic in the length for a positive DPI.
pub proof fn law_scale_monotonic(a: int, b: int, dpi: int)
    requires
        a <= b,
        dpi > 0,
        a * dpi + 48 >= 0,
    ensures
        scaled(a, dpi) <= scaled(b, dpi),
{
    assert(a * dpi <= b * dpi) by (nonlinear_arith)
        requires
            a <= b,
            dpi > 0,
    ;
}

/// Each divider ends at the right edge of its section's frame, starts inside
/// it, and lies no lower than the frame's top.
pub proof fn law_dividers_fit_frames(dpi: int)
    requires
        1 <= dpi <= 400_000_000,
    ensures
        forall|i: int|
            0 <= i < 2 ==> {
                &&& (#[trigger] section_dividers(dpi)[i]).2 == section_rects(dpi)[i].right
                &&& section_dividers(dpi)[i].0 >= section_rects(dpi)[i].left
                &&& section_dividers(dpi)[i].1 <= section_rects(dpi)[i].top
            },
{
    lemma_scaled_bounds(12, dpi);
    lemma_scaled_bounds(456, dpi);
    lemma_scaled_bounds(10, dpi);
    lemma_scaled_bounds(30, dpi);
    lemma_scaled_bounds(2, dpi);
    lemma_scaled_bounds(22, dpi);
    lemma_scaled_bounds(20, dpi);
    lemma_scaled_bounds(4, dpi);
    lemma_scaled_bounds(76, dpi);
    lemma_scaled_bounds(52, dpi);
    lemma_scaled_bounds(92, dpi);
    lemma_scaled_bounds(8, dpi);
    assert(section_dividers(dpi)[0].2 == section_rects(dpi)[0].right);
    assert(section_dividers(dpi)[1].2 == section_rects(dpi)[1].right);
}

} // verus!

verus! {

/// The position and size of a control, as `CreateWindowExW` takes them.
#[derive(Clone, Copy, PartialEq, Eq, Structural, Debug)]
pub struct Placement {
    pub x: i32,
    pub y: i32,
    pub width: i32,
    pub height: i32,
}

/// Where each control of the window goes.
#[derive(Clone, Copy, PartialEq, Eq, Structural, Debug)]
pub struct ControlLayout {
    pub title: Placement,
    pub subtitle: Placement,
    pub helium_title: Placement,
    pub group_helium: Placement,
    pub status_label: Placement,
    pub version_label: Placement,
    pub check_install: Placement,
    pub config_title: Placement,
    pub group_config: Placement,
    pub source_label: Placement,
    pub combo_source: Placement,
    pub interceptor_label: Placement,
    pub enable: Placement,
    pub restore: Placement,
    pub help: Placement,
    pub uninstall_label: Placement,
    pub uninstall: Placement,
}

pub open spec fn place(x: int, y: int, w: int, h: int) -> Placement {
    Placement { x: x as i32, y: y as i32, width: w as i32, height: h as i32 }
}

pub open spec fn inner_left(d: int) -> int {
    margin(d) + sc(12, d)
}

pub open spec fn right_button_x(d: int) -> int {
    margin(d) + content_width(d) - sc(180, d) - sc(8, d)
}

pub open spec fn help_button_x(d: int) -> int {
    margin(d) + content_width(d) - sc(8, d) - sc(22, d)
}

pub open spec fn restore_button_x(d: int) -> int {
    help_button_x(d) - sc(6, d) - sc(73, d)
}

pub open spec fn enable_button_x(d: int) -> int {
    restore_button_x(d) - sc(6, d) - sc(73, d)
}

pub open spec fn subtitle_y(d: int) -> int {
    sc(10, d) + sc(30, d) + sc(2, d)
}

pub open spec fn helium_row_y(d: int) -> int {
    helium_y(d) + sc(12, d)
}

pub open spec fn route_row_y(d: int) -> int {
    config_y(d) + sc(48, d)
}

pub open spec fn uninstall_row_y(d: int) -> int {
    config_y(d) + sc(82, d)
}

pub open spec fn source_row_y(d: int) -> int {
    config_y(d) + sc(14, d)
}

pub open spec fn control_layout(d: int) -> ControlLayout {
    ControlLayout {
        title: place(margin(d), sc(10, d), sc(300, d), sc(30, d)),
        subtitle: place(margin(d), subtitle_y(d), sc(452, d), sc(22, d)),
        helium_title: place(margin(d), helium_title_y(d), sc(56, d), sc(20, d)),
        group_helium: place(margin(d), helium_y(d), content_width(d), sc(76, d)),
        status_label: place(inner_left(d), helium_row_y(d), sc(292, d), sc(20, d)),
        version_label: place(inner_left(d), helium_row_y(d) + sc(24, d), sc(292, d), sc(20, d)),
        check_install: place(right_button_x(d), helium_row_y(d) + sc(6, d), sc(180, d), sc(30, d)),
        config_title: place(margin(d), config_title_y(d), sc(96, d), sc(20, d)),
        group_config: place(margin(d), config_y(d), content_width(d), sc(122, d)),
        source_label: place(inner_left(d), source_row_y(d), sc(210, d), sc(24, d)),
        combo_source: place(right_button_x(d), source_row_y(d) - sc(2, d), sc(180, d), sc(220, d)),
        interceptor_label: place(inner_left(d), route_row_y(d), sc(248, d), sc(24, d)),
        enable: place(enable_button_x(d), route_row_y(d) - sc(2, d), sc(73, d), sc(28, d)),
        restore: place(restore_button_x(d), route_row_y(d) - sc(2, d), sc(73, d), sc(28, d)),
        help: place(help_button_x(d), route_row_y(d) - sc(2, d), sc(22, d), sc(28, d)),
        uninstall_label: place(inner_left(d), uninstall_row_y(d), sc(248, d), sc(24, d)),
        uninstall: place(right_button_x(d), uninstall_row_y(d) - sc(2, d), sc(180, d), sc(28, d)),
    }
}

/// Where the window's controls go at the given DPI.
pub fn control_layout_for_dpi(dpi: i32) -> (r: ControlLayout)
    requires
        dpi_in_range(dpi as int),
    ensures
        r == control_layout(dpi as int),
{
    let margin = scale(12, dpi);
    let content_width = scale(CLIENT_WIDTH - 24, dpi);
    let inner_left = margin + scale(12, dpi);
    let combo_width = scale(180, dpi);
    let right_button_x = margin + content_width - combo_width - scale(8, dpi);
    let small_button_gap = scale(6, dpi);
    let help_button_w = scale(22, dpi);
    let action_button_w = scale(73, dpi);
    let help_button_x = margin + content_width - scale(8, dpi) - help_button_w;
    let restore_button_x = help_button_x - small_button_gap - action_button_w;
    let enable_button_x = restore_button_x - small_button_gap - action_button_w;
    let title_y = scale(10, dpi);
    let title_h = scale(30, dpi);
    let subtitle_y = title_y + title_h + scale(2, dpi);
    let subtitle_h = scale(22, dpi);
    let section_title_h = scale(20, dpi);
    let frame_gap = scale(4, dpi);
    let helium_title_y = subtitle_y + subtitle_h + scale(12, dpi);
    let helium_y = helium_title_y + section_title_h + frame_gap;
    let helium_h = scale(76, dpi);
    let helium_row_y = helium_y + scale(12, dpi);
    let helium_row2_y = helium_row_y + scale(24, dpi);
    let config_title_y = helium_y + helium_h + scale(12, dpi);
    let config_y = config_title_y + section_title_h + frame_gap;
    let config_h = scale(122, dpi);
    let source_row_y = config_y + scale(14, dpi);
    let route_row_y = config_y + scale(48, dpi);
    let uninstall_row_y = config_y + scale(82, dpi);
    let button_h = scale(28, dpi);
    let label_h = scale(24, dpi);
    let row_h = scale(20, dpi);
    let two = scale(2, dpi);
    ControlLayout {
        title: Placement { x: margin, y: title_y, width: scale(300, dpi), height: title_h },
        subtitle: Placement {
            x: margin,
            y: subtitle_y,
            width: scale(452, dpi),
            height: subtitle_h,
        },
        helium_title: Placement {
            x: margin,
            y: helium_title_y,
            width: scale(56, dpi),
            height: section_title_h,
        },
        group_helium: Placement {
            x: margin,
            y: helium_y,
            width: content_width,
            height: helium_h,
        },
        status_label: Placement {
            x: inner_left,
            y: helium_row_y,
            width: scale(292, dpi),
            height: row_h,
        },
        version_label: Placement {
            x: inner_left,
            y: helium_row2_y,
            width: scale(292, dpi),
            height: row_h,
        },
        check_install: Placement {
            x: right_button_x,
            y: helium_row_y + scale(6, dpi),
            width: combo_width,
            height: scale(30, dpi),
        },
        config_title: Placement {
            x: margin,
            y: config_title_y,
            width: scale(96, dpi),
            height: section_title_h,
        },
        group_config: Placement {
            x: margin,
            y: config_y,
            width: content_width,
            height: config_h,
        },
        source_label: Placement {
            x: inner_left,
            y: source_row_y,
            width: scale(210, dpi),
            height: label_h,
        },
        combo_source: Placement {
            x: margin + content_width - combo_width - scale(8, dpi),
            y: source_row_y - two,
            width: combo_width,
            height: scale(220, dpi),
        },
        interceptor_label: Placement {
            x: inner_left,
            y: route_row_y,
            width: scale(248, dpi),
            height: label_h,
        },
        enable: Placement {
            x: enable_button_x,
            y: route_row_y - two,
            width: action_button_w,
            height: button_h,
        },
        restore: Placement {
            x: restore_button_x,
            y: route_row_y - two,
            width: action_button_w,
            height: button_h,
        },
        help: Placement {
            x: help_button_x,
            y: route_row_y - two,
            width: help_button_w,
            height: button_h,
        },
        uninstall_label: Placement {
            x: inner_left,
            y: uninstall_row_y,
            width: scale(248, dpi),
            height: label_h,
        },
        uninstall: Placement {
            x: right_button_x,
            y: uninstall_row_y - two,
            width: combo_width,
            height: button_h,
        },
    }
}

/// The Enable, Restore and help buttons sit side by side, left to right,
/// separated by the small gap, at a positive DPI.
pub proof fn law_route_buttons_in_order(d: int)
    requires
        1 <= d <= 400_000_000,
    ensures
        control_layout(d).enable.x + control_layout(d).enable.width <= control_layout(d).restore.x,
        control_layout(d).restore.x + control_layout(d).restore.width <= control_layout(d).help.x,
{
    lemma_scaled_bounds(12, d);
    lemma_scaled_bounds(456, d);
    lemma_scaled_bounds(8, d);
    lemma_scaled_bounds(22, d);
    lemma_scaled_bounds(6, d);
    lemma_scaled_bounds(73, d);
}

/// The two group boxes are created exactly on the section frames that the
/// window paints: same left and top edge, same width and height.
pub proof fn law_group_frames_match_sections(d: int)
    requires
        dpi_in_range(d),
    ensures
        control_layout(d).group_helium.x == section_rects(d)[0].left,
        control_layout(d).group_helium.y == section_rects(d)[0].top,
        control_layout(d).group_helium.width == section_rects(d)[0].right - section_rects(d)[0].left,
        control_layout(d).group_helium.height == section_rects(d)[0].bottom - section_rects(d)[0].top,
        control_layout(d).group_config.x == section_rects(d)[1].left,
        control_layout(d).group_config.y == section_rects(d)[1].top,
        control_layout(d).group_config.width == section_rects(d)[1].right - section_rects(d)[1].left,
        control_layout(d).group_config.height == section_rects(d)[1].bottom - section_rects(d)[1].top,
{
    lemma_frame_bounds(d);
    let m = margin(d);
    let cw = content_width(d);
    let hy = helium_y(d);
    let cy = config_y(d);
    let hh = sc(76, d);
    let ch = sc(122, d);
    let r = section_rects(d);
    assert(r[0].left == m && r[0].top == hy && r[0].right == m + cw && r[0].bottom == hy + hh);
    assert(r[1].left == m && r[1].top == cy && r[1].right == m + cw && r[1].bottom == cy + ch);
    let l = control_layout(d);
    assert(l.group_helium == place(m, hy, cw, hh));
    assert(l.group_config == place(m, cy, cw, ch));
}

/// Every quantity that the section frames are built from fits in `i32`.
proof fn lemma_frame_bounds(d: int)
    requires
        dpi_in_range(d),
    ensures
        -100_000_000 <= margin(d) <= 100_000_000,
        -1_950_000_000 <= content_width(d) <= 1_950_000_000,
        -1_950_000_000 <= margin(d) + content_width(d) <= 1_950_000_000,
        -500_000_000 <= helium_y(d) <= 500_000_000,
        -1_000_000_000 <= helium_y(d) + sc(76, d) <= 1_000_000_000,
        -1_000_000_000 <= config_y(d) <= 1_000_000_000,
        -1_500_000_000 <= config_y(d) + sc(122, d) <= 1_500_000_000,
        -400_000_000 <= sc(76, d) <= 400_000_000,
        -600_000_000 <= sc(122, d) <= 600_000_000,
{
    lemma_scaled_bounds(12, d);
    lemma_scaled_bounds(456, d);
    lemma_scaled_bounds(10, d);
    lemma_scaled_bounds(30, d);
    lemma_scaled_bounds(2, d);
    lemma_scaled_bounds(22, d);
    lemma_scaled_bounds(20, d);
    lemma_scaled_bounds(4, d);
    lemma_scaled_bounds(76, d);
    lemma_scaled_bounds(122, d);
}

} // verus!
