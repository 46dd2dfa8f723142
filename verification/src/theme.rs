//! Light and dark appearance of the window.
use vstd::prelude::*;

verus! {

/// A `COLORREF` value: red in the low byte, then green, then blue.
pub open spec fn rgb_value(r: u8, g: u8, b: u8) -> u32 {
    (r as int + g as int * 256 + b as int * 65536) as u32
}

/// Packs a colour as a `COLORREF` value.
pub fn rgb(r: u8, g: u8, b: u8) -> (c: u32)
    ensures
        c == rgb_value(r, g, b),
{
    let rr = r as u32;
    let gg = g as u32;
    let bb = b as u32;
    assert(rr | (gg << 8u32) | (bb << 16u32) == rr + gg * 256 + bb * 65536) by (bit_vector)
        requires
            rr < 256,
            gg < 256,
            bb < 256,
    ;
    rr | (gg << 8u32) | (bb << 16u32)
}

/// The colours of the window, and whether it paints with brushes of its own.
#[derive(Clone, Copy, PartialEq, Eq, Structural, Debug)]
pub struct ThemeColors {
    pub background: u32,
    pub surface: u32,
    pub text: u32,
    pub border: u32,
    pub divider: u32,
    pub custom_brushes: bool,
}

pub open spec fn theme_colors_spec(dark: bool) -> ThemeColors {
    if dark {
        ThemeColors {
            background: rgb_value(32, 32, 32),
            surface: rgb_value(43, 43, 43),
            text: rgb_value(243, 243, 243),
            border: rgb_value(78, 78, 78),
            divider: rgb_value(96, 96, 96),
            custom_brushes: true,
        }
    } else {
        ThemeColors {
            background: 0,
            surface: 0,
            text: 0,
            border: rgb_value(210, 210, 210),
            divider: rgb_value(198, 198, 198),
            custom_brushes: false,
        }
    }
}

/// The colours of the dark or the light theme.
pub fn theme_colors(dark: bool) -> (t: ThemeColors)
    ensures
        t == theme_colors_spec(dark),
{
    if dark {
        ThemeColors {
            background: rgb(32, 32, 32),
            surface: rgb(43, 43, 43),
            text: rgb(243, 243, 243),
            border: rgb(78, 78, 78),
            divider: rgb(96, 96, 96),
            custom_brushes: true,
        }
    } else {
        ThemeColors {
            background: 0,
            surface: 0,
            text: 0,
            border: rgb(210, 210, 210),
            divider: rgb(198, 198, 198),
            custom_brushes: false,
        }
    }
}

/// Dark mode is on when `AppsUseLightTheme` is present and 0.
pub fn dark_mode_from_setting(apps_use_light_theme: Option<u32>) -> (dark: bool)
    ensures
        dark == (apps_use_light_theme == Some(0u32)),
{
    match apps_use_light_theme {
        Some(v) => v == 0,
        None => false,
    }
}

/// Whether to paint with the window's own brush (`brush` is its handle, 0 when
/// none was created) rather than a system colour.
pub fn use_own_brush(dark: bool, brush: isize) -> (r: bool)
    ensures
        r == (dark && brush != 0),
{
    dark && brush != 0
}

/// The visual style of the push buttons.
pub fn button_theme_name(dark: bool) -> (r: &'static str)
    ensures
        r@ == (if dark {
            "DarkMode_Explorer"@
        } else {
            "Explorer"@
        }),
{
    if dark {
        "DarkMode_Explorer"
    } else {
        "Explorer"
    }
}

/// The visual style of the drop-down list.
pub fn combo_theme_name(dark: bool) -> (r: &'static str)
    ensures
        r@ == (if dark {
            "DarkMode_CFD"@
        } else {
            "CFD"@
        }),
{
    if dark {
        "DarkMode_CFD"
    } else {
        "CFD"
    }
}

/// The notification code of a `WM_COMMAND` message: the high word of `wparam`.
pub fn command_notification(wparam: usize) -> (code: u16)
    ensures
        code == ((wparam as int / 65536) % 65536) as u16,
{
    let w = wparam as u64;
    let hi = (w >> 16u64) & 0xFFFFu64;
    assert(hi == (w / 65536) % 65536) by (bit_vector)
        requires
            hi == (w >> 16u64) & 0xFFFFu64,
    ;
    hi as u16
}

/// The height of the title font: one and a half times the message font's,
/// computed with saturating multiplication.
pub open spec fn title_height(h: i32) -> i32 {
    let p = h as int * 3;
    let sat = if p > i32::MAX {
        i32::MAX as int
    } else if p < i32::MIN {
        i32::MIN as int
    } else {
        p
    };
    crate::layout::trunc_div(sat, 2) as i32
}

pub fn title_font_height(h: i32) -> (r: i32)
    ensures
        r == title_height(h),
{
    let p = h as i64 * 3;
    let sat: i32 = if p > i32::MAX as i64 {
        i32::MAX
    } else if p < i32::MIN as i64 {
        i32::MIN
    } else {
        p as i32
    };
    sat / 2
}

} // verus!
