//! Panel colour palettes: `#rrggbb[aa]` parsing, palette-derived module
//! colours and per-panel colour overrides.

use vstd::prelude::*;
use vstd::string::StringSliceAdditionalSpecFns;
use vstd::utf8::encode_utf8;
use crate::config::{is_hex_color_spec, is_hex_digit_byte};

verus! {

/// An RGBA colour as `[r, g, b, a]` bytes.
pub type Color = [u8; 4];

/// `c` with its alpha channel replaced by `alpha`.
pub open spec fn with_alpha(c: Color, alpha: u8) -> Color {
    [c[0], c[1], c[2], alpha]
}

/// Average of a channel with a neutral grey level.
pub open spec fn mix_channel(channel: u8, neutral: u8) -> u8 {
    ((channel as int + neutral as int) / 2) as u8
}

/// `c` with every colour channel pulled half-way towards `neutral`, and alpha `alpha`.
pub open spec fn muted_spec(c: Color, neutral: u8, alpha: u8) -> Color {
    [mix_channel(c[0], neutral), mix_channel(c[1], neutral), mix_channel(c[2], neutral), alpha]
}

/// Replace the alpha channel of `c`.
pub fn set_alpha(c: Color, alpha: u8) -> (r: Color)
    ensures
        r == with_alpha(c, alpha),
{
    [c[0], c[1], c[2], alpha]
}

/// Desaturate `color` toward a neutral value while retaining enough alpha for
/// the workspace indicator to read as deliberately remote rather than absent.
pub fn muted_color(color: Color, neutral: u8, alpha: u8) -> (r: Color)
    ensures
        r == muted_spec(color, neutral, alpha),
{
    let r = ((color[0] as u16 + neutral as u16) / 2) as u8;
    let g = ((color[1] as u16 + neutral as u16) / 2) as u8;
    let b = ((color[2] as u16 + neutral as u16) / 2) as u8;
    [r, g, b, alpha]
}

/// Value of an ASCII hexadecimal digit.
pub open spec fn hex_digit_value(b: u8) -> Option<u8> {
    if 0x30 <= b <= 0x39 {
        Some((b - 0x30) as u8)
    } else if 0x61 <= b <= 0x66 {
        Some((b - 0x61 + 10) as u8)
    } else if 0x41 <= b <= 0x46 {
        Some((b - 0x41 + 10) as u8)
    } else {
        None
    }
}

/// Value of two ASCII hexadecimal digits, high digit first.
pub open spec fn hex_pair_spec(x: u8, y: u8) -> Option<u8> {
    match (hex_digit_value(x), hex_digit_value(y)) {
        (Some(a), Some(b)) => Some((a * 16 + b) as u8),
        _ => None,
    }
}

/// `#` followed by six or eight bytes.
pub open spec fn has_hex_color_shape(b: Seq<u8>) -> bool {
    b.len() >= 1 && b[0] == 0x23 && (b.len() == 7 || b.len() == 9)
}

/// The colour a `#rrggbb` (alpha 255) or `#rrggbbaa` text denotes, given
/// as its UTF-8 bytes; none for any other text.
pub open spec fn parse_hex_spec(b: Seq<u8>) -> Option<Color> {
    if !has_hex_color_shape(b) {
        None
    } else {
        match (hex_pair_spec(b[1], b[2]), hex_pair_spec(b[3], b[4]), hex_pair_spec(b[5], b[6])) {
            (Some(r), Some(g), Some(bl)) => if b.len() == 7 {
                Some([r, g, bl, 255u8])
            } else {
                match hex_pair_spec(b[7], b[8]) {
                    Some(a) => Some([r, g, bl, a]),
                    None => None,
                }
            },
            _ => None,
        }
    }
}

/// A text denotes a colour exactly when it is `#` followed by six or eight
/// ASCII hexadecimal digits, the texts [`is_hex_color_spec`] accepts.
pub proof fn lemma_parse_hex_accepts_hex_colors(b: Seq<u8>)
    ensures
        parse_hex_spec(b) is Some <==> is_hex_color_spec(b),
{
    if has_hex_color_shape(b) {
        if parse_hex_spec(b) is Some {
            assert forall|i: int| 1 <= i < b.len() implies is_hex_digit_byte(#[trigger] b[i]) by {
                assert(hex_digit_value(b[i]) is Some);
            }
        }
        if is_hex_color_spec(b) {
            assert(is_hex_digit_byte(b[1]) && is_hex_digit_byte(b[2]) && is_hex_digit_byte(b[3]));
            assert(is_hex_digit_byte(b[4]) && is_hex_digit_byte(b[5]) && is_hex_digit_byte(b[6]));
            if b.len() == 9 {
                assert(is_hex_digit_byte(b[7]) && is_hex_digit_byte(b[8]));
            }
        }
    }
}

fn hex_digit(b: u8) -> (r: Option<u8>)
    ensures
        r == hex_digit_value(b),
{
    if 0x30 <= b && b <= 0x39 {
        Some(b - 0x30)
    } else if 0x61 <= b && b <= 0x66 {
        Some(b - 0x61 + 10)
    } else if 0x41 <= b && b <= 0x46 {
        Some(b - 0x41 + 10)
    } else {
        None
    }
}

fn hex_pair(x: u8, y: u8) -> (r: Option<u8>)
    ensures
        r == hex_pair_spec(x, y),
{
    match (hex_digit(x), hex_digit(y)) {
        (Some(a), Some(b)) => Some(a * 16 + b),
        _ => None,
    }
}

/// RGBA colour palette for a panel.
#[derive(Debug, Clone, Copy, PartialEq, Eq)]
pub struct ColorPalette {
    pub background: Color,
    pub foreground: Color,
    pub accent: Color,
    pub urgent: Color,
    pub separator: Color,
}

impl ColorPalette {
    /// Parse an `#rrggbb` or `#rrggbbaa` hex string into an RGBA byte array:
    /// some colour exactly for `#` and six or eight hex digits, alpha 255
    /// for the six-digit form.
    pub fn parse_hex(s: &str) -> (r: Option<Color>)
        ensures
            r == parse_hex_spec(s.spec_bytes()),
            r is Some <==> is_hex_color_spec(s.spec_bytes()),
    {
        proof {
            lemma_parse_hex_accepts_hex_colors(s.spec_bytes());
        }
        let b = s.as_bytes();
        let n = b.len();
        if n < 1 || b[0] != 0x23 || (n != 7 && n != 9) {
            return None;
        }
        let r = match hex_pair(b[1], b[2]) {
            Some(v) => v,
            None => return None,
        };
        let g = match hex_pair(b[3], b[4]) {
            Some(v) => v,
            None => return None,
        };
        let bl = match hex_pair(b[5], b[6]) {
            Some(v) => v,
            None => return None,
        };
        if n == 7 {
            Some([r, g, bl, 255])
        } else {
            match hex_pair(b[7], b[8]) {
                Some(a) => Some([r, g, bl, a]),
                None => None,
            }
        }
    }
}

/// Resolved colors for the `window_list` module.
#[derive(Debug, Clone, Copy, PartialEq, Eq)]
pub struct ResolvedWindowListStyle {
    pub active_background: Color,
    pub active_foreground: Color,
    pub inactive_background: Color,
    pub inactive_foreground: Color,
}

/// Resolved colors for the `workspaces` module.
#[derive(Debug, Clone, Copy, PartialEq, Eq)]
pub struct ResolvedWorkspacesStyle {
    pub active_background: Color,
    pub active_foreground: Color,
    pub inactive_background: Color,
    pub inactive_foreground: Color,
    /// Background for a workspace owned by another output.
    pub remote_background: Color,
    /// Foreground for a workspace owned by another output.
    pub remote_foreground: Color,
    /// Deliberately muted urgency background for another output.
    pub remote_urgent_background: Color,
    /// Foreground for a muted urgent workspace on another output.
    pub remote_urgent_foreground: Color,
}

/// Resolved (color-parsed) per-module style overrides for a panel.
#[derive(Debug, Clone, Copy, PartialEq, Eq)]
pub struct ResolvedModuleStyles {
    pub window_list: ResolvedWindowListStyle,
    pub workspaces: ResolvedWorkspacesStyle,
}

/// Module colours derived from a palette: accent and foreground based,
/// with fixed alphas and muted greys for workspaces on other outputs.
pub open spec fn palette_module_styles(c: ColorPalette) -> ResolvedModuleStyles {
    ResolvedModuleStyles {
        window_list: ResolvedWindowListStyle {
            active_background: with_alpha(c.accent, 200),
            active_foreground: c.background,
            inactive_background: with_alpha(c.foreground, 10),
            inactive_foreground: c.foreground,
        },
        workspaces: ResolvedWorkspacesStyle {
            active_background: c.accent,
            active_foreground: c.background,
            inactive_background: with_alpha(c.foreground, 80),
            inactive_foreground: c.foreground,
            remote_background: muted_spec(c.foreground, 96, 80),
            remote_foreground: muted_spec(c.foreground, 160, 190),
            remote_urgent_background: muted_spec(c.urgent, 112, 190),
            remote_urgent_foreground: muted_spec(c.foreground, 160, 190),
        },
    }
}

impl Default for ResolvedModuleStyles {
    fn default() -> (r: Self)
        ensures
            r.window_list == (ResolvedWindowListStyle {
                active_background: [80, 160, 255, 200],
                active_foreground: [30, 30, 30, 255],
                inactive_background: [255, 255, 255, 10],
                inactive_foreground: [255, 255, 255, 255],
            }),
            r.workspaces == (ResolvedWorkspacesStyle {
                active_background: [80, 160, 255, 255],
                active_foreground: [30, 30, 30, 255],
                inactive_background: [255, 255, 255, 80],
                inactive_foreground: [255, 255, 255, 255],
                remote_background: [128, 128, 128, 80],
                remote_foreground: [192, 192, 192, 190],
                remote_urgent_background: [150, 96, 96, 190],
                remote_urgent_foreground: [245, 225, 225, 220],
            }),
    {
        ResolvedModuleStyles {
            window_list: ResolvedWindowListStyle {
                active_background: [80, 160, 255, 200],
                active_foreground: [30, 30, 30, 255],
                inactive_background: [255, 255, 255, 10],
                inactive_foreground: [255, 255, 255, 255],
            },
            workspaces: ResolvedWorkspacesStyle {
                active_background: [80, 160, 255, 255],
                active_foreground: [30, 30, 30, 255],
                inactive_background: [255, 255, 255, 80],
                inactive_foreground: [255, 255, 255, 255],
                remote_background: [128, 128, 128, 80],
                remote_foreground: [192, 192, 192, 190],
                remote_urgent_background: [150, 96, 96, 190],
                remote_urgent_foreground: [245, 225, 225, 220],
            },
        }
    }
}

impl ResolvedModuleStyles {
    /// Build default module styles from a resolved color palette.
    pub fn from_palette(colors: &ColorPalette) -> (r: Self)
        ensures
            r == palette_module_styles(*colors),
    {
        let remote_foreground = muted_color(colors.foreground, 160, 190);
        ResolvedModuleStyles {
            window_list: ResolvedWindowListStyle {
                active_background: set_alpha(colors.accent, 200),
                active_foreground: colors.background,
                inactive_background: set_alpha(colors.foreground, 10),
                inactive_foreground: colors.foreground,
            },
            workspaces: ResolvedWorkspacesStyle {
                active_background: colors.accent,
                active_foreground: colors.background,
                inactive_background: set_alpha(colors.foreground, 80),
                inactive_foreground: colors.foreground,
                remote_background: muted_color(colors.foreground, 96, 80),
                remote_foreground,
                remote_urgent_background: muted_color(colors.urgent, 112, 190),
                remote_urgent_foreground: remote_foreground,
            },
        }
    }
}

/// Per-panel colour overrides for the `window_list` module, as written in a theme.
#[derive(Debug, Clone, Default)]
pub struct WindowListStyleDef {
    pub active_background: Option<String>,
    pub active_foreground: Option<String>,
    pub inactive_background: Option<String>,
    pub inactive_foreground: Option<String>,
}

/// Per-panel colour overrides for the `workspaces` module, as written in a theme.
#[derive(Debug, Clone, Default)]
pub struct WorkspacesStyleDef {
    pub active_background: Option<String>,
    pub active_foreground: Option<String>,
    pub inactive_background: Option<String>,
    pub inactive_foreground: Option<String>,
    pub remote_background: Option<String>,
    pub remote_foreground: Option<String>,
    pub remote_urgent_background: Option<String>,
    pub remote_urgent_foreground: Option<String>,
}

/// The `[panels.module_styles]` section of a theme panel.
#[derive(Debug, Clone, Default)]
pub struct ModuleStyleMap {
    pub window_list: Option<WindowListStyleDef>,
    pub workspaces: Option<WorkspacesStyleDef>,
}

/// The colour an optional text denotes, or `fallback` when it is absent or invalid.
pub open spec fn color_or(o: Option<String>, fallback: Color) -> Color {
    match o {
        Some(s) => match parse_hex_spec(encode_utf8(s@)) {
            Some(c) => c,
            None => fallback,
        },
        None => fallback,
    }
}

/// Module colours for a panel: each colour the theme sets explicitly (and
/// that parses) wins, every other one is the palette-derived default.
pub open spec fn resolve_module_styles_spec(m: ModuleStyleMap, c: ColorPalette) -> ResolvedModuleStyles {
    let d = palette_module_styles(c);
    ResolvedModuleStyles {
        window_list: match m.window_list {
            Some(w) => ResolvedWindowListStyle {
                active_background: color_or(w.active_background, d.window_list.active_background),
                active_foreground: color_or(w.active_foreground, d.window_list.active_foreground),
                inactive_background: color_or(
                    w.inactive_background,
                    d.window_list.inactive_background,
                ),
                inactive_foreground: color_or(
                    w.inactive_foreground,
                    d.window_list.inactive_foreground,
                ),
            },
            None => d.window_list,
        },
        workspaces: match m.workspaces {
            Some(w) => ResolvedWorkspacesStyle {
                active_background: color_or(w.active_background, d.workspaces.active_background),
                active_foreground: color_or(w.active_foreground, d.workspaces.active_foreground),
                inactive_background: color_or(
                    w.inactive_background,
                    d.workspaces.inactive_background,
                ),
                inactive_foreground: color_or(
                    w.inactive_foreground,
                    d.workspaces.inactive_foreground,
                ),
                remote_background: color_or(w.remote_background, d.workspaces.remote_background),
                remote_foreground: color_or(w.remote_foreground, d.workspaces.remote_foreground),
                remote_urgent_background: color_or(
                    w.remote_urgent_background,
                    d.workspaces.remote_urgent_background,
                ),
                remote_urgent_foreground: color_or(
                    w.remote_urgent_foreground,
                    d.workspaces.remote_urgent_foreground,
                ),
            },
            None => d.workspaces,
        },
    }
}

/// The colour an optional hex text denotes, else `fallback`.
pub fn parse_or(hex: &Option<String>, fallback: Color) -> (r: Color)
    ensures
        r == color_or(*hex, fallback),
{
    match hex {
        Some(s) => match ColorPalette::parse_hex(s.as_str()) {
            Some(c) => c,
            None => fallback,
        },
        None => fallback,
    }
}

/// Resolve per-panel module styles from raw theme definitions, falling back
/// to palette-derived defaults for any missing or invalid color values.
pub fn resolve_module_styles_for_panel(module_styles: &ModuleStyleMap, base_colors: &ColorPalette)
    -> (r: ResolvedModuleStyles)
    ensures
        r == resolve_module_styles_spec(*module_styles, *base_colors),
{
    let d = ResolvedModuleStyles::from_palette(base_colors);
    let window_list = match &module_styles.window_list {
        Some(w) => ResolvedWindowListStyle {
            active_background: parse_or(&w.active_background, d.window_list.active_background),
            active_foreground: parse_or(&w.active_foreground, d.window_list.active_foreground),
            inactive_background: parse_or(
                &w.inactive_background,
                d.window_list.inactive_background,
            ),
            inactive_foreground: parse_or(
                &w.inactive_foreground,
                d.window_list.inactive_foreground,
            ),
        },
        None => d.window_list,
    };
    let workspaces = match &module_styles.workspaces {
        Some(w) => ResolvedWorkspacesStyle {
            active_background: parse_or(&w.active_background, d.workspaces.active_background),
            active_foreground: parse_or(&w.active_foreground, d.workspaces.active_foreground),
            inactive_background: parse_or(
                &w.inactive_background,
                d.workspaces.inactive_background,
            ),
            inactive_foreground: parse_or(
                &w.inactive_foreground,
                d.workspaces.inactive_foreground,
            ),
            remote_background: parse_or(&w.remote_background, d.workspaces.remote_background),
            remote_foreground: parse_or(&w.remote_foreground, d.workspaces.remote_foreground),
            remote_urgent_background: parse_or(
                &w.remote_urgent_background,
                d.workspaces.remote_urgent_background,
            ),
            remote_urgent_foreground: parse_or(
                &w.remote_urgent_foreground,
                d.workspaces.remote_urgent_foreground,
            ),
        },
        None => d.workspaces,
    };
    ResolvedModuleStyles { window_list, workspaces }
}

/// A panel without module style overrides gets exactly the palette-derived
/// module colours, the same ones `ResolvedModuleStyles::from_palette` builds.
pub proof fn law_empty_style_map_uses_palette_defaults(c: ColorPalette)
    ensures
        resolve_module_styles_spec(
            ModuleStyleMap { window_list: None, workspaces: None },
            c,
        ) == palette_module_styles(c),
{
}

/// A colour written explicitly in the theme, when valid, is used as is.
pub proof fn law_explicit_color_wins(s: String, fallback: Color)
    requires
        parse_hex_spec(encode_utf8(s@)) is Some,
    ensures
        color_or(Some(s), fallback) == parse_hex_spec(encode_utf8(s@))->0,
{
}

/// The colours a theme's `[style]` block sets, as written (each optional).
#[derive(Debug, Clone, Default, PartialEq, Eq)]
pub struct StyleColors {
    pub background_color: Option<String>,
    pub foreground_color: Option<String>,
    pub accent_color: Option<String>,
    pub urgent_color: Option<String>,
    pub separator_color: Option<String>,
}

/// A panel's palette: each colour the theme sets (and that parses) is used,
/// the user's accent override beats the theme's accent, and every other
/// colour has its default (background `#1e1e1ee6`, foreground white, accent
/// `#50a0ff`, urgent `#ff5050`, separator half-transparent grey).
pub open spec fn resolved_palette(style: StyleColors, accent_override: Option<String>) -> ColorPalette {
    ColorPalette {
        background: color_or(style.background_color, [30u8, 30u8, 30u8, 230u8]),
        foreground: color_or(style.foreground_color, [255u8, 255u8, 255u8, 255u8]),
        accent: color_or(
            match accent_override {
                Some(a) => Some(a),
                None => style.accent_color,
            },
            [80u8, 160u8, 255u8, 255u8],
        ),
        urgent: color_or(style.urgent_color, [255u8, 80u8, 80u8, 255u8]),
        separator: color_or(style.separator_color, [128u8, 128u8, 128u8, 128u8]),
    }
}

/// Resolve a panel's palette (see [`resolved_palette`]).
pub fn resolve_palette(style: &StyleColors, accent_override: &Option<String>) -> (r: ColorPalette)
    ensures
        r == resolved_palette(*style, *accent_override),
{
    let accent = match accent_override {
        Some(_) => parse_or(accent_override, [80, 160, 255, 255]),
        None => parse_or(&style.accent_color, [80, 160, 255, 255]),
    };
    ColorPalette {
        background: parse_or(&style.background_color, [30, 30, 30, 230]),
        foreground: parse_or(&style.foreground_color, [255, 255, 255, 255]),
        accent,
        urgent: parse_or(&style.urgent_color, [255, 80, 80, 255]),
        separator: parse_or(&style.separator_color, [128, 128, 128, 128]),
    }
}

/// The font family: the user's override, else the theme's, else `sans-serif`.
pub fn resolve_font_family(user: &Option<String>, theme: &Option<String>) -> (r: String)
    ensures
        r@ == (match *user {
            Some(f) => f@,
            None => match *theme {
                Some(f) => f@,
                None => "sans-serif"@,
            },
        }),
{
    match user {
        Some(f) => f.clone(),
        None => match theme {
            Some(f) => f.clone(),
            None => "sans-serif".to_owned(),
        },
    }
}

/// The user's accent colour, when valid, beats whatever the theme sets.
pub proof fn law_accent_override_wins(style: StyleColors, accent: String)
    requires
        parse_hex_spec(encode_utf8(accent@)) is Some,
    ensures
        resolved_palette(style, Some(accent)).accent == parse_hex_spec(encode_utf8(accent@))->0,
{
}

} // verus!
