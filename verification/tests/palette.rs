use hyprdeck::palette::{
    muted_color, resolve_font_family, resolve_module_styles_for_panel, resolve_palette, set_alpha,
    ColorPalette, ModuleStyleMap, ResolvedModuleStyles, StyleColors, WindowListStyleDef,
    WorkspacesStyleDef,
};

fn palette() -> ColorPalette {
    ColorPalette {
        background: [30, 30, 30, 255],
        foreground: [255, 255, 255, 255],
        accent: [80, 160, 255, 255],
        urgent: [255, 80, 80, 255],
        separator: [128, 128, 128, 128],
    }
}

#[test]
fn hex_colors_parse_with_and_without_alpha() {
    assert_eq!(ColorPalette::parse_hex("#ff0000"), Some([255, 0, 0, 255]));
    assert_eq!(ColorPalette::parse_hex("#1E1e1Ee6"), Some([30, 30, 30, 230]));
    assert_eq!(ColorPalette::parse_hex("ff0000"), None);
    assert_eq!(ColorPalette::parse_hex("#ff00"), None);
    assert_eq!(ColorPalette::parse_hex("#gg0000"), None);
    assert_eq!(ColorPalette::parse_hex("#ff0000f"), None);
    // Only hex digits: no signs, no other characters.
    assert_eq!(ColorPalette::parse_hex("#+f0000"), None);
    assert_eq!(ColorPalette::parse_hex("#+f+f+f"), None);
    // A multi-byte character is never a digit, and never makes parsing panic.
    assert_eq!(ColorPalette::parse_hex("#é0000"), None);
    assert_eq!(ColorPalette::parse_hex("#00é00"), None);
}

#[test]
fn resolve_style_uses_defaults_when_no_style_defined() {
    let colors = resolve_palette(&StyleColors::default(), &None);
    assert_eq!(colors.background, [30, 30, 30, 230]);
    assert_eq!(colors.foreground, [255, 255, 255, 255]);
    assert_eq!(colors.accent, [80, 160, 255, 255]);
    assert_eq!(colors.urgent, [255, 80, 80, 255]);
    assert_eq!(colors.separator, [128, 128, 128, 128]);
    assert_eq!(resolve_font_family(&None, &None), "sans-serif");
}

#[test]
fn resolve_style_applies_theme_overrides() {
    let style = StyleColors { background_color: Some("#ff0000".into()), ..StyleColors::default() };
    assert_eq!(resolve_palette(&style, &None).background, [255, 0, 0, 255]);
    assert_eq!(resolve_font_family(&None, &Some("monospace".into())), "monospace");
}

#[test]
fn resolve_style_user_overrides_take_precedence() {
    let style = StyleColors { accent_color: Some("#00ff00".into()), ..StyleColors::default() };
    let colors = resolve_palette(&style, &Some("#0000ff".into()));
    assert_eq!(colors.accent, [0, 0, 255, 255]);
    assert_eq!(resolve_palette(&style, &None).accent, [0, 255, 0, 255]);
    assert_eq!(resolve_font_family(&Some("serif".into()), &Some("monospace".into())), "serif");
}

#[test]
fn invalid_theme_colours_fall_back() {
    let style = StyleColors {
        urgent_color: Some("red".into()),
        separator_color: Some("#12345".into()),
        ..StyleColors::default()
    };
    let colors = resolve_palette(&style, &Some("#xyzxyz".into()));
    assert_eq!(colors.urgent, [255, 80, 80, 255]);
    assert_eq!(colors.separator, [128, 128, 128, 128]);
    assert_eq!(colors.accent, [80, 160, 255, 255]);
}

#[test]
fn palette_defaults_for_module_styles() {
    let styles = ResolvedModuleStyles::from_palette(&palette());
    assert_eq!(styles.window_list.active_background, [80, 160, 255, 200]);
    assert_eq!(styles.window_list.inactive_background, [255, 255, 255, 10]);
    assert_eq!(styles.window_list.active_foreground, [30, 30, 30, 255]);
    assert_eq!(styles.workspaces.inactive_background, [255, 255, 255, 80]);
    assert_eq!(styles.workspaces.remote_background, [175, 175, 175, 80]);
    assert_eq!(styles.workspaces.remote_foreground, [207, 207, 207, 190]);
    assert_eq!(styles.workspaces.remote_urgent_background, [183, 96, 96, 190]);
}

#[test]
fn muted_colours_average_towards_the_neutral() {
    assert_eq!(muted_color([255, 0, 101, 7], 96, 80), [175, 48, 98, 80]);
    assert_eq!(set_alpha([1, 2, 3, 4], 9), [1, 2, 3, 9]);
}

#[test]
fn explicit_module_colours_win_over_palette_defaults() {
    let map = ModuleStyleMap {
        window_list: Some(WindowListStyleDef {
            active_background: Some("#010203".into()),
            inactive_foreground: Some("not a colour".into()),
            ..WindowListStyleDef::default()
        }),
        workspaces: Some(WorkspacesStyleDef {
            remote_urgent_foreground: Some("#0a0b0c0d".into()),
            ..WorkspacesStyleDef::default()
        }),
    };
    let defaults = ResolvedModuleStyles::from_palette(&palette());
    let styles = resolve_module_styles_for_panel(&map, &palette());
    assert_eq!(styles.window_list.active_background, [1, 2, 3, 255]);
    assert_eq!(styles.window_list.inactive_foreground, defaults.window_list.inactive_foreground);
    assert_eq!(styles.workspaces.remote_urgent_foreground, [10, 11, 12, 13]);
    assert_eq!(styles.workspaces.active_background, defaults.workspaces.active_background);
    let empty = resolve_module_styles_for_panel(&ModuleStyleMap::default(), &palette());
    assert_eq!(empty, defaults);
    // Texts that cannot be cut into byte pairs fall back too.
    let odd = ModuleStyleMap {
        window_list: Some(WindowListStyleDef {
            active_background: Some("#aé000".into()),
            ..WindowListStyleDef::default()
        }),
        workspaces: None,
    };
    let styles = resolve_module_styles_for_panel(&odd, &palette());
    assert_eq!(styles.window_list.active_background, defaults.window_list.active_background);
}
