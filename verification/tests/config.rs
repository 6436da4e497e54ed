use hyprdeck::config::{
    is_hex_color, schema_diagnostics, validate_shared, validate_value, ConfigDiagnostic,
    DiagnosticSeverity, FieldOutcome, FieldRule, ModuleOutcome, NotificationConfig, SettingValue,
};

fn shared_checks(notifications: &NotificationConfig) -> Vec<ConfigDiagnostic> {
    validate_shared("win7", true, true, None, &Vec::new(), notifications)
}

fn outcome(key: &str, rule: &FieldRule, value: Option<SettingValue>) -> FieldOutcome {
    FieldOutcome {
        key: key.to_owned(),
        violation: value.and_then(|v| validate_value(rule, &v)),
    }
}

#[test]
fn validation_rejects_invalid_shared_values() {
    // Empty theme, bar opacity 1.5 (out of range) and accent "red".
    let diagnostics = validate_shared(
        "",
        false,
        true,
        Some("red"),
        &Vec::new(),
        &NotificationConfig::default(),
    );
    assert_eq!(diagnostics.len(), 3);
    assert_eq!(diagnostics[0].path, "theme");
    assert_eq!(diagnostics[1].path, "theme_overrides.bar_opacity");
    assert_eq!(diagnostics[2].path, "theme_overrides.accent_color");
}

#[test]
fn valid_shared_values_give_no_diagnostics() {
    let diagnostics = validate_shared(
        "win7",
        true,
        true,
        Some("#3584e4"),
        &Vec::new(),
        &NotificationConfig::default(),
    );
    assert!(diagnostics.is_empty());
}

#[test]
fn module_sections_and_notifications_are_checked_in_order() {
    let mut notifications = NotificationConfig::default();
    notifications.width = 0;
    notifications.max_visible = 0;
    notifications.monitor = "  ".to_owned();
    let diagnostics = validate_shared(
        " win7 ",
        true,
        false,
        None,
        &vec!["clock".to_owned()],
        &notifications,
    );
    let paths: Vec<&str> = diagnostics.iter().map(|d| d.path.as_str()).collect();
    assert_eq!(
        paths,
        vec![
            "theme_overrides.font_size",
            "modules.clock",
            "notifications.width",
            "notifications.max_visible",
            "notifications.monitor",
        ]
    );
    assert!(diagnostics.iter().all(ConfigDiagnostic::is_error));
    assert_eq!(diagnostics[1].message, "module configuration must be a TOML table");
}

#[test]
fn integer_rules_report_bounds() {
    let width = FieldRule::Integer {
        min: Some(120),
        max: Some(1200),
    };
    assert_eq!(
        validate_value(&width, &SettingValue::Integer(1)).as_deref(),
        Some("must be at least 120")
    );
    assert_eq!(
        validate_value(&width, &SettingValue::Integer(5000)).as_deref(),
        Some("must be at most 1200")
    );
    assert_eq!(validate_value(&width, &SettingValue::Integer(360)), None);
    assert_eq!(
        validate_value(&width, &SettingValue::Text("wide".into())).as_deref(),
        Some("expected an integer")
    );
    let offset = FieldRule::Integer { min: None, max: None };
    assert_eq!(validate_value(&offset, &SettingValue::Integer(-12)), None);
    let negative = FieldRule::Integer {
        min: Some(-5),
        max: None,
    };
    assert_eq!(
        validate_value(&negative, &SettingValue::Integer(-6)).as_deref(),
        Some("must be at least -5")
    );
}

#[test]
fn choice_text_bool_and_color_rules() {
    let anchor = FieldRule::Choice {
        options: vec!["top_left".into(), "top_right".into()],
    };
    assert_eq!(validate_value(&anchor, &SettingValue::Text("top_right".into())), None);
    assert_eq!(
        validate_value(&anchor, &SettingValue::Text("middle".into())).as_deref(),
        Some("expected one of: top_left, top_right")
    );
    assert_eq!(
        validate_value(&anchor, &SettingValue::Integer(3)).as_deref(),
        Some("expected a choice string")
    );
    assert_eq!(
        validate_value(&FieldRule::Text, &SettingValue::Integer(3)).as_deref(),
        Some("expected text")
    );
    assert_eq!(
        validate_value(&FieldRule::Boolean, &SettingValue::Other).as_deref(),
        Some("expected true or false")
    );
    assert_eq!(
        validate_value(&FieldRule::Color, &SettingValue::Text("#12345g".into())).as_deref(),
        Some("expected a color in #rrggbb or #rrggbbaa form")
    );
    assert_eq!(validate_value(&FieldRule::Color, &SettingValue::Text("#123456aa".into())), None);
}

#[test]
fn hex_colors_need_six_or_eight_digits() {
    assert!(is_hex_color("#abcdef"));
    assert!(is_hex_color("#ABCDEF12"));
    assert!(!is_hex_color("abcdef0"));
    assert!(!is_hex_color("#abcde"));
    assert!(!is_hex_color("#éééé"));
}

#[test]
fn diagnostics_carry_their_severity() {
    let warning = ConfigDiagnostic::warning("modules.future", "module is not built into this HyprDeck version");
    assert!(!warning.is_error());
    assert_eq!(warning.severity, DiagnosticSeverity::Warning);
    assert!(ConfigDiagnostic::error("theme", "x").is_error());
}

#[test]
fn schema_validation_checks_nested_typed_module_fields() {
    // `[modules.power.commands] shutdown = 3` against a text field, and a
    // module section no built-in module owns.
    let power = ModuleOutcome {
        module_id: "power".into(),
        fields: Some(vec![outcome(
            "commands.shutdown",
            &FieldRule::Text,
            Some(SettingValue::Integer(3)),
        )]),
    };
    let future = ModuleOutcome { module_id: "future_module".into(), fields: None };
    let diagnostics = schema_diagnostics(
        shared_checks(&NotificationConfig::default()),
        &"win7".to_owned(),
        &vec!["win7".to_owned()],
        &Vec::new(),
        &vec![power, future],
    );
    assert!(diagnostics
        .iter()
        .any(|item| item.is_error() && item.path == "modules.power.commands.shutdown"));
    assert!(diagnostics
        .iter()
        .any(|item| item.severity == DiagnosticSeverity::Warning && item.path == "modules.future_module"));
}

#[test]
fn schema_validation_checks_notification_ranges() {
    let mut notifications = NotificationConfig::default();
    notifications.width = 1;
    notifications.max_visible = 25;
    let fields = vec![
        outcome(
            "notifications.width",
            &FieldRule::Integer { min: Some(120), max: Some(1200) },
            Some(SettingValue::Integer(1)),
        ),
        outcome(
            "notifications.max_visible",
            &FieldRule::Integer { min: Some(1), max: Some(20) },
            Some(SettingValue::Integer(25)),
        ),
    ];
    let diagnostics = schema_diagnostics(
        shared_checks(&notifications),
        &"win7".to_owned(),
        &Vec::new(),
        &fields,
        &Vec::new(),
    );
    assert!(diagnostics.iter().any(|item| item.is_error() && item.path == "notifications.width"));
    assert!(diagnostics.iter().any(|item| item.is_error() && item.path == "notifications.max_visible"));
}

#[test]
fn unknown_theme_is_reported_only_when_themes_are_listed() {
    let themes = vec!["win7".to_owned(), "gnome_classic".to_owned()];
    let none: Vec<FieldOutcome> = Vec::new();
    let modules: Vec<ModuleOutcome> = Vec::new();
    let base = shared_checks(&NotificationConfig::default());
    let unknown = schema_diagnostics(base.clone(), &"aqua".to_owned(), &themes, &none, &modules);
    assert_eq!(unknown.len(), 1);
    assert_eq!(unknown[0].path, "theme");
    assert_eq!(unknown[0].message, "unknown theme `aqua`");
    assert!(schema_diagnostics(base.clone(), &"win7".to_owned(), &themes, &none, &modules).is_empty());
    assert!(schema_diagnostics(base, &"aqua".to_owned(), &Vec::new(), &none, &modules).is_empty());
}

#[test]
fn schema_field_error_is_not_repeated_at_a_failing_path() {
    // The shared checks already reject a zero width; the schema's range
    // error for the same path is not added, and a field repeated in the
    // schema reports once.
    let mut notifications = NotificationConfig::default();
    notifications.width = 0;
    let width = FieldRule::Integer { min: Some(120), max: Some(1200) };
    let gap = FieldRule::Integer { min: Some(0), max: Some(200) };
    let fields = vec![
        outcome("notifications.width", &width, Some(SettingValue::Integer(0))),
        outcome("notifications.gap", &gap, Some(SettingValue::Integer(500))),
        outcome("notifications.gap", &gap, Some(SettingValue::Integer(500))),
        outcome("notifications.margin_x", &gap, None),
    ];
    let diagnostics = schema_diagnostics(
        shared_checks(&notifications),
        &"win7".to_owned(),
        &Vec::new(),
        &fields,
        &Vec::new(),
    );
    let paths: Vec<&str> = diagnostics.iter().map(|d| d.path.as_str()).collect();
    assert_eq!(paths, vec!["notifications.width", "notifications.gap"]);
    assert_eq!(diagnostics[0].message, "notification width must be greater than zero");
    assert_eq!(diagnostics[1].message, "must be at most 200");
}
