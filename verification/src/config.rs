//! Configuration contract shared with settings editors: notification
//! placement settings, validation diagnostics and theme metadata.

use vstd::prelude::*;
use crate::text::{chars_of, i64_to_string, int_to_decimal, opt_text, trim, trim_bounds};
use vstd::string::StringSliceAdditionalSpecFns;

verus! {

/// Version of the serialized configuration/schema integration contract.
pub const CONFIG_CONTRACT_VERSION: u32 = 1;

/// Screen-edge placement presets for notification stacks.
#[derive(Debug, Clone, Copy, Default, PartialEq, Eq, Structural)]
pub enum NotificationAnchor {
    TopLeft,
    TopCenter,
    #[default]
    TopRight,
    BottomLeft,
    BottomCenter,
    BottomRight,
}

/// Placement and behaviour of the optional desktop-notification daemon.
#[derive(Debug, Clone, PartialEq, Eq)]
pub struct NotificationConfig {
    pub enabled: bool,
    pub anchor: NotificationAnchor,
    /// `focused`, `primary`, or the connector name of a specific output.
    pub monitor: String,
    pub margin_x: u32,
    pub margin_y: u32,
    pub gap: u32,
    pub width: u32,
    pub max_visible: usize,
    /// Extra horizontal offset from the anchor-selected placement.
    pub offset_x: i32,
    /// Extra vertical offset from the anchor-selected placement.
    pub offset_y: i32,
    /// Used for notifications whose `expire_timeout` is negative.
    pub default_timeout_ms: u32,
}

/// Default output selector for notifications.
pub fn default_notification_monitor() -> (r: String)
    ensures
        r@ == "focused"@,
{
    "focused".to_owned()
}

/// Default distance from the screen edges, in logical pixels.
pub fn default_notification_margin() -> (r: u32)
    ensures
        r == 16,
{
    16
}

/// Default space between stacked notifications.
pub fn default_notification_gap() -> (r: u32)
    ensures
        r == 10,
{
    10
}

/// Default notification surface width.
pub fn default_notification_width() -> (r: u32)
    ensures
        r == 360,
{
    360
}

/// Default number of notifications shown at once.
pub fn default_notification_max_visible() -> (r: usize)
    ensures
        r == 4,
{
    4
}

/// Default lifetime of a notification that asks for the server default.
pub fn default_notification_timeout() -> (r: u32)
    ensures
        r == 5000,
{
    5_000
}

impl Default for NotificationConfig {
    fn default() -> (r: Self)
        ensures
            !r.enabled,
            r.anchor == NotificationAnchor::TopRight,
            r.monitor@ == "focused"@,
            r.margin_x == 16,
            r.margin_y == 16,
            r.gap == 10,
            r.width == 360,
            r.max_visible == 4,
            r.offset_x == 0,
            r.offset_y == 0,
            r.default_timeout_ms == 5000,
    {
        NotificationConfig {
            enabled: false,
            anchor: NotificationAnchor::TopRight,
            monitor: default_notification_monitor(),
            margin_x: default_notification_margin(),
            margin_y: default_notification_margin(),
            gap: default_notification_gap(),
            width: default_notification_width(),
            max_visible: default_notification_max_visible(),
            offset_x: 0,
            offset_y: 0,
            default_timeout_ms: default_notification_timeout(),
        }
    }
}

/// An ASCII hexadecimal digit.
pub open spec fn is_hex_digit_byte(b: u8) -> bool {
    (0x30 <= b <= 0x39) || (0x41 <= b <= 0x46) || (0x61 <= b <= 0x66)
}

/// `#rrggbb` or `#rrggbbaa`, as UTF-8 bytes.
pub open spec fn is_hex_color_spec(b: Seq<u8>) -> bool {
    &&& (b.len() == 7 || b.len() == 9)
    &&& b[0] == 0x23
    &&& forall|i: int| 1 <= i < b.len() ==> is_hex_digit_byte(#[trigger] b[i])
}

/// Is `value` a colour written as `#rrggbb` or `#rrggbbaa`?
pub fn is_hex_color(value: &str) -> (r: bool)
    ensures
        r == is_hex_color_spec(value.spec_bytes()),
{
    let b = value.as_bytes();
    let n = b.len();
    if !(n == 7 || n == 9) || b[0] != 0x23 {
        return false;
    }
    let mut i: usize = 1;
    while i < n
        invariant
            1 <= i <= n == b@.len(),
            b@ == value.spec_bytes(),
            forall|j: int| 1 <= j < i ==> is_hex_digit_byte(#[trigger] b@[j]),
        decreases n - i,
    {
        let c = b[i];
        if !((0x30 <= c && c <= 0x39) || (0x41 <= c && c <= 0x46) || (0x61 <= c && c <= 0x66)) {
            assert(!is_hex_digit_byte(b@[i as int]));
            return false;
        }
        i += 1;
    }
    true
}

/// Severity of a validation diagnostic.
#[derive(Debug, Clone, Copy, PartialEq, Eq, Structural)]
pub enum DiagnosticSeverity {
    Warning,
    Error,
}

/// Machine-readable validation feedback suitable for a settings editor.
#[derive(Debug, Clone, PartialEq, Eq)]
pub struct ConfigDiagnostic {
    pub severity: DiagnosticSeverity,
    pub path: String,
    pub message: String,
}

impl ConfigDiagnostic {
    /// An error about the setting at `path`.
    pub fn error(path: &str, message: &str) -> (r: Self)
        ensures
            r.severity == DiagnosticSeverity::Error,
            r.path@ == path@,
            r.message@ == message@,
    {
        ConfigDiagnostic {
            severity: DiagnosticSeverity::Error,
            path: path.to_owned(),
            message: message.to_owned(),
        }
    }

    /// Is this diagnostic an error (rather than a warning)?
    pub fn is_error(&self) -> (r: bool)
        ensures
            r == (self.severity == DiagnosticSeverity::Error),
    {
        self.severity == DiagnosticSeverity::Error
    }

    /// A warning about the setting at `path`.
    pub fn warning(path: &str, message: &str) -> (r: Self)
        ensures
            r.severity == DiagnosticSeverity::Warning,
            r.path@ == path@,
            r.message@ == message@,
    {
        ConfigDiagnostic {
            severity: DiagnosticSeverity::Warning,
            path: path.to_owned(),
            message: message.to_owned(),
        }
    }
}

/// Theme identity and presentation metadata included in the editor contract.
#[derive(Debug, Clone, PartialEq, Eq)]
pub struct ThemeMetadata {
    pub id: String,
    pub name: String,
    pub description: String,
    /// Stable module IDs placed by this theme, in first-appearance order.
    pub modules: Vec<String>,
}


/// Content of a [`ConfigDiagnostic`].
pub struct DiagnosticModel {
    pub severity: DiagnosticSeverity,
    pub path: Seq<char>,
    pub message: Seq<char>,
}

impl View for ConfigDiagnostic {
    type V = DiagnosticModel;

    open spec fn view(&self) -> DiagnosticModel {
        DiagnosticModel { severity: self.severity, path: self.path@, message: self.message@ }
    }
}

/// Contents of a list of diagnostics.
pub open spec fn diagnostics_view(v: Seq<ConfigDiagnostic>) -> Seq<DiagnosticModel> {
    v.map_values(|d: ConfigDiagnostic| d@)
}

/// An error at `path`.
pub open spec fn error_at(path: Seq<char>, message: Seq<char>) -> DiagnosticModel {
    DiagnosticModel { severity: DiagnosticSeverity::Error, path, message }
}

/// One error when `failed`, none otherwise.
pub open spec fn error_if(failed: bool, path: Seq<char>, message: Seq<char>) -> Seq<DiagnosticModel> {
    if failed {
        seq![error_at(path, message)]
    } else {
        Seq::empty()
    }
}

/// The checks every configuration gets, in order: the theme is named; the
/// bar opacity and font size overrides are in range (decided on their
/// floating-point values by the caller); the accent colour override is
/// `#rrggbb[aa]`; every module section is a table (`non_table_modules` lists
/// the ones that are not); notifications have a width, show at least one
/// item and name a monitor.
pub open spec fn shared_diagnostics(
    theme: Seq<char>,
    bar_opacity_ok: bool,
    font_size_ok: bool,
    accent_color: Option<Seq<u8>>,
    non_table_modules: Seq<Seq<char>>,
    notifications: NotificationConfig,
) -> Seq<DiagnosticModel> {
    error_if(trim(theme).len() == 0, "theme"@, "theme must not be empty"@) + error_if(
        !bar_opacity_ok,
        "theme_overrides.bar_opacity"@,
        "bar opacity must be between 0 and 1"@,
    ) + error_if(
        !font_size_ok,
        "theme_overrides.font_size"@,
        "font size must be a finite positive number"@,
    ) + error_if(
        accent_color matches Some(c) && !is_hex_color_spec(c),
        "theme_overrides.accent_color"@,
        "color must use #rrggbb or #rrggbbaa"@,
    ) + non_table_modules.map_values(
        |id: Seq<char>| error_at("modules."@ + id, "module configuration must be a TOML table"@),
    ) + error_if(
        notifications.width == 0,
        "notifications.width"@,
        "notification width must be greater than zero"@,
    ) + error_if(
        notifications.max_visible == 0,
        "notifications.max_visible"@,
        "max_visible must be greater than zero"@,
    ) + error_if(
        trim(notifications.monitor@).len() == 0,
        "notifications.monitor"@,
        "monitor must be `focused`, `primary`, or an output name"@,
    )
}

fn push_error_if(out: &mut Vec<ConfigDiagnostic>, failed: bool, path: &str, message: &str)
    ensures
        diagnostics_view(final(out)@) == diagnostics_view(old(out)@) + error_if(failed, path@, message@),
{
    if failed {
        let d = ConfigDiagnostic::error(path, message);
        let ghost before = out@;
        out.push(d);
        assert(diagnostics_view(out@) =~= diagnostics_view(before) + error_if(failed, path@, message@));
    } else {
        assert(diagnostics_view(out@) =~= diagnostics_view(out@) + error_if(failed, path@, message@));
    }
}

/// Is `s` empty once trimmed?
fn is_blank(s: &str) -> (r: bool)
    ensures
        r == (trim(s@).len() == 0),
{
    let v = chars_of(s);
    let (a, b) = trim_bounds(&v, 0, v.len());
    assert(v@.subrange(0, v@.len() as int) =~= s@);
    a == b
}

/// Run the shared configuration checks (see [`shared_diagnostics`]).
pub fn validate_shared(
    theme: &str,
    bar_opacity_ok: bool,
    font_size_ok: bool,
    accent_color: Option<&str>,
    non_table_modules: &Vec<String>,
    notifications: &NotificationConfig,
) -> (r: Vec<ConfigDiagnostic>)
    ensures
        diagnostics_view(r@) == shared_diagnostics(
            theme@,
            bar_opacity_ok,
            font_size_ok,
            match accent_color {
                Some(c) => Some(c.spec_bytes()),
                None => None,
            },
            non_table_modules@.map_values(|id: String| id@),
            *notifications,
        ),
{
    let mut out: Vec<ConfigDiagnostic> = Vec::new();
    push_error_if(&mut out, is_blank(theme), "theme", "theme must not be empty");
    push_error_if(
        &mut out,
        !bar_opacity_ok,
        "theme_overrides.bar_opacity",
        "bar opacity must be between 0 and 1",
    );
    push_error_if(
        &mut out,
        !font_size_ok,
        "theme_overrides.font_size",
        "font size must be a finite positive number",
    );
    let bad_accent = match accent_color {
        Some(c) => !is_hex_color(c),
        None => false,
    };
    push_error_if(
        &mut out,
        bad_accent,
        "theme_overrides.accent_color",
        "color must use #rrggbb or #rrggbbaa",
    );
    let ghost head = diagnostics_view(out@);
    let ghost ids = non_table_modules@.map_values(|id: String| id@);
    let ghost mk = |id: Seq<char>| error_at("modules."@ + id, "module configuration must be a TOML table"@);
    let mut i: usize = 0;
    while i < non_table_modules.len()
        invariant
            i <= non_table_modules@.len(),
            ids == non_table_modules@.map_values(|id: String| id@),
            mk == (|id: Seq<char>| error_at("modules."@ + id, "module configuration must be a TOML table"@)),
            diagnostics_view(out@) == head + ids.take(i as int).map_values(mk),
        decreases non_table_modules@.len() - i,
    {
        let mut path = "modules.".to_owned();
        path.append(non_table_modules[i].as_str());
        let d = ConfigDiagnostic {
            severity: DiagnosticSeverity::Error,
            path,
            message: "module configuration must be a TOML table".to_owned(),
        };
        let ghost before = out@;
        out.push(d);
        assert(ids.take(i as int + 1).map_values(mk) =~= ids.take(i as int).map_values(mk).push(
            mk(ids[i as int]),
        ));
        assert(diagnostics_view(out@) =~= diagnostics_view(before).push(d@));
        i += 1;
    }
    assert(ids.take(ids.len() as int) =~= ids);
    push_error_if(
        &mut out,
        notifications.width == 0,
        "notifications.width",
        "notification width must be greater than zero",
    );
    push_error_if(
        &mut out,
        notifications.max_visible == 0,
        "notifications.max_visible",
        "max_visible must be greater than zero",
    );
    push_error_if(
        &mut out,
        is_blank(notifications.monitor.as_str()),
        "notifications.monitor",
        "monitor must be `focused`, `primary`, or an output name",
    );
    out
}

/// A configured value as the editor-schema checks see it.
#[derive(Debug, Clone, PartialEq, Eq)]
pub enum SettingValue {
    Text(String),
    Integer(i64),
    Boolean(bool),
    /// A float, date, array or table.
    Other,
}

/// How the editor schema constrains a field (every field type but floats,
/// whose range checks are floating-point).
#[derive(Debug, Clone, PartialEq, Eq)]
pub enum FieldRule {
    Text,
    Integer { min: Option<i64>, max: Option<i64> },
    Boolean,
    /// One of the listed strings (plain or labelled choice).
    Choice { options: Vec<String> },
    Color,
}

/// `parts` separated by `sep` (`[T]::join`).
pub open spec fn join_with(parts: Seq<Seq<char>>, sep: Seq<char>) -> Seq<char>
    decreases parts.len(),
{
    if parts.len() == 0 {
        Seq::empty()
    } else if parts.len() == 1 {
        parts[0]
    } else {
        join_with(parts.drop_last(), sep) + sep + parts.last()
    }
}

/// Why a value breaks its field's rule, if it does.
pub open spec fn rule_violation(rule: FieldRule, value: SettingValue) -> Option<Seq<char>> {
    match rule {
        FieldRule::Text => if value is Text {
            None
        } else {
            Some("expected text"@)
        },
        FieldRule::Boolean => if value is Boolean {
            None
        } else {
            Some("expected true or false"@)
        },
        FieldRule::Color => match value {
            SettingValue::Text(s) => if is_hex_color_spec(vstd::utf8::encode_utf8(s@)) {
                None
            } else {
                Some("expected a color in #rrggbb or #rrggbbaa form"@)
            },
            _ => Some("expected a color in #rrggbb or #rrggbbaa form"@),
        },
        FieldRule::Integer { min, max } => match value {
            SettingValue::Integer(n) => if min matches Some(lo) && n < lo {
                Some("must be at least "@ + int_to_decimal(min->0 as int))
            } else if max matches Some(hi) && n > hi {
                Some("must be at most "@ + int_to_decimal(max->0 as int))
            } else {
                None
            },
            _ => Some("expected an integer"@),
        },
        FieldRule::Choice { options } => match value {
            SettingValue::Text(s) => if options@.map_values(|o: String| o@).contains(s@) {
                None
            } else {
                Some("expected one of: "@ + join_with(options@.map_values(|o: String| o@), ", "@))
            },
            _ => Some("expected a choice string"@),
        },
    }
}

/// `options.join(", ")`.
fn join_options(options: &Vec<String>) -> (r: String)
    ensures
        r@ == join_with(options@.map_values(|o: String| o@), ", "@),
{
    let ghost parts = options@.map_values(|o: String| o@);
    let mut out = String::new();
    let mut i: usize = 0;
    while i < options.len()
        invariant
            i <= options@.len(),
            parts == options@.map_values(|o: String| o@),
            out@ == join_with(parts.take(i as int), ", "@),
        decreases options@.len() - i,
    {
        let ghost prev = parts.take(i as int);
        if i > 0 {
            out.append(", ");
        }
        out.append(options[i].as_str());
        assert(parts.take(i as int + 1).drop_last() =~= prev);
        proof {
            if i == 0 {
                assert(prev =~= Seq::<Seq<char>>::empty());
                assert(out@ =~= parts.take(1)[0]);
            }
        }
        i += 1;
    }
    assert(parts.take(parts.len() as int) =~= parts);
    out
}

/// Is `s` one of `options`?
fn is_option(options: &Vec<String>, s: &String) -> (r: bool)
    ensures
        r == options@.map_values(|o: String| o@).contains(s@),
{
    let ghost parts = options@.map_values(|o: String| o@);
    let mut i: usize = 0;
    while i < options.len()
        invariant
            i <= options@.len(),
            parts == options@.map_values(|o: String| o@),
            forall|j: int| 0 <= j < i ==> parts[j] != s@,
        decreases options@.len() - i,
    {
        if options[i] == *s {
            assert(parts[i as int] == s@);
            return true;
        }
        i += 1;
    }
    false
}

/// Check a configured value against its field's rule (see [`rule_violation`]).
pub fn validate_value(rule: &FieldRule, value: &SettingValue) -> (r: Option<String>)
    ensures
        opt_text(r) == rule_violation(*rule, *value),
{
    match rule {
        FieldRule::Text => match value {
            SettingValue::Text(_) => None,
            _ => Some("expected text".to_owned()),
        },
        FieldRule::Boolean => match value {
            SettingValue::Boolean(_) => None,
            _ => Some("expected true or false".to_owned()),
        },
        FieldRule::Color => match value {
            SettingValue::Text(s) => if is_hex_color(s.as_str()) {
                None
            } else {
                Some("expected a color in #rrggbb or #rrggbbaa form".to_owned())
            },
            _ => Some("expected a color in #rrggbb or #rrggbbaa form".to_owned()),
        },
        FieldRule::Integer { min, max } => match value {
            SettingValue::Integer(n) => {
                match min {
                    Some(lo) => if *n < *lo {
                        let mut m = "must be at least ".to_owned();
                        m.append(i64_to_string(*lo).as_str());
                        return Some(m);
                    },
                    None => {},
                }
                match max {
                    Some(hi) => if *n > *hi {
                        let mut m = "must be at most ".to_owned();
                        m.append(i64_to_string(*hi).as_str());
                        return Some(m);
                    },
                    None => {},
                }
                None
            },
            _ => Some("expected an integer".to_owned()),
        },
        FieldRule::Choice { options } => match value {
            SettingValue::Text(s) => if is_option(options, s) {
                None
            } else {
                let mut m = "expected one of: ".to_owned();
                m.append(join_options(options).as_str());
                Some(m)
            },
            _ => Some("expected a choice string".to_owned()),
        },
    }
}

/// What checking one editor-schema field against the configuration gave:
/// the field's dotted key, and why its value is wrong (none when the value
/// is absent or passes).
#[derive(Debug, Clone, PartialEq, Eq)]
pub struct FieldOutcome {
    pub key: String,
    pub violation: Option<String>,
}

/// What checking one configured module section gave: the module's id and
/// an outcome per field of its schema, or none when no built-in module has
/// that id.
#[derive(Debug, Clone, PartialEq, Eq)]
pub struct ModuleOutcome {
    pub module_id: String,
    pub fields: Option<Vec<FieldOutcome>>,
}

/// Content of a [`FieldOutcome`].
pub struct FieldOutcomeModel {
    pub key: Seq<char>,
    pub violation: Option<Seq<char>>,
}

/// Content of a [`ModuleOutcome`].
pub struct ModuleOutcomeModel {
    pub module_id: Seq<char>,
    pub fields: Option<Seq<FieldOutcomeModel>>,
}

impl View for FieldOutcome {
    type V = FieldOutcomeModel;

    open spec fn view(&self) -> FieldOutcomeModel {
        FieldOutcomeModel { key: self.key@, violation: opt_text(self.violation) }
    }
}

/// Contents of a list of field outcomes.
pub open spec fn outcomes_view(v: Seq<FieldOutcome>) -> Seq<FieldOutcomeModel> {
    v.map_values(|f: FieldOutcome| f@)
}

impl View for ModuleOutcome {
    type V = ModuleOutcomeModel;

    open spec fn view(&self) -> ModuleOutcomeModel {
        ModuleOutcomeModel {
            module_id: self.module_id@,
            fields: match self.fields {
                Some(fs) => Some(outcomes_view(fs@)),
                None => None,
            },
        }
    }
}

/// Contents of a list of module outcomes.
pub open spec fn module_outcomes_view(v: Seq<ModuleOutcome>) -> Seq<ModuleOutcomeModel> {
    v.map_values(|m: ModuleOutcome| m@)
}

/// Does `ds` hold an error at `path`?
pub open spec fn has_error_at(ds: Seq<DiagnosticModel>, path: Seq<char>) -> bool {
    exists|i: int| 0 <= i < ds.len() && (#[trigger] ds[i]).severity == DiagnosticSeverity::Error && ds[i].path == path
}

/// A top-level field's outcome added to `ds`: its error, unless the value
/// is fine or an error at the same path is already reported.
pub open spec fn add_field_outcome(ds: Seq<DiagnosticModel>, f: FieldOutcomeModel) -> Seq<DiagnosticModel> {
    match f.violation {
        Some(m) => if has_error_at(ds, f.key) {
            ds
        } else {
            ds.push(error_at(f.key, m))
        },
        None => ds,
    }
}

/// The outcomes of the top-level schema fields added to `ds`, in order.
pub open spec fn with_field_outcomes(ds: Seq<DiagnosticModel>, fields: Seq<FieldOutcomeModel>) -> Seq<DiagnosticModel>
    decreases fields.len(),
{
    if fields.len() == 0 {
        ds
    } else {
        add_field_outcome(with_field_outcomes(ds, fields.drop_last()), fields.last())
    }
}

/// The errors of one module's fields, each at `modules.<id>.<key>`.
pub open spec fn module_field_errors(prefix: Seq<char>, fields: Seq<FieldOutcomeModel>) -> Seq<DiagnosticModel>
    decreases fields.len(),
{
    if fields.len() == 0 {
        Seq::empty()
    } else {
        module_field_errors(prefix, fields.drop_last()) + match fields.last().violation {
            Some(m) => seq![error_at(prefix + fields.last().key, m)],
            None => Seq::empty(),
        }
    }
}

/// What one configured module section reports: a warning when no built-in
/// module has its id, else the errors of its fields.
pub open spec fn module_section_diagnostics(m: ModuleOutcomeModel) -> Seq<DiagnosticModel> {
    match m.fields {
        None => seq![
            DiagnosticModel {
                severity: DiagnosticSeverity::Warning,
                path: "modules."@ + m.module_id,
                message: "module is not built into this HyprDeck version"@,
            },
        ],
        Some(fs) => module_field_errors("modules."@ + m.module_id + "."@, fs),
    }
}

/// What all configured module sections report, in order.
pub open spec fn modules_diagnostics(ms: Seq<ModuleOutcomeModel>) -> Seq<DiagnosticModel>
    decreases ms.len(),
{
    if ms.len() == 0 {
        Seq::empty()
    } else {
        modules_diagnostics(ms.drop_last()) + module_section_diagnostics(ms.last())
    }
}

/// The schema checks after the shared ones (`base`): an unknown theme is an
/// error when the build lists its themes; then the top-level fields'
/// outcomes (see [`with_field_outcomes`]); then each module section's.
pub open spec fn schema_diagnostics_spec(
    base: Seq<DiagnosticModel>,
    theme: Seq<char>,
    theme_ids: Seq<Seq<char>>,
    fields: Seq<FieldOutcomeModel>,
    modules: Seq<ModuleOutcomeModel>,
) -> Seq<DiagnosticModel> {
    with_field_outcomes(
        base + error_if(
            theme_ids.len() > 0 && !theme_ids.contains(theme),
            "theme"@,
            "unknown theme `"@ + theme + "`"@,
        ),
        fields,
    ) + modules_diagnostics(modules)
}

/// Does `ds` hold an error at `path`? (see [`has_error_at`])
fn error_reported_at(ds: &Vec<ConfigDiagnostic>, path: &String) -> (r: bool)
    ensures
        r == has_error_at(diagnostics_view(ds@), path@),
{
    let ghost v = diagnostics_view(ds@);
    let mut i: usize = 0;
    while i < ds.len()
        invariant
            i <= ds@.len(),
            v == diagnostics_view(ds@),
            forall|j: int| 0 <= j < i ==> !((#[trigger] v[j]).severity == DiagnosticSeverity::Error && v[j].path == path@),
        decreases ds@.len() - i,
    {
        if ds[i].is_error() && ds[i].path == *path {
            assert(v[i as int].severity == DiagnosticSeverity::Error && v[i as int].path == path@);
            return true;
        }
        i += 1;
    }
    false
}

/// Run the schema checks on top of the shared ones (see
/// [`schema_diagnostics_spec`]). The caller checks each configured value
/// against its field (with [`validate_value`], or its own range check for
/// floating-point fields) and passes the outcomes in schema order.
pub fn schema_diagnostics(
    base: Vec<ConfigDiagnostic>,
    theme: &String,
    theme_ids: &Vec<String>,
    fields: &Vec<FieldOutcome>,
    modules: &Vec<ModuleOutcome>,
) -> (r: Vec<ConfigDiagnostic>)
    ensures
        diagnostics_view(r@) == schema_diagnostics_spec(
            diagnostics_view(base@),
            theme@,
            theme_ids@.map_values(|t: String| t@),
            outcomes_view(fields@),
            module_outcomes_view(modules@),
        ),
{
    let mut out = base;
    let unknown = theme_ids.len() > 0 && !is_option(theme_ids, theme);
    let mut message = "unknown theme `".to_owned();
    message.append(theme.as_str());
    message.append("`");
    let ghost before_theme = out@;
    if unknown {
        out.push(ConfigDiagnostic { severity: DiagnosticSeverity::Error, path: "theme".to_owned(), message });
    }
    proof {
        reveal_strlit("theme");
        assert(diagnostics_view(out@) =~= diagnostics_view(before_theme) + error_if(
            unknown,
            "theme"@,
            "unknown theme `"@ + theme@ + "`"@,
        ));
    }
    let ghost start = diagnostics_view(out@);
    let ghost fv = outcomes_view(fields@);
    let mut i: usize = 0;
    while i < fields.len()
        invariant
            i <= fields@.len(),
            fv == outcomes_view(fields@),
            diagnostics_view(out@) == with_field_outcomes(start, fv.take(i as int)),
        decreases fields@.len() - i,
    {
        assert(fv.take(i as int + 1).drop_last() =~= fv.take(i as int));
        match &fields[i].violation {
            Some(m) => {
                if !error_reported_at(&out, &fields[i].key) {
                    let d = ConfigDiagnostic::error(fields[i].key.as_str(), m.as_str());
                    let ghost before = out@;
                    out.push(d);
                    assert(diagnostics_view(out@) =~= diagnostics_view(before).push(d@));
                }
            },
            None => {},
        }
        i += 1;
    }
    assert(fv.take(fv.len() as int) =~= fv);
    let ghost mid = diagnostics_view(out@);
    let ghost mv = module_outcomes_view(modules@);
    let mut k: usize = 0;
    while k < modules.len()
        invariant
            k <= modules@.len(),
            mv == module_outcomes_view(modules@),
            diagnostics_view(out@) == mid + modules_diagnostics(mv.take(k as int)),
        decreases modules@.len() - k,
    {
        assert(mv.take(k as int + 1).drop_last() =~= mv.take(k as int));
        let ghost before_module = diagnostics_view(out@);
        let module = &modules[k];
        let mut prefix = "modules.".to_owned();
        prefix.append(module.module_id.as_str());
        match &module.fields {
            None => {
                let d = ConfigDiagnostic::warning(prefix.as_str(), "module is not built into this HyprDeck version");
                let ghost before = out@;
                out.push(d);
                assert(diagnostics_view(out@) =~= diagnostics_view(before).push(d@));
            },
            Some(fs) => {
                prefix.append(".");
                let ghost fsv = outcomes_view(fs@);
                let mut j: usize = 0;
                while j < fs.len()
                    invariant
                        j <= fs@.len(),
                        fsv == outcomes_view(fs@),
                        diagnostics_view(out@) == before_module + module_field_errors(prefix@, fsv.take(j as int)),
                    decreases fs@.len() - j,
                {
                    assert(fsv.take(j as int + 1).drop_last() =~= fsv.take(j as int));
                    let ghost before = out@;
                    match &fs[j].violation {
                        Some(m) => {
                            let mut path = prefix.clone();
                            path.append(fs[j].key.as_str());
                            let d = ConfigDiagnostic::error(path.as_str(), m.as_str());
                            out.push(d);
                            assert(diagnostics_view(out@) =~= diagnostics_view(before).push(d@));
                        },
                        None => {},
                    }
                    j += 1;
                }
                assert(fsv.take(fsv.len() as int) =~= fsv);
            },
        }
        proof {
            reveal_strlit("modules.");
            reveal_strlit(".");
        }
        k += 1;
    }
    assert(mv.take(mv.len() as int) =~= mv);
    out
}

/// An error that a top-level schema field check reports is the only error
/// at its path, and the checks keep every diagnostic that came before.
pub proof fn law_schema_field_error_is_unique(ds: Seq<DiagnosticModel>, fields: Seq<FieldOutcomeModel>)
    ensures
        ({
            let r = with_field_outcomes(ds, fields);
            &&& ds.len() <= r.len()
            &&& r.subrange(0, ds.len() as int) == ds
            &&& forall|i: int| ds.len() <= i < r.len() ==> (#[trigger] r[i]).severity == DiagnosticSeverity::Error
            &&& forall|i: int, j: int|
                ds.len() <= i < r.len() && 0 <= j < r.len() && j != i && (#[trigger] r[j]).severity
                    == DiagnosticSeverity::Error ==> r[j].path != (#[trigger] r[i]).path
        }),
    decreases fields.len(),
{
    if fields.len() > 0 {
        let prev = with_field_outcomes(ds, fields.drop_last());
        law_schema_field_error_is_unique(ds, fields.drop_last());
        let f = fields.last();
        let r = with_field_outcomes(ds, fields);
        assert(r == add_field_outcome(prev, f));
        match f.violation {
            Some(m) => if !has_error_at(prev, f.key) {
                assert(r == prev.push(error_at(f.key, m)));
                assert(r.subrange(0, ds.len() as int) =~= prev.subrange(0, ds.len() as int));
                assert forall|i: int, j: int|
                    ds.len() <= i < r.len() && 0 <= j < r.len() && j != i && (#[trigger] r[j]).severity
                        == DiagnosticSeverity::Error implies r[j].path != (#[trigger] r[i]).path by {
                    if i == prev.len() {
                        assert(r[j] == prev[j]);
                        if r[j].path == f.key {
                            assert(has_error_at(prev, f.key));
                        }
                    } else if j == prev.len() {
                        assert(r[i] == prev[i]);
                        if r[i].path == f.key {
                            assert(prev[i].severity == DiagnosticSeverity::Error);
                            assert(has_error_at(prev, f.key));
                        }
                    } else {
                        assert(r[i] == prev[i] && r[j] == prev[j]);
                    }
                }
            },
            None => {},
        }
    }
}

} // verus!
