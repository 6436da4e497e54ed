use hyprdeck::modules::icon_utils::{executable_from_exec, normalize, parse_desktop_icon};
use hyprdeck::text::words_of;

#[test]
fn desktop_entry_maps_startup_class_to_icon() {
    let entry = parse_desktop_icon(
        "[Desktop Entry]\nName=Example Browser\nExec=/usr/bin/example %U\nIcon=example-icon\nStartupWMClass=ExampleBrowser\n",
        "org.example.Browser",
    )
    .unwrap();
    assert!(entry.matches(&normalize("examplebrowser")));
    assert!(entry.matches(&normalize("example")));
    assert_eq!(entry.icon, "example-icon");
}

#[test]
fn desktop_entry_without_icon_is_skipped() {
    assert!(parse_desktop_icon("[Desktop Entry]\nName=No Icon\n", "x").is_none());
}

#[test]
fn keys_outside_the_desktop_entry_group_are_ignored() {
    let source = "Icon=outside\n[Desktop Action new]\nIcon=action\n[Desktop Entry]\n# Icon=comment\nIcon = real \r\nName=App";
    let entry = parse_desktop_icon(source, "app").unwrap();
    assert_eq!(entry.icon, "real");
    assert_eq!(entry.name, "App");
    assert_eq!(entry.desktop_id, "app");
}

#[test]
fn exec_skips_env_assignments_and_field_codes() {
    assert_eq!(executable_from_exec("env FOO=1 /opt/tool/bin/tool %f"), "tool");
    assert_eq!(executable_from_exec("  %U  "), "");
    assert_eq!(executable_from_exec("firefox --new-window"), "firefox");
}

#[test]
fn words_split_on_any_whitespace() {
    assert_eq!(words_of("  a\tbc  d "), vec!["a", "bc", "d"]);
    assert!(words_of("   ").is_empty());
}

#[test]
fn normalize_keeps_lowercase_alphanumerics() {
    assert_eq!(normalize("Org.Example-My_App 2"), "orgexamplemyapp2");
    assert_eq!(normalize("Ünïcode"), "ncode");
}

#[test]
fn matching_needs_equality_or_a_longer_suffix() {
    let entry = parse_desktop_icon("[Desktop Entry]\nIcon=code\nName=Visual Studio Code\n", "code").unwrap();
    assert!(entry.matches("code"));
    assert!(entry.matches("studiocode"));
    assert!(!entry.matches("visual"));
    // An entry without a window class normalizes that field to "" and so
    // matches an empty class.
    assert!(entry.matches(""));
}

use hyprdeck::modules::icon_utils::{candidates_from, class_icon_candidates};

#[test]
fn icon_candidates_cover_reverse_dns_classes() {
    let candidates = class_icon_candidates("org.example.My_App");
    assert!(candidates.contains(&"org.example.my_app".to_owned()));
    assert!(candidates.contains(&"org-example-my_app".to_owned()));
    assert!(candidates.contains(&"my_app".to_owned()));
}

#[test]
fn icon_candidates_skip_repeats_and_blanks() {
    assert_eq!(class_icon_candidates(" kitty "), vec!["kitty"]);
    assert!(class_icon_candidates("   ").is_empty());
    assert_eq!(
        class_icon_candidates("Foo_Bar"),
        vec!["Foo_Bar", "foo_bar", "foo-bar"]
    );
}

#[test]
fn candidates_follow_the_lower_cased_class() {
    let names = candidates_from(&"Org.Gnome.Nautilus".to_owned(), &"org.gnome.nautilus".to_owned());
    assert_eq!(
        names,
        vec!["Org.Gnome.Nautilus", "org.gnome.nautilus", "org-gnome-nautilus", "nautilus"]
    );
    // Repeats and empty names are dropped.
    let plain = candidates_from(&"firefox".to_owned(), &"firefox".to_owned());
    assert_eq!(plain, vec!["firefox"]);
    assert!(candidates_from(&String::new(), &String::new()).is_empty());
}

#[test]
fn executable_takes_the_last_path_component() {
    assert_eq!(executable_from_exec("/usr/bin/foot"), "foot");
    assert_eq!(executable_from_exec("/opt/app/bin/ --flag"), "bin");
    assert_eq!(executable_from_exec("./run.sh"), "run.sh");
    assert_eq!(executable_from_exec("tools//launch/."), "launch");
    assert_eq!(executable_from_exec("../.."), "");
    assert_eq!(executable_from_exec("/"), "");
    assert_eq!(executable_from_exec("."), "");
}
