use package_maker::deps::translate_dep_lines;
use package_maker::deps::{
    best_package, filter_and_trans, line_package, make_replaces_dict, package_name, search_output_best,
    strip_dep, translate_deps, try_search_dep,
};

fn pair(a: &str, b: &str) -> Option<(String, String)> {
    Some((a.to_string(), b.to_string()))
}

#[test]
fn strip_keeps_first_word() {
    assert_eq!(strip_dep("   foo bar"), "foo");
    assert_eq!(strip_dep("baz"), "baz");
    assert_eq!(strip_dep("   "), "");
}

#[test]
fn replaces_table() {
    assert_eq!(make_replaces_dict(), vec![("valac".to_string(), "vala".to_string())]);
}

#[test]
fn package_names() {
    assert_eq!(package_name("libgtk-3-dev"), "gtk-devel");
    assert_eq!(package_name("glib-2.0"), "glib");
    assert_eq!(package_name("libfoo"), "foo");
    assert_eq!(package_name("lib"), "lib");
    assert_eq!(package_name("gtk+-3.0"), "gtk+-3.0");
    assert_eq!(package_name("libxml2-dev"), "xml-devel");
}

#[test]
fn translate_dependency_lines() {
    assert_eq!(filter_and_trans("meson"), None);
    assert_eq!(filter_and_trans("  meson  "), None);
    assert_eq!(filter_and_trans("valac"), pair("valac", "vala"));
    assert_eq!(filter_and_trans("libgtk-3-dev"), pair("libgtk-3-dev", "gtk-devel"));
    assert_eq!(filter_and_trans(""), pair("", ""));
    assert_eq!(translate_deps("meson\nvalac\n  libfoo-dev >= 1\n"), vec!["vala".to_string(), "foo-devel".to_string()]);
}

#[test]
fn repository_search_ranking() {
    assert_eq!(line_package("gtk3-devel  - Development files"), Some("gtk3-devel".to_string()));
    assert_eq!(line_package("no dash here"), None);
    assert_eq!(line_package(" leading - x"), None);
    let lines = vec![
        "garbage".to_string(),
        "gtk2-devel - old".to_string(),
        "gtk3-devel - new".to_string(),
        "gtk-devel - exact".to_string(),
        "gtk-devel2 - far".to_string(),
    ];
    assert_eq!(best_package(&lines, "gtk-devel"), Some("gtk-devel".to_string()));
    assert_eq!(best_package(&lines, "gtk4-devel"), Some("gtk2-devel".to_string()));
    assert_eq!(best_package(&Vec::new(), "x"), None);
    let out = "\u{1b}[1mvala\u{1b}[0m - compiler\nvala-devel - headers\n";
    assert_eq!(search_output_best(out, "vala"), Some("vala".to_string()));
}

#[test]
fn search_result_or_not_found() {
    assert_eq!(try_search_dep("foo".to_string(), Some("foo-devel".to_string())), "foo-devel");
    assert_eq!(try_search_dep("foo".to_string(), None), "foo (not found in repos)");
}

#[test]
fn translate_given_lines() {
    let lines = vec!["libfoo-dev".to_string(), "meson".to_string(), "".to_string(), "valac".to_string()];
    assert_eq!(
        translate_dep_lines(&lines),
        vec!["foo-devel".to_string(), "".to_string(), "vala".to_string()]
    );
}
