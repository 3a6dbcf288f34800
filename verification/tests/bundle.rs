use h35_desktop::bundle::{running_inside_app_bundle, running_inside_named_app_bundle};

#[test]
fn detects_any_app_layout() {
    let exe = "/Applications/Widget.app/Contents/MacOS/widget";
    assert!(running_inside_app_bundle(exe));
    assert!(running_inside_named_app_bundle(exe, Some("Widget")));
    assert!(!running_inside_named_app_bundle(exe, Some("Other")));
}

#[test]
fn ignores_plain_binaries() {
    assert!(!running_inside_app_bundle("/usr/local/bin/widget"));
}

#[test]
fn bundle_needs_all_three_levels() {
    assert!(!running_inside_app_bundle("/Widget.app/Contents/widget"));
    assert!(!running_inside_app_bundle("MacOS/widget"));
    assert!(!running_inside_app_bundle(""));
    assert!(!running_inside_app_bundle("/"));
}

#[test]
fn bundle_names_are_case_sensitive() {
    assert!(!running_inside_app_bundle("/Applications/Widget.app/contents/MacOS/widget"));
    assert!(!running_inside_app_bundle("/Applications/Widget.app/Contents/macos/widget"));
    assert!(!running_inside_app_bundle("/Applications/Widget.App/Contents/MacOS/widget"));
    assert!(!running_inside_app_bundle("/Applications/Widget.apps/Contents/MacOS/widget"));
}

#[test]
fn relative_bundle_paths_count() {
    assert!(running_inside_app_bundle("Widget.app/Contents/MacOS/widget"));
    assert!(running_inside_named_app_bundle("Widget.app/Contents/MacOS/widget", Some("Widget")));
}

#[test]
fn stem_is_the_name_before_the_last_dot() {
    let exe = "/Applications/My.Widget.app/Contents/MacOS/widget";
    assert!(running_inside_named_app_bundle(exe, Some("My.Widget")));
    assert!(!running_inside_named_app_bundle(exe, Some("My")));
    // `.app` alone has no extension: the whole name is the stem.
    assert!(!running_inside_app_bundle("/.app/Contents/MacOS/widget"));
}

#[test]
fn named_bundle_implies_any_bundle() {
    for exe in [
        "/Applications/Widget.app/Contents/MacOS/widget",
        "/usr/local/bin/widget",
        "/Applications/Other.app/Contents/MacOS/other",
    ] {
        if running_inside_named_app_bundle(exe, Some("Widget")) {
            assert!(running_inside_app_bundle(exe));
        }
        assert_eq!(
            running_inside_app_bundle(exe),
            running_inside_named_app_bundle(exe, None)
        );
    }
}
