use h35_desktop::update::updater_allowed;

#[test]
fn updater_allowed_only_when_bundled_desktop_opens() {
    assert!(updater_allowed(true, true));
    assert!(!updater_allowed(true, false));
    assert!(!updater_allowed(false, true));
    assert!(!updater_allowed(false, false));
}
