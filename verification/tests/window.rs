use mission_center::window::{page_named, toggle_search, Page, PageUpdate, WindowState};

fn active(s: &WindowState) -> (bool, bool, bool) {
    (s.performance_page_active, s.apps_page_active, s.services_page_active)
}

#[test]
fn starts_on_the_performance_page() {
    let s = WindowState::default();
    assert_eq!(active(&s), (true, false, false));
    assert!(!s.user_hid_sidebar);
    assert!(!s.summary_mode);
    assert_eq!(s.collapse_threshold, 0);
    assert!(!s.search_button_visible());
}

#[test]
fn switching_pages() {
    let mut s = WindowState::default();
    assert!(matches!(s.update_active_page("performance-page"), PageUpdate::AlreadyActive));
    assert!(matches!(s.update_active_page("apps-page"), PageUpdate::Switched));
    assert_eq!(active(&s), (false, true, false));
    assert!(s.search_button_visible());
    assert!(matches!(s.update_active_page("apps-page"), PageUpdate::AlreadyActive));
    assert!(matches!(s.update_active_page("services-page"), PageUpdate::Switched));
    assert_eq!(active(&s), (false, false, true));
    assert!(matches!(s.update_active_page(""), PageUpdate::UnknownPage));
    assert_eq!(active(&s), (false, false, true));
    assert!(matches!(s.update_active_page("performance-page"), PageUpdate::Switched));
    assert_eq!(active(&s), (true, false, false));
}

#[test]
fn page_names() {
    assert!(matches!(page_named("performance-page"), Page::Performance));
    assert!(matches!(page_named("apps-page"), Page::Apps));
    assert!(matches!(page_named("services-page"), Page::Services));
    assert!(matches!(page_named("apps-pages"), Page::Other));
}

#[test]
fn info_button() {
    let mut s = WindowState::default();
    assert!(s.info_button_visible(true, true));
    assert!(!s.info_button_visible(false, true));
    assert!(!s.info_button_visible(true, false));
    s.update_active_page("apps-page");
    assert!(!s.info_button_visible(true, true));
}

#[test]
fn sidebar_hiding() {
    let mut s = WindowState::default();
    assert!(!s.should_hide_sidebar(false));
    assert!(s.should_hide_sidebar(true));
    s.summary_mode = true;
    assert!(s.should_hide_sidebar(false));
    s.summary_mode = false;
    s.update_active_page("services-page");
    assert!(s.should_hide_sidebar(false));
    assert_eq!(s.sidebar_for_active_page(false), (false, true));
    s.update_active_page("performance-page");
    assert_eq!(s.sidebar_for_active_page(false), (true, false));
    assert_eq!(s.sidebar_for_active_page(true), (false, true));
}

#[test]
fn sidebar_button() {
    let mut s = WindowState::default();
    assert_eq!(s.sidebar_button_toggled(false, false), (true, true));
    assert!(s.user_hid_sidebar);
    assert_eq!(s.sidebar_button_toggled(false, false), (false, false));
    assert_eq!(s.sidebar_button_toggled(true, true), (true, false));
    assert!(!s.user_hid_sidebar);
}

#[test]
fn breakpoint_and_summary() {
    let mut s = WindowState::default();
    assert_eq!(s.breakpoint_applied(false, true), (true, Some(true)));
    assert_eq!(s.breakpoint_applied(true, false), (false, Some(false)));
    s.update_active_page("apps-page");
    assert_eq!(s.breakpoint_applied(false, false), (true, None));
    s.summary_mode = true;
    assert_eq!(s.sidebar_for_summary_mode(false), (Some(false), None));
    s.summary_mode = false;
    s.user_hid_sidebar = true;
    assert_eq!(s.sidebar_for_summary_mode(false), (Some(false), Some(false)));
    assert_eq!(s.sidebar_for_summary_mode(true), (None, None));
}

#[test]
fn key_routing() {
    let mut s = WindowState::default();
    assert!(!s.key_goes_to_services_page(true));
    s.update_active_page("services-page");
    assert!(s.key_goes_to_services_page(true));
    assert!(!s.key_goes_to_services_page(false));
}

#[test]
fn search_toggle() {
    assert_eq!(toggle_search(Some(false), true), (true, false));
    assert_eq!(toggle_search(Some(true), true), (false, true));
    assert_eq!(toggle_search(Some(true), false), (false, false));
    assert_eq!(toggle_search(None, true), (false, true));
    let (on, _) = toggle_search(Some(false), false);
    let (off, _) = toggle_search(Some(on), false);
    assert!(!off);
}
