//! The main window's decisions: which page is active, when the search and info
//! buttons show, and how the sidebar and header react to the user and to the
//! window's width. The widgets carry out what these functions decide.

use vstd::prelude::*;
use crate::text::{chars_of, seq_equals};

verus! {

/// The window's own state.
pub struct WindowState {
    pub performance_page_active: bool,
    pub apps_page_active: bool,
    pub services_page_active: bool,
    pub user_hid_sidebar: bool,
    pub summary_mode: bool,
    pub collapse_threshold: i32,
}

impl WindowState {
    /// Exactly one page is active.
    pub open spec fn one_page_active(self) -> bool {
        ||| self.performance_page_active && !self.apps_page_active && !self.services_page_active
        ||| !self.performance_page_active && self.apps_page_active && !self.services_page_active
        ||| !self.performance_page_active && !self.apps_page_active && self.services_page_active
    }

    pub open spec fn initial() -> WindowState {
        WindowState {
            performance_page_active: true,
            apps_page_active: false,
            services_page_active: false,
            user_hid_sidebar: false,
            summary_mode: false,
            collapse_threshold: 0,
        }
    }

    /// The search button shows on the apps and services pages.
    pub open spec fn search_visible(self) -> bool {
        self.apps_page_active || self.services_page_active
    }

    pub open spec fn hides_sidebar(self, width_below_threshold: bool) -> bool {
        !self.performance_page_active || self.user_hid_sidebar || self.summary_mode
            || width_below_threshold
    }

    /// The info button shows on the performance page, where that page shows it.
    pub fn info_button_visible(&self, page_bound: bool, page_info_button_visible: bool) -> (r:
        bool)
        ensures
            r == (page_bound && self.performance_page_active && page_info_button_visible),
    {
        if page_bound {
            self.performance_page_active && page_info_button_visible
        } else {
            false
        }
    }

    pub fn search_button_visible(&self) -> (r: bool)
        ensures
            r == self.search_visible(),
    {
        self.apps_page_active || self.services_page_active
    }

    /// The sidebar hides off the performance page, when the user hid it, in summary
    /// mode, and when the window is narrower than the collapse threshold.
    pub fn should_hide_sidebar(&self, width_below_threshold: bool) -> (r: bool)
        ensures
            r == self.hides_sidebar(width_below_threshold),
    {
        !self.performance_page_active || self.user_hid_sidebar || self.summary_mode
            || width_below_threshold
    }
}

impl Default for WindowState {
    fn default() -> (r: Self)
        ensures
            r == WindowState::initial(),
    {
        WindowState {
            performance_page_active: true,
            apps_page_active: false,
            services_page_active: false,
            user_hid_sidebar: false,
            summary_mode: false,
            collapse_threshold: 0,
        }
    }
}

/// The pages the window's stack holds, by name.
pub enum Page {
    Performance,
    Apps,
    Services,
    Other,
}

pub open spec fn page_of(name: Seq<char>) -> Page {
    if name == "performance-page"@ {
        Page::Performance
    } else if name == "apps-page"@ {
        Page::Apps
    } else if name == "services-page"@ {
        Page::Services
    } else {
        Page::Other
    }
}

/// Which page the stack's name `name` stands for.
pub fn page_named(name: &str) -> (r: Page)
    ensures
        r == page_of(name@),
{
    let n = chars_of(name);
    let performance = chars_of("performance-page");
    let apps = chars_of("apps-page");
    let services = chars_of("services-page");
    if seq_equals(&n, 0, n.len(), &performance) {
        proof {
            assert(n@.subrange(0, n@.len() as int) =~= n@);
        }
        Page::Performance
    } else if seq_equals(&n, 0, n.len(), &apps) {
        proof {
            assert(n@.subrange(0, n@.len() as int) =~= n@);
        }
        Page::Apps
    } else if seq_equals(&n, 0, n.len(), &services) {
        proof {
            assert(n@.subrange(0, n@.len() as int) =~= n@);
        }
        Page::Services
    } else {
        proof {
            assert(n@.subrange(0, n@.len() as int) =~= n@);
        }
        Page::Other
    }
}

/// What showing a page led to.
pub enum PageUpdate {
    /// The page was already the active one: nothing to notify or store.
    AlreadyActive,
    /// The active page changed: the three page flags are notified, then the info
    /// and search buttons, and the page's name is stored in the settings.
    Switched,
    /// The name is no known page: the page flags stay, the info and search buttons
    /// are notified and the name is stored in the settings.
    UnknownPage,
}

impl WindowState {
    pub open spec fn with_page(self, p: Page) -> WindowState {
        WindowState {
            performance_page_active: p is Performance,
            apps_page_active: p is Apps,
            services_page_active: p is Services,
            ..self
        }
    }

    pub open spec fn is_active(self, p: Page) -> bool {
        match p {
            Page::Performance => self.performance_page_active,
            Page::Apps => self.apps_page_active,
            Page::Services => self.services_page_active,
            Page::Other => false,
        }
    }

    /// The state after the stack shows the page named `name`.
    pub open spec fn shown(self, name: Seq<char>) -> WindowState {
        let p = page_of(name);
        if p is Other || self.is_active(p) {
            self
        } else {
            self.with_page(p)
        }
    }

    /// What showing the page named `name` leads to.
    pub open spec fn show_outcome(self, name: Seq<char>) -> PageUpdate {
        let p = page_of(name);
        if p is Other {
            PageUpdate::UnknownPage
        } else if self.is_active(p) {
            PageUpdate::AlreadyActive
        } else {
            PageUpdate::Switched
        }
    }

    /// The stack now shows the page named `visible_child_name`.
    pub fn update_active_page(&mut self, visible_child_name: &str) -> (r: PageUpdate)
        ensures
            *final(self) == old(self).shown(visible_child_name@),
            r == old(self).show_outcome(visible_child_name@),
            ({
                let p = page_of(visible_child_name@);
                if p is Other {
                    r is UnknownPage && *final(self) == *old(self)
                } else if old(self).is_active(p) {
                    r is AlreadyActive && *final(self) == *old(self)
                } else {
                    r is Switched && *final(self) == old(self).with_page(p)
                }
            }),
    {
        match page_named(visible_child_name) {
            Page::Performance => {
                if self.performance_page_active {
                    return PageUpdate::AlreadyActive;
                }
                self.performance_page_active = true;
                self.apps_page_active = false;
                self.services_page_active = false;
                PageUpdate::Switched
            },
            Page::Apps => {
                if self.apps_page_active {
                    return PageUpdate::AlreadyActive;
                }
                self.performance_page_active = false;
                self.apps_page_active = true;
                self.services_page_active = false;
                PageUpdate::Switched
            },
            Page::Services => {
                if self.services_page_active {
                    return PageUpdate::AlreadyActive;
                }
                self.performance_page_active = false;
                self.apps_page_active = false;
                self.services_page_active = true;
                PageUpdate::Switched
            },
            Page::Other => PageUpdate::UnknownPage,
        }
    }

    /// The sidebar toggle button was used: it now reads `button_active`. Returns
    /// whether the user's choice changed (to be notified), and whether the split
    /// view is to be uncollapsed.
    pub fn sidebar_button_toggled(&mut self, button_active: bool, width_below_threshold: bool)
        -> (r: (bool, bool))
        ensures
            r.0 == (!button_active != old(self).user_hid_sidebar),
            r.1 == (r.0 && old(self).performance_page_active && !width_below_threshold),
            *final(self) == (WindowState { user_hid_sidebar: !button_active, ..*old(self) }),
    {
        let user_hid_sidebar = !button_active;
        if user_hid_sidebar != self.user_hid_sidebar {
            self.user_hid_sidebar = user_hid_sidebar;
            let uncollapse = self.performance_page_active && !width_below_threshold;
            (true, uncollapse)
        } else {
            (false, false)
        }
    }

    /// What the narrow-window breakpoint does when it applies: the header stack
    /// hides unless search is active, and on the performance page the split view
    /// collapses as `should_hide_sidebar` says.
    pub fn breakpoint_applied(&self, search_active: bool, width_below_threshold: bool) -> (r: (
        bool,
        Option<bool>,
    ))
        ensures
            r.0 == !search_active,
            r.1 == (if self.performance_page_active {
                Some(self.hides_sidebar(width_below_threshold))
            } else {
                None::<bool>
            }),
    {
        let hide_header_stack = !search_active;
        if !self.performance_page_active {
            return (hide_header_stack, None);
        }
        (hide_header_stack, Some(self.should_hide_sidebar(width_below_threshold)))
    }

    /// The sidebar after the active page changed: (shown, collapsed).
    pub fn sidebar_for_active_page(&self, width_below_threshold: bool) -> (r: (bool, bool))
        ensures
            self.performance_page_active ==> r == (
                !self.hides_sidebar(width_below_threshold),
                self.hides_sidebar(width_below_threshold),
            ),
            !self.performance_page_active ==> r == (false, true),
    {
        if self.performance_page_active {
            let should_hide_sidebar = self.should_hide_sidebar(width_below_threshold);
            (!should_hide_sidebar, should_hide_sidebar)
        } else {
            (false, true)
        }
    }

    /// The sidebar after summary mode changed: (shown, collapsed), each where it
    /// changes.
    pub fn sidebar_for_summary_mode(&self, width_below_threshold: bool) -> (r: (
        Option<bool>,
        Option<bool>,
    ))
        ensures
            self.summary_mode ==> r == (Some(false), None::<bool>),
            !self.summary_mode && !width_below_threshold ==> r == (
                Some(!self.user_hid_sidebar),
                Some(false),
            ),
            !self.summary_mode && width_below_threshold ==> r == (None::<bool>, None::<bool>),
    {
        if self.summary_mode {
            (Some(false), None)
        } else if !width_below_threshold {
            (Some(!self.user_hid_sidebar), Some(false))
        } else {
            (None, None)
        }
    }

    /// Where a key press goes: to the services page while its dialog shows there,
    /// else to the search entry (`true` for the services page).
    pub fn key_goes_to_services_page(&self, services_dialog_visible: bool) -> (r: bool)
        ensures
            r == (self.services_page_active && services_dialog_visible),
    {
        self.services_page_active && services_dialog_visible
    }
}

/// The search state after the toggle action fires in state `state` (an action
/// without a readable state counts as active).
pub open spec fn search_toggled(state: Option<bool>) -> bool {
    !(match state {
        Some(s) => s,
        None => true,
    })
}

/// The search toggle action fired while its state was `state`: the new state, and
/// whether the header stack hides (it hides when search ends in a narrow window).
pub fn toggle_search(state: Option<bool>, width_below_threshold: bool) -> (r: (bool, bool))
    ensures
        r.0 == search_toggled(state),
        r.1 == (!r.0 && width_below_threshold),
{
    let new_state = !match state {
        Some(s) => s,
        None => true,
    };
    (new_state, !new_state && width_below_threshold)
}

/// Law: the window starts with exactly one page active, and showing any page keeps
/// exactly one page active.
pub proof fn lemma_one_page_active(s: WindowState, after: WindowState, name: Seq<char>)
    requires
        s.one_page_active(),
        ({
            let p = page_of(name);
            if p is Other || s.is_active(p) {
                after == s
            } else {
                after == s.with_page(p)
            }
        }),
    ensures
        WindowState::initial().one_page_active(),
        after.one_page_active(),
{
}

/// Law: after a known page is shown it is the active page, and showing it again
/// changes nothing and notifies nothing.
pub proof fn lemma_show_page_twice(s: WindowState, name: Seq<char>)
    requires
        s.one_page_active(),
        !(page_of(name) is Other),
    ensures
        ({
            let p = page_of(name);
            let after = if s.is_active(p) {
                s
            } else {
                s.with_page(p)
            };
            after.is_active(p) && after.one_page_active()
        }),
{
}

/// Law: toggling search flips a readable state, turns it off where the state
/// cannot be read, and toggling twice returns it to the state it had.
pub proof fn lemma_toggle_search_twice(active: bool)
    ensures
        search_toggled(Some(active)) == !active,
        search_toggled(None) == false,
        search_toggled(Some(search_toggled(Some(active)))) == active,
{
}

/// Law: with one page active, the search button shows exactly off the performance
/// page, and off the performance page the sidebar always hides.
pub proof fn lemma_search_and_sidebar(s: WindowState, width_below_threshold: bool)
    requires
        s.one_page_active(),
    ensures
        s.search_visible() == !s.performance_page_active,
        !s.performance_page_active ==> s.hides_sidebar(width_below_threshold),
{
}


/// The fields that showing a page leaves alone are those of `s`.
pub open spec fn same_settings(a: WindowState, b: WindowState) -> bool {
    a.user_hid_sidebar == b.user_hid_sidebar && a.summary_mode == b.summary_mode
        && a.collapse_threshold == b.collapse_threshold
}

/// Law: showing the performance page makes it the only active page; it switches
/// exactly when that page was not active; nothing else changes.
pub proof fn lemma_show_performance_page(s: WindowState)
    requires
        s.one_page_active(),
    ensures
        ({
            let t = s.shown("performance-page"@);
            &&& t.performance_page_active && !t.apps_page_active && !t.services_page_active
            &&& same_settings(s, t)
            &&& (s.show_outcome("performance-page"@) is Switched) == !s.performance_page_active
            &&& (s.show_outcome("performance-page"@) is AlreadyActive) == s.performance_page_active
        }),
{
    reveal_strlit("performance-page");
}

/// Law: showing the apps page makes it the only active page; it switches exactly
/// when the apps page was not active; nothing else changes.
pub proof fn lemma_show_apps_page(s: WindowState)
    requires
        s.one_page_active(),
    ensures
        ({
            let t = s.shown("apps-page"@);
            &&& !t.performance_page_active && t.apps_page_active && !t.services_page_active
            &&& same_settings(s, t)
            &&& (s.show_outcome("apps-page"@) is Switched) == !s.apps_page_active
            &&& (s.show_outcome("apps-page"@) is AlreadyActive) == s.apps_page_active
        }),
{
    reveal_strlit("performance-page");
    reveal_strlit("apps-page");
    assert("apps-page"@.len() != "performance-page"@.len());
}

/// Law: showing the services page makes it the only active page; it switches
/// exactly when the services page was not active; nothing else changes.
pub proof fn lemma_show_services_page(s: WindowState)
    requires
        s.one_page_active(),
    ensures
        ({
            let t = s.shown("services-page"@);
            &&& !t.performance_page_active && !t.apps_page_active && t.services_page_active
            &&& same_settings(s, t)
            &&& (s.show_outcome("services-page"@) is Switched) == !s.services_page_active
            &&& (s.show_outcome("services-page"@) is AlreadyActive) == s.services_page_active
        }),
{
    reveal_strlit("performance-page");
    reveal_strlit("apps-page");
    reveal_strlit("services-page");
    assert("services-page"@.len() != "performance-page"@.len());
    assert("services-page"@.len() != "apps-page"@.len());
}

/// Law: a name that is none of the three pages changes nothing.
pub proof fn lemma_show_unknown_page(s: WindowState, name: Seq<char>)
    requires
        name != "performance-page"@,
        name != "apps-page"@,
        name != "services-page"@,
    ensures
        s.shown(name) == s,
        s.show_outcome(name) is UnknownPage,
{
}

/// Law: the sidebar hides exactly off the performance page, when the user hid it,
/// in summary mode, or in a narrow window; each of these alone hides it.
pub proof fn lemma_hides_sidebar(s: WindowState, width_below_threshold: bool)
    ensures
        s.user_hid_sidebar ==> s.hides_sidebar(width_below_threshold),
        s.summary_mode ==> s.hides_sidebar(width_below_threshold),
        width_below_threshold ==> s.hides_sidebar(width_below_threshold),
        !s.performance_page_active ==> s.hides_sidebar(width_below_threshold),
        s.performance_page_active && !s.user_hid_sidebar && !s.summary_mode
            && !width_below_threshold ==> !s.hides_sidebar(width_below_threshold),
{
}

} // verus!
