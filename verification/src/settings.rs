//! The Settings tab: a menu of pages beside the page's content, the keys
//! each page binds, and the wheel over its menu.
use vstd::prelude::*;

use crate::app::{owned, App, Cmd, Menus, RoutingPage, SettingsPage, Tab};
use crate::feedback::FeedbackType;
use crate::keymap::KeyCode;

verus! {

/// What the menu/content navigation did with a key.
#[derive(Clone, Copy, Debug, PartialEq, Eq, Structural)]
pub enum NavAction {
    /// The menu selection moved.
    SelectionChanged,
    /// The keyboard stepped into the page's content.
    Entered,
    /// The keyboard stepped back to the menu.
    Left,
    /// The key was swallowed.
    Consumed,
    /// The page's own bindings apply.
    Unhandled,
}

/// What a Settings key did.
pub enum SettingsKey {
    Handled(Option<Cmd>),
    Unhandled,
}

/// `index` one step up or down a list of `len`, without wrapping.
pub open spec fn stepped_index(index: usize, len: usize, up: bool) -> usize {
    if up {
        if index > 0 {
            (index - 1) as usize
        } else {
            0
        }
    } else if index + 1 < len {
        (index + 1) as usize
    } else if len > 0 {
        (len - 1) as usize
    } else {
        0
    }
}

/// `index` one step up or down a list of `len`, without wrapping.
pub fn step_index(index: usize, len: usize, up: bool) -> (r: usize)
    ensures
        r == stepped_index(index, len, up),
{
    if up {
        index.saturating_sub(1)
    } else if index < usize::MAX && index + 1 < len {
        index + 1
    } else if len > 0 {
        len - 1
    } else {
        0
    }
}

/// The menu/content model shared by tabs with pages: on the menu the
/// arrows move the selection and Enter or Right steps in; inside a page Esc
/// or Left steps back out when leaving is allowed.
pub fn navigate(code: KeyCode, len: usize, index: &mut usize, focused: &mut bool, allow_leave: bool) -> (r: NavAction)
    ensures
        !*old(focused) ==> match code {
            KeyCode::Up | KeyCode::Down => r == NavAction::SelectionChanged && *final(index)
                == stepped_index(*old(index), len, code == KeyCode::Up) && !*final(focused),
            KeyCode::Enter | KeyCode::Right => r == NavAction::Entered && *final(focused) && *final(index)
                == *old(index),
            _ => r == NavAction::Unhandled && *final(index) == *old(index) && !*final(focused),
        },
        *old(focused) ==> *final(index) == *old(index) && match code {
            KeyCode::Esc | KeyCode::Left => if allow_leave {
                r == NavAction::Left && !*final(focused)
            } else {
                r == NavAction::Consumed && *final(focused)
            },
            _ => r == NavAction::Unhandled && *final(focused),
        },
{
    if !*focused {
        match code {
            KeyCode::Up => {
                *index = step_index(*index, len, true);
                NavAction::SelectionChanged
            },
            KeyCode::Down => {
                *index = step_index(*index, len, false);
                NavAction::SelectionChanged
            },
            KeyCode::Enter | KeyCode::Right => {
                *focused = true;
                NavAction::Entered
            },
            _ => NavAction::Unhandled,
        }
    } else {
        match code {
            KeyCode::Esc | KeyCode::Left => {
                if allow_leave {
                    *focused = false;
                    NavAction::Left
                } else {
                    NavAction::Consumed
                }
            },
            _ => NavAction::Unhandled,
        }
    }
}

/// The page a tab lands on asks for its data: Usage and Context fetch on
/// entry, the feedback board loads, and Changes re-reads the repository.
pub open spec fn entry_cmd(tab: Option<Tab>, page: Option<SettingsPage>) -> Option<Cmd> {
    match tab {
        Some(Tab::Settings) => match page {
            Some(SettingsPage::Usage) => Some(Cmd::LoadUsage),
            Some(SettingsPage::Context) => Some(Cmd::InspectContext),
            _ => None,
        },
        Some(Tab::Changes) => Some(Cmd::RefreshChanges),
        _ => None,
    }
}

impl App {
    /// The command the current tab and page ask for when landed on.
    pub fn tab_enter_cmd(&self) -> (r: Option<Cmd>)
        ensures
            r == entry_cmd(self.tab_spec(), self.settings_page_spec()),
    {
        match self.tab() {
            Some(Tab::Settings) => match self.settings_page() {
                Some(SettingsPage::Usage) => Some(Cmd::LoadUsage),
                Some(SettingsPage::Context) => Some(Cmd::InspectContext),
                _ => None,
            },
            Some(Tab::Changes) => Some(Cmd::RefreshChanges),
            _ => None,
        }
    }

    /// The position of `tab` in the tab bar.
    pub fn tab_pos(&self, tab: Tab) -> (r: Option<usize>)
        ensures
            match r {
                Some(i) => i < self.tabs@.len() && self.tabs@[i as int] == tab && self.tab_pos_spec(tab)
                    == Some(i as int),
                None => self.tab_pos_spec(tab) is None && forall|j: int|
                    0 <= j < self.tabs@.len() ==> self.tabs@[j] != tab,
            },
    {
        let mut i: usize = 0;
        while i < self.tabs.len()
            invariant
                i <= self.tabs@.len(),
                forall|j: int| 0 <= j < i ==> self.tabs@[j] != tab,
            decreases self.tabs.len() - i,
        {
            if self.tabs[i] == tab {
                proof {
                    let c = choose|c: int|
                        0 <= c < self.tabs@.len() && self.tabs@[c] == tab && forall|j: int|
                            0 <= j < c ==> self.tabs@[j] != tab;
                    assert(0 <= i < self.tabs@.len() && self.tabs@[i as int] == tab && forall|j: int|
                        0 <= j < i ==> self.tabs@[j] != tab);
                    if c > i {
                        assert(self.tabs@[i as int] != tab);
                    }
                }
                return Some(i);
            }
            i = i + 1;
        }
        None
    }

    /// The position of `page` in the Settings menu.
    pub fn settings_pos(&self, page: SettingsPage) -> (r: Option<usize>)
        ensures
            match r {
                Some(i) => first_page_at(self.menus.settings_pages@, page, i as int),
                None => forall|j: int| 0 <= j < self.menus.settings_pages@.len() ==> self.menus.settings_pages@[j] != page,
            },
    {
        let mut i: usize = 0;
        while i < self.menus.settings_pages.len()
            invariant
                i <= self.menus.settings_pages@.len(),
                forall|j: int| 0 <= j < i ==> self.menus.settings_pages@[j] != page,
            decreases self.menus.settings_pages.len() - i,
        {
            if self.menus.settings_pages[i] == page {
                return Some(i);
            }
            i = i + 1;
        }
        None
    }

    /// Land on the Settings tab at page `index` (clamped), on the menu
    /// rather than inside the page, with any armed logout disarmed; returns
    /// the page's lazy-load command.
    pub fn set_settings_subpage(&mut self, index: usize) -> (r: Option<Cmd>)
        ensures
            subpage_set(*old(self), index, *final(self), r),
            final(self).tab_index == (match old(self).tab_pos_spec(Tab::Settings) {
                Some(i) => i as usize,
                None => old(self).tab_index,
            }),
            final(self).menus.settings_index == (if old(self).menus.settings_pages@.len() == 0 {
                0
            } else if index < old(self).menus.settings_pages@.len() - 1 {
                index
            } else {
                (old(self).menus.settings_pages@.len() - 1) as usize
            }),
            !final(self).logout_armed,
            !final(self).menus.settings_focused,
            r == entry_cmd(final(self).tab_spec(), final(self).settings_page_spec()),
            *final(self) == (App {
                tab_index: final(self).tab_index,
                menus: Menus {
                    settings_index: final(self).menus.settings_index,
                    settings_focused: false,
                    ..old(self).menus
                },
                logout_armed: false,
                ..*old(self)
            }),
    {
        match self.tab_pos(Tab::Settings) {
            Some(i) => {
                self.tab_index = i;
            },
            None => {},
        }
        let n = self.menus.settings_pages.len();
        self.menus.settings_index = if n == 0 {
            0
        } else if index < n - 1 {
            index
        } else {
            n - 1
        };
        self.logout_armed = false;
        self.menus.settings_focused = false;
        self.tab_enter_cmd()
    }

    /// The first position of `tab` in the tab bar.
    pub open spec fn tab_pos_spec(&self, tab: Tab) -> Option<int> {
        if exists|i: int| 0 <= i < self.tabs@.len() && self.tabs@[i] == tab {
            Some(
                choose|i: int|
                    0 <= i < self.tabs@.len() && self.tabs@[i] == tab && forall|j: int|
                        0 <= j < i ==> self.tabs@[j] != tab,
            )
        } else {
            None
        }
    }

    /// Jump to a Settings page and step into its content.
    pub fn enter_settings_subpage(&mut self, index: usize) -> (r: Option<Cmd>)
        ensures
            final(self).tabs == old(self).tabs,
            final(self).menus.settings_focused,
            final(self).tab_index == (match old(self).tab_pos_spec(Tab::Settings) {
                Some(i) => i as usize,
                None => old(self).tab_index,
            }),
            !final(self).logout_armed,
            r == entry_cmd(final(self).tab_spec(), final(self).settings_page_spec()),
            subpage_entered(*old(self), index, *final(self), r),
    {
        let cmd = self.set_settings_subpage(index);
        self.menus.settings_focused = true;
        cmd
    }

    /// Scroll the content of the focused Settings page one row.
    pub fn settings_content_scroll(&mut self, up: bool) -> (r: SettingsKey)
        ensures
            final(self).tabs == old(self).tabs,
            final(self).menus.settings_pages == old(self).menus.settings_pages,
            content_scrolled(*old(self), up, *final(self), r),
    {
        match self.settings_page() {
            Some(SettingsPage::Appearance) => {
                self.menus.appearance_index = step_index(self.menus.appearance_index, self.setup.appearance_rows, up);
                SettingsKey::Handled(None)
            },
            Some(SettingsPage::Trace) => {
                self.selected = if up {
                    self.selected.saturating_sub(1)
                } else {
                    self.selected.saturating_add(1)
                };
                SettingsKey::Handled(None)
            },
            Some(SettingsPage::Context) => {
                self.menus.context_index = step_index(self.menus.context_index, self.setup.contexts.len(), up);
                SettingsKey::Handled(None)
            },
            Some(SettingsPage::Help) => {
                self.menus.help_scroll = if up {
                    self.menus.help_scroll.saturating_sub(1)
                } else {
                    self.menus.help_scroll.saturating_add(1)
                };
                SettingsKey::Handled(None)
            },
            Some(SettingsPage::Feedback) => SettingsKey::Handled(self.move_feedback_index(up)),
            _ => SettingsKey::Handled(None),
        }
    }

    /// Move the active tab's page selection by one, for a wheel over its
    /// menu.
    pub fn scroll_subpage(&mut self, up: bool)
        ensures
            subpage_scrolled(*old(self), up, *final(self)),
            match old(self).tab_spec() {
                Some(Tab::Hosts) => *final(self) == (App {
                    menus: Menus { routing_index: stepped_index(
                        old(self).menus.routing_index,
                        old(self).menus.routing_pages@.len() as usize,
                        up,
                    ), ..old(self).menus },
                    ..*old(self)
                }),
                Some(Tab::Settings) => *final(self) == (App {
                    menus: Menus { settings_index: stepped_index(
                        old(self).menus.settings_index,
                        old(self).menus.settings_pages@.len() as usize,
                        up,
                    ), ..old(self).menus },
                    ..*old(self)
                }),
                _ => *final(self) == *old(self),
            },
    {
        match self.tab() {
            Some(Tab::Hosts) => {
                self.menus.routing_index = step_index(self.menus.routing_index, self.menus.routing_pages.len(), up);
            },
            Some(Tab::Settings) => {
                self.menus.settings_index = step_index(self.menus.settings_index, self.menus.settings_pages.len(), up);
            },
            _ => {},
        }
    }

    /// The feedback board's bindings, on its tab and on its Settings page.
    pub fn feedback_key(&mut self, code: KeyCode) -> (r: SettingsKey)
        ensures
            final(self).tabs == old(self).tabs,
            final(self).menus.settings_pages == old(self).menus.settings_pages,
            feedback_keyed(*old(self), code, *final(self), r),
    {
        match code {
            KeyCode::Char('k') | KeyCode::Up => SettingsKey::Handled(self.move_feedback_index(true)),
            KeyCode::Char('j') | KeyCode::Down => SettingsKey::Handled(self.move_feedback_index(false)),
            KeyCode::PageUp => {
                self.feedback.detail_scroll = self.feedback.detail_scroll.saturating_sub(1);
                SettingsKey::Handled(None)
            },
            KeyCode::PageDown => {
                self.feedback.detail_scroll = self.feedback.detail_scroll.saturating_add(1);
                SettingsKey::Handled(None)
            },
            KeyCode::Char('u') => SettingsKey::Handled(self.vote_selected_feedback(1)),
            KeyCode::Char('d') => SettingsKey::Handled(self.vote_selected_feedback(-1)),
            KeyCode::Char('c') => {
                self.open_feedback_comment();
                SettingsKey::Handled(None)
            },
            KeyCode::Char('n') => {
                self.open_feedback_submit(FeedbackType::Feature);
                SettingsKey::Handled(None)
            },
            KeyCode::Char('b') => {
                self.open_feedback_submit(FeedbackType::Bug);
                SettingsKey::Handled(None)
            },
            KeyCode::Char('s') => SettingsKey::Handled(self.cycle_feedback_sort()),
            KeyCode::Char('f') => SettingsKey::Handled(self.cycle_feedback_filter()),
            KeyCode::Char('r') | KeyCode::Enter => {
                self.status = owned("Feedback · refreshing…");
                SettingsKey::Handled(self.reload_feedback())
            },
            _ => SettingsKey::Unhandled,
        }
    }

    /// The Account page's bindings: Enter arms and confirms the logout,
    /// Esc disarms it.
    pub fn account_key(&mut self, code: KeyCode) -> (r: SettingsKey)
        ensures
            final(self).tabs == old(self).tabs,
            final(self).menus.settings_pages == old(self).menus.settings_pages,
            account_keyed(*old(self), code, *final(self), r),
    {
        match code {
            KeyCode::Enter => {
                let (status, cmd) = self.confirm_logout();
                self.status = status;
                SettingsKey::Handled(cmd)
            },
            KeyCode::Esc => {
                self.logout_armed = false;
                self.status = owned("Account · logout cancelled");
                SettingsKey::Handled(None)
            },
            _ => SettingsKey::Unhandled,
        }
    }

    /// Handle a key on the Settings tab.
    #[verifier::rlimit(60)]
    #[verifier::spinoff_prover]
    pub fn on_settings_key(&mut self, code: KeyCode) -> (r: SettingsKey)
        ensures
            final(self).tabs == old(self).tabs,
            final(self).menus.settings_pages == old(self).menus.settings_pages,
            !old(self).menus.settings_focused && (code == KeyCode::Up || code == KeyCode::Down) ==> final(self).menus.settings_index == stepped_index(
                old(self).menus.settings_index,
                old(self).menus.settings_pages@.len() as usize,
                code == KeyCode::Up,
            ) && !final(self).logout_armed,
            old(self).menus.settings_focused && old(self).logout_armed && (code == KeyCode::Esc || code
                == KeyCode::Left) ==> final(self).menus.settings_focused,
            settings_keyed(*old(self), code, *final(self), r),
    {
        let allow_leave = !self.logout_armed;
        let n = self.menus.settings_pages.len();
        let mut index = self.menus.settings_index;
        let mut focused = self.menus.settings_focused;
        let action = navigate(code, n, &mut index, &mut focused, allow_leave);
        self.menus.settings_index = index;
        self.menus.settings_focused = focused;
        match action {
            NavAction::SelectionChanged => {
                self.logout_armed = false;
                return SettingsKey::Handled(self.tab_enter_cmd());
            },
            NavAction::Entered => {
                self.status = owned("Settings · Esc to go back to the menu");
                return SettingsKey::Handled(None);
            },
            NavAction::Left => {
                self.status = owned("Settings · menu");
                return SettingsKey::Handled(None);
            },
            NavAction::Consumed => {
                return SettingsKey::Handled(None);
            },
            NavAction::Unhandled => {},
        }
        self.settings_page_key(code)
    }

    /// Handle a key the Settings menu leaves to the page.
    #[verifier::rlimit(60)]
    #[verifier::spinoff_prover]
    fn settings_page_key(&mut self, code: KeyCode) -> (r: SettingsKey)
        ensures
            final(self).tabs == old(self).tabs,
            final(self).menus.settings_pages == old(self).menus.settings_pages,
            settings_page_keyed(*old(self), code, *final(self), r),
    {
        if code == KeyCode::Up || code == KeyCode::Down {
            return self.settings_content_scroll(code == KeyCode::Up);
        }
        match self.settings_page() {
            Some(SettingsPage::Usage) => match code {
                KeyCode::Char('r') => {
                    self.status = owned("Usage · refreshing…");
                    SettingsKey::Handled(Some(Cmd::LoadUsage))
                },
                KeyCode::Char('c') => match self.settings_pos(SettingsPage::Config) {
                    Some(i) => SettingsKey::Handled(self.set_settings_subpage(i)),
                    None => SettingsKey::Unhandled,
                },
                _ => SettingsKey::Unhandled,
            },
            Some(SettingsPage::Feedback) => self.feedback_key(code),
            Some(SettingsPage::Trace) => match code {
                KeyCode::Char('k') => {
                    self.selected = self.selected.saturating_sub(1);
                    SettingsKey::Handled(None)
                },
                KeyCode::Char('j') => {
                    self.selected = self.selected.saturating_add(1);
                    SettingsKey::Handled(None)
                },
                _ => SettingsKey::Unhandled,
            },
            Some(SettingsPage::Context) => match code {
                KeyCode::Char('k') => {
                    self.menus.context_index = self.menus.context_index.saturating_sub(1);
                    SettingsKey::Handled(None)
                },
                KeyCode::Char('j') => {
                    self.menus.context_index = step_index(self.menus.context_index, self.setup.contexts.len(), false);
                    SettingsKey::Handled(None)
                },
                KeyCode::Char('r') => {
                    self.status = owned("Context · refreshing…");
                    SettingsKey::Handled(Some(Cmd::InspectContext))
                },
                _ => SettingsKey::Unhandled,
            },
            Some(SettingsPage::Account) => self.account_key(code),
            Some(SettingsPage::Appearance) => match code {
                KeyCode::Char('j') | KeyCode::Char('k') => {
                    self.menus.appearance_index = step_index(
                        self.menus.appearance_index,
                        self.setup.appearance_rows,
                        code == KeyCode::Char('k'),
                    );
                    SettingsKey::Handled(None)
                },
                _ => SettingsKey::Unhandled,
            },
            _ => SettingsKey::Unhandled,
        }
    }
}

/// What a wheel notch over the page menu does.
pub open spec fn subpage_scrolled(before: App, up: bool, after: App) -> bool {
    &&& (match before.tab_spec() {
                Some(Tab::Hosts) => after == (App {
                    menus: Menus { routing_index: stepped_index(
                        before.menus.routing_index,
                        before.menus.routing_pages@.len() as usize,
                        up,
                    ), ..before.menus },
                    ..before
                }),
                Some(Tab::Settings) => after == (App {
                    menus: Menus { settings_index: stepped_index(
                        before.menus.settings_index,
                        before.menus.settings_pages@.len() as usize,
                        up,
                    ), ..before.menus },
                    ..before
                }),
                _ => after == before,
            })
}

/// The keys the feedback board binds.
pub open spec fn feedback_binds(code: KeyCode) -> bool {
    ||| code == KeyCode::Up || code == KeyCode::Down || code == KeyCode::PageUp || code == KeyCode::PageDown
    ||| code == KeyCode::Enter || code == KeyCode::Char('k') || code == KeyCode::Char('j') || code == KeyCode::Char('u')
    ||| code == KeyCode::Char('d') || code == KeyCode::Char('c') || code == KeyCode::Char('n') || code == KeyCode::Char('b')
    ||| code == KeyCode::Char('s') || code == KeyCode::Char('f') || code == KeyCode::Char('r')
}

/// What a key does on the feedback board: Up (`k`) and Down (`j`) move the
/// cursor, PageUp and PageDown scroll the detail, `u` and `d` vote, `c`
/// comments, `n` and `b` start a feature request or a bug report, `s` and
/// `f` cycle the sort and the filter, and `r` or Enter reload the board.
/// Any other key is not the board's.
pub open spec fn feedback_keyed(before: App, code: KeyCode, after: App, r: SettingsKey) -> bool {
    let fb = before.feedback;
    if code == KeyCode::Char('k') || code == KeyCode::Up {
        r matches SettingsKey::Handled(c) && crate::feedback::feedback_moved(before, true, after, c)
    } else if code == KeyCode::Char('j') || code == KeyCode::Down {
        r matches SettingsKey::Handled(c) && crate::feedback::feedback_moved(before, false, after, c)
    } else if code == KeyCode::PageUp {
        r == SettingsKey::Handled(None) && after == (App {
            feedback: crate::feedback::FeedbackState {
                detail_scroll: if fb.detail_scroll > 0 { (fb.detail_scroll - 1) as usize } else { 0 },
                ..fb
            },
            ..before
        })
    } else if code == KeyCode::PageDown {
        r == SettingsKey::Handled(None) && after == (App {
            feedback: crate::feedback::FeedbackState {
                detail_scroll: if fb.detail_scroll < usize::MAX { (fb.detail_scroll + 1) as usize } else { usize::MAX },
                ..fb
            },
            ..before
        })
    } else if code == KeyCode::Char('u') {
        r matches SettingsKey::Handled(c) && crate::feedback::feedback_voted(before, 1i8, after, c)
    } else if code == KeyCode::Char('d') {
        r matches SettingsKey::Handled(c) && crate::feedback::feedback_voted(before, -1i8, after, c)
    } else if code == KeyCode::Char('c') {
        r == SettingsKey::Handled(None) && crate::feedback::feedback_comment_opened(before, after)
    } else if code == KeyCode::Char('n') {
        r == SettingsKey::Handled(None) && crate::feedback::feedback_submit_opened(before, FeedbackType::Feature, after)
    } else if code == KeyCode::Char('b') {
        r == SettingsKey::Handled(None) && crate::feedback::feedback_submit_opened(before, FeedbackType::Bug, after)
    } else if code == KeyCode::Char('s') {
        r matches SettingsKey::Handled(c) && crate::feedback::feedback_sort_cycled(before, after, c)
    } else if code == KeyCode::Char('f') {
        r matches SettingsKey::Handled(c) && crate::feedback::feedback_filter_cycled(before, after, c)
    } else if code == KeyCode::Char('r') || code == KeyCode::Enter {
        &&& r matches SettingsKey::Handled(c)
        &&& after.status@ == "Feedback · refreshing…"@
        &&& crate::feedback::feedback_reloaded(App { status: after.status, ..before }, after, c)
    } else {
        r == SettingsKey::Unhandled && after == before
    }
}

/// The Settings tab shows page `index` (clamped), with the menu focused and any armed logout disarmed.
pub open spec fn subpage_set(before: App, index: usize, after: App, r: Option<Cmd>) -> bool {
    &&& (after.tab_index == (match before.tab_pos_spec(Tab::Settings) {
                Some(i) => i as usize,
                None => before.tab_index,
            }))
    &&& (after.menus.settings_index == (if before.menus.settings_pages@.len() == 0 {
                0
            } else if index < before.menus.settings_pages@.len() - 1 {
                index
            } else {
                (before.menus.settings_pages@.len() - 1) as usize
            }))
    &&& (!after.logout_armed)
    &&& (!after.menus.settings_focused)
    &&& (r == entry_cmd(after.tab_spec(), after.settings_page_spec()))
    &&& (after == (App {
                tab_index: after.tab_index,
                menus: Menus {
                    settings_index: after.menus.settings_index,
                    settings_focused: false,
                    ..before.menus
                },
                logout_armed: false,
                ..before
            }))
}

/// Whether `i` is the first position of `page` among `pages`.
pub open spec fn first_page_at(pages: Seq<SettingsPage>, page: SettingsPage, i: int) -> bool {
    0 <= i < pages.len() && pages[i] == page && forall|j: int| 0 <= j < i ==> pages[j] != page
}

/// What the Up and Down keys do inside a Settings page: they walk the
/// Appearance rows, the Trace selection, the Context list, the Help text and
/// the feedback board; on any other page they do nothing.
pub open spec fn content_scrolled(before: App, up: bool, after: App, r: SettingsKey) -> bool {
    let m = before.menus;
    match before.settings_page_spec() {
        Some(SettingsPage::Appearance) => r == SettingsKey::Handled(None) && after == (App {
            menus: Menus { appearance_index: stepped_index(m.appearance_index, before.setup.appearance_rows, up), ..m },
            ..before
        }),
        Some(SettingsPage::Trace) => r == SettingsKey::Handled(None) && after == (App {
            selected: if up {
                if before.selected > 0 { (before.selected - 1) as usize } else { 0 }
            } else if before.selected < usize::MAX {
                (before.selected + 1) as usize
            } else {
                before.selected
            },
            ..before
        }),
        Some(SettingsPage::Context) => r == SettingsKey::Handled(None) && after == (App {
            menus: Menus {
                context_index: stepped_index(m.context_index, before.setup.contexts@.len() as usize, up),
                ..m
            },
            ..before
        }),
        Some(SettingsPage::Help) => r == SettingsKey::Handled(None) && after == (App {
            menus: Menus {
                help_scroll: if up {
                    if m.help_scroll > 0 { (m.help_scroll - 1) as usize } else { 0 }
                } else if m.help_scroll < usize::MAX {
                    (m.help_scroll + 1) as usize
                } else {
                    m.help_scroll
                },
                ..m
            },
            ..before
        }),
        Some(SettingsPage::Feedback) => r matches SettingsKey::Handled(c) && crate::feedback::feedback_moved(
            before,
            up,
            after,
            c,
        ),
        _ => r == SettingsKey::Handled(None) && after == before,
    }
}

/// What a key does on the Account page: Enter arms the logout and, once
/// armed, confirms it; Esc disarms it; no other key is the page's.
pub open spec fn account_keyed(before: App, code: KeyCode, after: App, r: SettingsKey) -> bool {
    if code == KeyCode::Enter {
        if before.logout_armed {
            &&& r == SettingsKey::Handled(Some(Cmd::Logout))
            &&& after.status@ == "Account · logging out…"@
            &&& after == (App { logout_armed: false, status: after.status, ..before })
        } else {
            &&& r == SettingsKey::Handled(None)
            &&& after.status@ == "Account · press Enter again to log out, or move away to cancel"@
            &&& after == (App { logout_armed: true, status: after.status, ..before })
        }
    } else if code == KeyCode::Esc {
        &&& r == SettingsKey::Handled(None)
        &&& after.status@ == "Account · logout cancelled"@
        &&& after == (App { logout_armed: false, status: after.status, ..before })
    } else {
        r is Unhandled && after == before
    }
}

/// The status line changed to `text` and nothing else did.
pub open spec fn only_status(before: App, text: Seq<char>, after: App) -> bool {
    after.status@ == text && after == (App { status: after.status, ..before })
}

/// What a key does on the Settings tab. With the menu focused, Up and Down
/// walk the pages (disarming a logout and asking for the new page's data)
/// and Enter or Right step into the page; inside a page, Esc or Left step
/// back to the menu unless a logout is armed, Up and Down scroll the page,
/// and the page's own keys act: `r` refreshes Usage and Context and `c` on
/// Usage opens Config; `j` and `k` walk Trace, Context and Appearance; the
/// feedback board and the Account page take their keys. Any other key is
/// not the tab's.
pub open spec fn settings_keyed(before: App, code: KeyCode, after: App, r: SettingsKey) -> bool {
    let m = before.menus;
    let n = m.settings_pages@.len();
    if !m.settings_focused && (code == KeyCode::Up || code == KeyCode::Down) {
        &&& after == (App {
            menus: Menus { settings_index: stepped_index(m.settings_index, n as usize, code == KeyCode::Up), ..m },
            logout_armed: false,
            ..before
        })
        &&& r == SettingsKey::Handled(entry_cmd(after.tab_spec(), after.settings_page_spec()))
    } else if !m.settings_focused && (code == KeyCode::Enter || code == KeyCode::Right) {
        r == SettingsKey::Handled(None) && only_status(
            App { menus: Menus { settings_focused: true, ..m }, ..before },
            "Settings · Esc to go back to the menu"@,
            after,
        )
    } else if m.settings_focused && (code == KeyCode::Esc || code == KeyCode::Left) {
        r == SettingsKey::Handled(None) && if before.logout_armed {
            after == before
        } else {
            only_status(App { menus: Menus { settings_focused: false, ..m }, ..before }, "Settings · menu"@, after)
        }
    } else {
        settings_page_keyed(before, code, after, r)
    }
}

/// What a key the Settings menu leaves to the page does: Up and Down scroll
/// the page, and the page's own keys act.
pub open spec fn settings_page_keyed(before: App, code: KeyCode, after: App, r: SettingsKey) -> bool {
    let m = before.menus;
    if code == KeyCode::Up || code == KeyCode::Down {
        content_scrolled(before, code == KeyCode::Up, after, r)
    } else {
        match before.settings_page_spec() {
            Some(SettingsPage::Usage) => if code == KeyCode::Char('r') {
                r == SettingsKey::Handled(Some(Cmd::LoadUsage)) && only_status(before, "Usage · refreshing…"@, after)
            } else if code == KeyCode::Char('c') && exists|i: int| first_page_at(m.settings_pages@, SettingsPage::Config, i) {
                exists|i: usize|
                    #[trigger] first_page_at(m.settings_pages@, SettingsPage::Config, i as int) && (r matches SettingsKey::Handled(c)
                        && subpage_set(before, i, after, c))
            } else {
                r is Unhandled && after == before
            },
            Some(SettingsPage::Feedback) => feedback_keyed(before, code, after, r),
            Some(SettingsPage::Trace) => if code == KeyCode::Char('k') {
                r == SettingsKey::Handled(None) && after == (App {
                    selected: if before.selected > 0 { (before.selected - 1) as usize } else { 0 },
                    ..before
                })
            } else if code == KeyCode::Char('j') {
                r == SettingsKey::Handled(None) && after == (App {
                    selected: if before.selected < usize::MAX { (before.selected + 1) as usize } else { usize::MAX },
                    ..before
                })
            } else {
                r is Unhandled && after == before
            },
            Some(SettingsPage::Context) => if code == KeyCode::Char('k') {
                r == SettingsKey::Handled(None) && after == (App {
                    menus: Menus {
                        context_index: if m.context_index > 0 { (m.context_index - 1) as usize } else { 0 },
                        ..m
                    },
                    ..before
                })
            } else if code == KeyCode::Char('j') {
                r == SettingsKey::Handled(None) && after == (App {
                    menus: Menus {
                        context_index: stepped_index(m.context_index, before.setup.contexts@.len() as usize, false),
                        ..m
                    },
                    ..before
                })
            } else if code == KeyCode::Char('r') {
                r == SettingsKey::Handled(Some(Cmd::InspectContext)) && only_status(
                    before,
                    "Context · refreshing…"@,
                    after,
                )
            } else {
                r is Unhandled && after == before
            },
            Some(SettingsPage::Account) => account_keyed(before, code, after, r),
            Some(SettingsPage::Appearance) => if code == KeyCode::Char('j') || code == KeyCode::Char('k') {
                r == SettingsKey::Handled(None) && after == (App {
                    menus: Menus {
                        appearance_index: stepped_index(
                            m.appearance_index,
                            before.setup.appearance_rows,
                            code == KeyCode::Char('k'),
                        ),
                        ..m
                    },
                    ..before
                })
            } else {
                r is Unhandled && after == before
            },
            _ => r is Unhandled && after == before,
        }
    }
}

/// The Settings tab shows page `index` (clamped) with the page itself
/// focused and any armed logout disarmed.
pub open spec fn subpage_entered(before: App, index: usize, after: App, r: Option<Cmd>) -> bool {
    exists|mid: App|
        #[trigger] subpage_set(before, index, mid, r) && after == (App {
            menus: Menus { settings_focused: true, ..mid.menus },
            ..mid
        })
}

} // verus!
