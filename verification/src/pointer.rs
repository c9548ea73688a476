//! Pointer input: wheel scrolling, click hit-testing against the map the last
//! frame recorded, drag selection, and the reports handed to an embedded
//! harness. A mouse event carries a position, so nearly everything here is
//! resolved by what is under it rather than by what has focus.
use vstd::prelude::*;

use crate::app::{AgentsFocus, App, Cmd, Menus, PaneView, SettingsPage, Tab};
use crate::harness::{attach_outcome, attaches, picker_opened, PickerStep};
use crate::keymap::{pointer_report, report_spec, KeyCode, KeyEvent, MouseButton, MouseEvent, MouseKind, Motion};
use crate::nav::{paged, target_view};
use crate::rail::{AgentRow, RailRow};

verus! {

/// Rows one wheel notch moves.
pub const SCROLL_ROWS: usize = 3;

/// A rectangle of terminal cells.
#[derive(Clone, Copy, Debug, PartialEq, Eq, Structural)]
pub struct Rect {
    pub x: u16,
    pub y: u16,
    pub width: u16,
    pub height: u16,
}

/// `a + b`, saturating at the largest cell coordinate.
pub open spec fn sat_add(a: u16, b: u16) -> u16 {
    if a + b > 0xffff {
        0xffff
    } else {
        (a + b) as u16
    }
}

/// `v` held inside `lo ..= hi`; a range with `hi < lo` (an empty pane) holds
/// only `lo`.
pub open spec fn clamp_cell(v: u16, lo: u16, hi: u16) -> u16 {
    if v < lo || hi < lo {
        lo
    } else if v > hi {
        hi
    } else {
        v
    }
}

impl Rect {
    /// One past the last column.
    pub open spec fn right_spec(self) -> u16 {
        sat_add(self.x, self.width)
    }

    /// One past the last row.
    pub open spec fn bottom_spec(self) -> u16 {
        sat_add(self.y, self.height)
    }

    /// Whether cell `(px, py)` lies inside.
    pub open spec fn contains_spec(self, px: u16, py: u16) -> bool {
        self.x <= px && px < self.right_spec() && self.y <= py && py < self.bottom_spec()
    }

    /// One past the last column.
    pub fn right(&self) -> (r: u16)
        ensures
            r == self.right_spec(),
    {
        self.x.saturating_add(self.width)
    }

    /// One past the last row.
    pub fn bottom(&self) -> (r: u16)
        ensures
            r == self.bottom_spec(),
    {
        self.y.saturating_add(self.height)
    }

    /// Whether cell `(px, py)` lies inside.
    pub fn contains(&self, px: u16, py: u16) -> (r: bool)
        ensures
            r == self.contains_spec(px, py),
    {
        px >= self.x && px < self.right() && py >= self.y && py < self.bottom()
    }
}

/// `v` held inside `lo ..= hi` (see [`clamp_cell`]).
pub fn clamp_to(v: u16, lo: u16, hi: u16) -> (r: u16)
    ensures
        r == clamp_cell(v, lo, hi),
{
    if v < lo || hi < lo {
        lo
    } else if v > hi {
        hi
    } else {
        v
    }
}

/// A pointer gesture a harness took with a press: the rest of it goes there.
pub struct Grab {
    pub session: String,
    pub button: MouseButton,
    pub rect: Rect,
}

/// Where the last frame drew what, and the drag in progress.
pub struct Pointer {
    /// The row of the tab bar, and each tab's first and last column.
    pub tabs_row: u16,
    pub tabs: Vec<(u16, u16)>,
    /// The subpage menu and its pages, top to bottom.
    pub nav_area: Rect,
    pub nav_pages: Vec<Rect>,
    /// The rail, and for each drawn line the rail row it belongs to.
    pub agents: Option<(Rect, Vec<usize>)>,
    /// The embedded terminal, and the session it shows.
    pub session: Option<(Rect, String)>,
    /// The Context list.
    pub context: Option<Rect>,
    /// The hand-back question's answers.
    pub handback: Vec<(Rect, KeyCode)>,
    /// The session picker's box and its rows, each with the entry it shows.
    pub picker: Option<(Rect, Vec<(Rect, usize)>)>,
    /// The panes a drag selection is held inside, and the whole screen.
    pub panes: Vec<Rect>,
    pub screen: Rect,
    pub grab: Option<Grab>,
    pub drag_anchor: Option<(u16, u16)>,
    pub selection: Option<(u16, u16, u16, u16)>,
    pub copy_selection: bool,
}

/// The empty rectangle at the origin.
pub fn empty_rect() -> (r: Rect)
    ensures
        r == (Rect { x: 0, y: 0, width: 0, height: 0 }),
{
    Rect { x: 0, y: 0, width: 0, height: 0 }
}

impl Pointer {
    /// Nothing drawn yet and no drag.
    pub fn new() -> (r: Pointer)
        ensures
            r.tabs@.len() == 0,
            r.nav_pages@.len() == 0,
            r.agents is None,
            r.session is None,
            r.context is None,
            r.handback@.len() == 0,
            r.picker is None,
            r.panes@.len() == 0,
            r.grab is None,
            r.drag_anchor is None,
            r.selection is None,
            !r.copy_selection,
    {
        Pointer {
            tabs_row: 0,
            tabs: Vec::new(),
            nav_area: empty_rect(),
            nav_pages: Vec::new(),
            agents: None,
            session: None,
            context: None,
            handback: Vec::new(),
            picker: None,
            panes: Vec::new(),
            screen: empty_rect(),
            grab: None,
            drag_anchor: None,
            selection: None,
            copy_selection: false,
        }
    }
}

/// The index of the first element of `s` that satisfies `p`.
pub open spec fn first_where<A>(s: Seq<A>, p: spec_fn(A) -> bool) -> Option<int>
    decreases s.len(),
{
    if s.len() == 0 {
        None
    } else {
        match first_where(s.drop_last(), p) {
            Some(i) => Some(i),
            None => if p(s.last()) {
                Some(s.len() - 1)
            } else {
                None
            },
        }
    }
}

/// An index as a `usize`.
pub open spec fn as_index(o: Option<int>) -> Option<usize> {
    match o {
        Some(i) => Some(i as usize),
        None => None,
    }
}

/// Whether span `(start, end)` holds column `x`.
pub open spec fn in_span(x: u16) -> spec_fn((u16, u16)) -> bool {
    |s: (u16, u16)| s.0 <= x && x <= s.1
}

/// Whether a rectangle holds `(x, y)`.
pub open spec fn in_rect(x: u16, y: u16) -> spec_fn(Rect) -> bool {
    |r: Rect| r.contains_spec(x, y)
}

/// Whether an answer's rectangle holds `(x, y)`.
pub open spec fn in_answer(x: u16, y: u16) -> spec_fn((Rect, KeyCode)) -> bool {
    |a: (Rect, KeyCode)| a.0.contains_spec(x, y)
}

/// Whether a picker row's rectangle holds `(x, y)`.
pub open spec fn in_row(x: u16, y: u16) -> spec_fn((Rect, usize)) -> bool {
    |a: (Rect, usize)| a.0.contains_spec(x, y)
}

proof fn lemma_first_where_bound<A>(s: Seq<A>, p: spec_fn(A) -> bool)
    ensures
        first_where(s, p) matches Some(i) ==> 0 <= i < s.len() && p(s[i]),
    decreases s.len(),
{
    if s.len() > 0 {
        lemma_first_where_bound(s.drop_last(), p);
    }
}

/// `first_where` finds the least index whose element satisfies `p`, and
/// none when no element does.
proof fn lemma_first_where_least<A>(s: Seq<A>, p: spec_fn(A) -> bool)
    ensures
        match first_where(s, p) {
            Some(i) => 0 <= i < s.len() && p(s[i]) && forall|j: int| 0 <= j < i ==> !p(#[trigger] s[j]),
            None => forall|j: int| 0 <= j < s.len() ==> !p(#[trigger] s[j]),
        },
    decreases s.len(),
{
    if s.len() > 0 {
        let d = s.drop_last();
        lemma_first_where_least(d, p);
        match first_where(d, p) {
            Some(i) => {
                assert(s[i] == d[i]);
                assert forall|j: int| 0 <= j < i implies !p(#[trigger] s[j]) by {
                    assert(s[j] == d[j]);
                }
            },
            None => {
                assert forall|j: int| 0 <= j < s.len() - 1 implies !p(#[trigger] s[j]) by {
                    assert(s[j] == d[j]);
                }
            },
        }
    }
}

/// A click on the tab bar picks the leftmost tab whose span holds the
/// clicked column, and no tab when none does.
pub proof fn law_tab_bar_click_picks_leftmost(app: App, x: u16)
    requires
        app.pointer.tabs@.len() <= usize::MAX,
    ensures
        match app.click_spec(x, app.pointer.tabs_row) {
            Click::TabBar(Some(i)) => {
                let t = app.pointer.tabs@;
                &&& i < t.len()
                &&& t[i as int].0 <= x <= t[i as int].1
                &&& forall|j: int| 0 <= j < i ==> !(t[j].0 <= x && x <= t[j].1)
            },
            Click::TabBar(None) => forall|j: int|
                0 <= j < app.pointer.tabs@.len() ==> !(app.pointer.tabs@[j].0 <= x && x <= app.pointer.tabs@[j].1),
            _ => false,
        },
{
    let t = app.pointer.tabs@;
    lemma_first_where_least(t, in_span(x));
    match first_where(t, in_span(x)) {
        Some(i) => {
            assert forall|j: int| 0 <= j < i implies !(t[j].0 <= x && x <= t[j].1) by {
                assert(!in_span(x)(t[j]));
            }
        },
        None => {
            assert forall|j: int| 0 <= j < t.len() implies !(t[j].0 <= x && x <= t[j].1) by {
                assert(!in_span(x)(t[j]));
            }
        },
    }
}

proof fn lemma_first_where_step<A>(s: Seq<A>, p: spec_fn(A) -> bool, i: int)
    requires
        0 <= i < s.len(),
        first_where(s.take(i), p) is None,
    ensures
        first_where(s.take(i + 1), p) == (if p(s[i]) {
            Some(i)
        } else {
            None::<int>
        }),
{
    assert(s.take(i + 1).drop_last() =~= s.take(i));
}

proof fn lemma_first_where_prefix<A>(s: Seq<A>, p: spec_fn(A) -> bool, k: int)
    requires
        0 <= k <= s.len(),
        first_where(s.take(k), p) is Some,
    ensures
        first_where(s, p) == first_where(s.take(k), p),
    decreases s.len(),
{
    if k == s.len() {
        assert(s.take(k) =~= s);
    } else {
        assert(s.drop_last().take(k) =~= s.take(k));
        lemma_first_where_prefix(s.drop_last(), p, k);
    }
}

/// The first span holding column `x`.
pub fn span_at(spans: &Vec<(u16, u16)>, x: u16) -> (r: Option<usize>)
    ensures
        r matches Some(i) ==> i < spans@.len(),
        r == as_index(first_where(spans@, in_span(x))),
{
    let mut i: usize = 0;
    while i < spans.len()
        invariant
            i <= spans@.len(),
            first_where(spans@.take(i as int), in_span(x)) is None,
        decreases spans.len() - i,
    {
        proof {
            lemma_first_where_step(spans@, in_span(x), i as int);
        }
        if spans[i].0 <= x && x <= spans[i].1 {
            proof {
                lemma_first_where_prefix(spans@, in_span(x), i + 1);
            }
            return Some(i);
        }
        i = i + 1;
    }
    proof {
        assert(spans@.take(i as int) =~= spans@);
    }
    None
}

/// The first rectangle holding `(x, y)`.
pub fn rect_at(rects: &Vec<Rect>, x: u16, y: u16) -> (r: Option<usize>)
    ensures
        r matches Some(i) ==> i < rects@.len(),
        r == as_index(first_where(rects@, in_rect(x, y))),
{
    let mut i: usize = 0;
    while i < rects.len()
        invariant
            i <= rects@.len(),
            first_where(rects@.take(i as int), in_rect(x, y)) is None,
        decreases rects.len() - i,
    {
        proof {
            lemma_first_where_step(rects@, in_rect(x, y), i as int);
        }
        if rects[i].contains(x, y) {
            proof {
                lemma_first_where_prefix(rects@, in_rect(x, y), i + 1);
            }
            return Some(i);
        }
        i = i + 1;
    }
    proof {
        assert(rects@.take(i as int) =~= rects@);
    }
    None
}

/// The first answer whose rectangle holds `(x, y)`.
pub fn answer_at(answers: &Vec<(Rect, KeyCode)>, x: u16, y: u16) -> (r: Option<usize>)
    ensures
        r matches Some(i) ==> i < answers@.len(),
        r == as_index(first_where(answers@, in_answer(x, y))),
{
    let mut i: usize = 0;
    while i < answers.len()
        invariant
            i <= answers@.len(),
            first_where(answers@.take(i as int), in_answer(x, y)) is None,
        decreases answers.len() - i,
    {
        proof {
            lemma_first_where_step(answers@, in_answer(x, y), i as int);
        }
        if answers[i].0.contains(x, y) {
            proof {
                lemma_first_where_prefix(answers@, in_answer(x, y), i + 1);
            }
            return Some(i);
        }
        i = i + 1;
    }
    proof {
        assert(answers@.take(i as int) =~= answers@);
    }
    None
}

/// The first picker row whose rectangle holds `(x, y)`.
pub fn picker_row_at(rows: &Vec<(Rect, usize)>, x: u16, y: u16) -> (r: Option<usize>)
    ensures
        r matches Some(i) ==> i < rows@.len(),
        r == as_index(first_where(rows@, in_row(x, y))),
{
    let mut i: usize = 0;
    while i < rows.len()
        invariant
            i <= rows@.len(),
            first_where(rows@.take(i as int), in_row(x, y)) is None,
        decreases rows.len() - i,
    {
        proof {
            lemma_first_where_step(rows@, in_row(x, y), i as int);
        }
        if rows[i].0.contains(x, y) {
            proof {
                lemma_first_where_prefix(rows@, in_row(x, y), i + 1);
            }
            return Some(i);
        }
        i = i + 1;
    }
    proof {
        assert(rows@.take(i as int) =~= rows@);
    }
    None
}

/// What a click at a cell lands on, read from the map the last frame drew.
#[derive(Clone, Copy, Debug, PartialEq, Eq, Structural)]
pub enum Click {
    /// The tab bar, and the tab under the click if any.
    TabBar(Option<usize>),
    /// A page of the subpage menu.
    NavPage(usize),
    /// A selectable rail row, by its index.
    Rail(usize),
    /// The embedded terminal showing the rail's session, which the keyboard
    /// is not in yet.
    Pane,
    /// A row of the Context list.
    ContextRow(usize),
    /// Nothing that answers a click.
    Nothing,
}

/// The pointer after a watch retarget: the stream follows what the cursor is
/// on, and a command goes out only when that changed.
pub open spec fn retargeted(w0: Option<(String, String)>, after: App, r: Option<Cmd>) -> bool {
    &&& target_view(after.watching) == after.watch_target_spec()
    &&& target_view(w0) == after.watch_target_spec() ==> r is None && after.watching == w0
    &&& target_view(w0) != after.watch_target_spec() ==> (r matches Some(Cmd::WatchTask { stop, start })
        && target_view(stop) == target_view(w0) && target_view(start) == after.watch_target_spec())
}

/// `s` as plain text.
pub open spec fn text_of(s: Option<String>) -> Option<Seq<char>> {
    match s {
        Some(t) => Some(t@),
        None => None,
    }
}

/// Clicking the action row with the cursor already on it (`at`): the picker
/// opens as `Ctrl-T` opens it, and the watch follows the cursor.
pub open spec fn new_harness_clicked(at: App, after: App, r: Option<Cmd>) -> bool {
    let mid = App { watching: at.watching, ..after };
    &&& at.harnesses is None ==> mid == App { status: mid.status, ..at } && mid.status@
        == "This device is not hosting, so it has no harnesses to start"@
    &&& at.harnesses is Some ==> picker_opened(at, mid)
    &&& retargeted(at.watching, after, r)
}

/// Clicking an overflow row with the cursor already on it (`at`): the lane
/// pages, and the watch follows the cursor.
pub open spec fn overflow_clicked(at: App, after: App, r: Option<Cmd>) -> bool {
    paged(at, App { watching: at.watching, ..after }) && retargeted(at.watching, after, r)
}

/// Clicking the row of harness `s` from `at`: when the keyboard is already in
/// it, only the pane follows; otherwise the pane shows it, the keyboard is
/// asked for as Enter asks for it, and the watch follows the cursor.
pub open spec fn harness_clicked(at: App, s: Seq<char>, after: App, r: Option<Cmd>) -> bool {
    if text_of(at.attached) == Some(s) {
        r is None && text_of(after.pane_session) == Some(s) && after == App {
            pane_session: after.pane_session,
            ..at
        }
    } else {
        let mid = App { watching: at.watching, ..after };
        &&& text_of(mid.pane_session) == Some(s)
        &&& mid.pane_view == PaneView::Harness
        &&& mid.status@ == attach_outcome(at.session_spec(s))
        &&& mid.attached == (if attaches(at.session_spec(s)) {
            mid.pane_session
        } else {
            at.attached
        })
        &&& mid == App {
            pane_session: mid.pane_session,
            pane_view: PaneView::Harness,
            attached: mid.attached,
            status: mid.status,
            ..at
        }
        &&& retargeted(at.watching, after, r)
    }
}

impl App {
    /// The rail row whose drawn line is under `(x, y)`.
    pub open spec fn rail_line_spec(&self, x: u16, y: u16) -> Option<usize> {
        match self.pointer.agents {
            Some((rect, owners)) => if rect.contains_spec(x, y) && y - rect.y < owners@.len() {
                Some(owners@[y - rect.y])
            } else {
                None
            },
            None => None,
        }
    }

    /// The rail row whose drawn line is under `(x, y)`.
    pub fn rail_line_at(&self, x: u16, y: u16) -> (r: Option<usize>)
        ensures
            r == self.rail_line_spec(x, y),
    {
        match &self.pointer.agents {
            Some((rect, owners)) => {
                if rect.contains(x, y) && ((y - rect.y) as usize) < owners.len() {
                    Some(owners[(y - rect.y) as usize])
                } else {
                    None
                }
            },
            None => None,
        }
    }

    /// The session of the harness rail row `idx` stands for.
    pub open spec fn row_session_spec(&self, idx: usize) -> Option<String> {
        if idx < self.rail().len() {
            match self.rail()[idx as int] {
                RailRow::Harness(i) => match self.harnesses {
                    Some(h) => if i < h@.len() {
                        Some(h@[i as int].id)
                    } else {
                        None
                    },
                    None => None,
                },
                _ => None,
            }
        } else {
            None
        }
    }

    /// The session of the harness rail row `idx` stands for.
    pub fn row_session(&self, rows: &Vec<RailRow>, idx: usize) -> (r: Option<String>)
        requires
            rows@ == self.rail(),
        ensures
            text_of(r) == text_of(self.row_session_spec(idx)),
    {
        if idx >= rows.len() {
            return None;
        }
        match &rows[idx] {
            RailRow::Harness(i) => match &self.harnesses {
                Some(h) => {
                    if *i < h.len() {
                        Some(h[*i].id.clone())
                    } else {
                        None
                    }
                },
                None => None,
            },
            _ => None,
        }
    }

    /// The harness session whose rail line is under `(x, y)`.
    pub fn rail_session_at(&self, x: u16, y: u16) -> (r: Option<String>)
        ensures
            text_of(r) == match self.rail_line_spec(x, y) {
                Some(idx) => text_of(self.row_session_spec(idx)),
                None => None,
            },
    {
        match self.rail_line_at(x, y) {
            Some(idx) => {
                let rows = self.rail_rows();
                self.row_session(&rows, idx)
            },
            None => None,
        }
    }

    /// What a click at `(x, y)` lands on.
    pub open spec fn click_spec(&self, x: u16, y: u16) -> Click {
        if y == self.pointer.tabs_row {
            Click::TabBar(as_index(first_where(self.pointer.tabs@, in_span(x))))
        } else if first_where(self.pointer.nav_pages@, in_rect(x, y)) is Some {
            Click::NavPage(first_where(self.pointer.nav_pages@, in_rect(x, y))->0 as usize)
        } else if self.tab_spec() == Some(Tab::Sessions) {
            match self.rail_line_spec(x, y) {
                Some(idx) => if idx < self.rail().len() && self.rail()[idx as int].selectable_spec() {
                    Click::Rail(idx)
                } else {
                    self.pane_click_spec(x, y)
                },
                None => self.pane_click_spec(x, y),
            }
        } else if self.tab_spec() == Some(Tab::Settings) && self.settings_page_spec() == Some(
            SettingsPage::Context,
        ) {
            match self.pointer.context {
                Some(rect) => if rect.contains_spec(x, y) && y - rect.y < self.setup.contexts@.len() {
                    Click::ContextRow((y - rect.y) as usize)
                } else {
                    Click::Nothing
                },
                None => Click::Nothing,
            }
        } else {
            Click::Nothing
        }
    }

    /// Whether a click at `(x, y)` is inside the embedded terminal showing the
    /// rail's session while the keyboard is elsewhere.
    pub open spec fn pane_click_spec(&self, x: u16, y: u16) -> Click {
        match self.pointer.session {
            Some((rect, s)) => if rect.contains_spec(x, y) && text_of(self.pane_session) == Some(s@)
                && text_of(self.attached) != Some(s@) {
                Click::Pane
            } else {
                Click::Nothing
            },
            None => Click::Nothing,
        }
    }

    /// What clicking selectable rail row `idx` does, from `before` to `after`
    /// returning `r`.
    pub open spec fn rail_clicked(before: App, idx: usize, after: App, r: Option<Cmd>) -> bool {
        let at = App { agent_index: idx, agent_scroll: 0, agents_focus: AgentsFocus::Rail, ..before };
        match before.rail()[idx as int] {
            RailRow::NewHarness => new_harness_clicked(at, after, r),
            RailRow::Agent(AgentRow::More { .. }) => overflow_clicked(at, after, r),
            _ => match before.row_session_spec(idx) {
                Some(s) => harness_clicked(at, s@, after, r),
                None => App { watching: at.watching, ..after } == at && retargeted(at.watching, after, r),
            },
        }
    }

    /// The subpage-menu page under `(x, y)`.
    pub fn nav_page_at(&self, x: u16, y: u16) -> (r: Option<usize>)
        ensures
            r == as_index(first_where(self.pointer.nav_pages@, in_rect(x, y))),
    {
        rect_at(&self.pointer.nav_pages, x, y)
    }

    /// A click on the tab bar switches to the tab under it.
    fn click_tab_bar(&mut self, x: u16) -> (r: Option<Cmd>)
        ensures
            match as_index(first_where(old(self).pointer.tabs@, in_span(x))) {
                Some(i) => *final(self) == (App { tab_index: i, selected: 0, ..*old(self) }) && r
                    == crate::settings::entry_cmd(final(self).tab_spec(), final(self).settings_page_spec()),
                None => r is None && *final(self) == *old(self),
            },
    {
        match span_at(&self.pointer.tabs, x) {
            Some(i) => {
                self.tab_index = i;
                self.selected = 0;
                self.tab_enter_cmd()
            },
            None => None,
        }
    }

    /// A click on a subpage-menu page selects it and takes focus.
    fn click_nav_page(&mut self, page: usize)
        ensures
            match old(self).tab_spec() {
                Some(Tab::Settings) => *final(self) == (App {
                    menus: Menus { settings_index: page, settings_focused: true, ..old(self).menus },
                    ..*old(self)
                }),
                Some(Tab::Hosts) => *final(self) == (App {
                    menus: Menus { routing_index: page, routing_focused: true, ..old(self).menus },
                    ..*old(self)
                }),
                _ => *final(self) == *old(self),
            },
    {
        match self.tab() {
            Some(Tab::Settings) => {
                self.menus.settings_index = page;
                self.menus.settings_focused = true;
            },
            Some(Tab::Hosts) => {
                self.menus.routing_index = page;
                self.menus.routing_focused = true;
            },
            _ => {},
        }
    }

    /// A click on a harness row: into the pane, asking to type there unless the
    /// keyboard already is.
    fn click_harness_row(&mut self, session: String) -> (r: Option<Cmd>)
        ensures
            harness_clicked(*old(self), session@, *final(self), r),
    {
        let held = match &self.attached {
            Some(a) => *a == session,
            None => false,
        };
        if held {
            self.pane_session = Some(session);
            return None;
        }
        self.pane_session = Some(session);
        self.attach_to_pane_session();
        self.retarget_watch()
    }

    /// A click on selectable rail row `idx` moves the cursor there and acts on
    /// the row: the action row opens the picker, an overflow row pages, a
    /// harness row opens its pane, and a task row is watched.
    fn click_rail_row(&mut self, idx: usize) -> (r: Option<Cmd>)
        requires
            idx < old(self).rail().len(),
        ensures
            App::rail_clicked(*old(self), idx, *final(self), r),
    {
        let rows = self.rail_rows();
        let session = self.row_session(&rows, idx);
        self.point_rail_at(idx);
        match &rows[idx] {
            RailRow::NewHarness => self.click_new_harness_row(),
            RailRow::Agent(AgentRow::More { .. }) => self.click_overflow_row(),
            _ => match session {
                Some(s) => self.click_harness_row(s),
                None => self.retarget_watch(),
            },
        }
    }

    /// Put the rail cursor on row `idx`, with the rail holding the keyboard.
    fn point_rail_at(&mut self, idx: usize)
        ensures
            *final(self) == (App {
                agent_index: idx,
                agent_scroll: 0,
                agents_focus: AgentsFocus::Rail,
                ..*old(self)
            }),
    {
        self.agent_index = idx;
        self.agent_scroll = 0;
        self.agents_focus = AgentsFocus::Rail;
    }

    /// Clicking the action row under the cursor.
    fn click_new_harness_row(&mut self) -> (r: Option<Cmd>)
        ensures
            new_harness_clicked(*old(self), *final(self), r),
    {
        self.open_session_picker();
        self.retarget_watch()
    }

    /// Clicking the overflow row under the cursor.
    fn click_overflow_row(&mut self) -> (r: Option<Cmd>)
        requires
            old(self).cursor_row() matches Some(RailRow::Agent(AgentRow::More { .. })),
        ensures
            overflow_clicked(*old(self), *final(self), r),
    {
        self.page_subtasks();
        self.retarget_watch()
    }

    /// A click inside the embedded terminal asks to type there, the same
    /// entry point Enter on its row uses.
    fn click_pane(&mut self, x: u16, y: u16)
        ensures
            old(self).pane_click_spec(x, y) == Click::Pane ==> crate::harness::pane_attached(*old(self), *final(self)),
            old(self).pane_click_spec(x, y) != Click::Pane ==> *final(self) == *old(self),
    {
        let hit = match &self.pointer.session {
            Some((rect, s)) => {
                let shown = match &self.pane_session {
                    Some(p) => *p == *s,
                    None => false,
                };
                let held = match &self.attached {
                    Some(a) => *a == *s,
                    None => false,
                };
                rect.contains(x, y) && shown && !held
            },
            None => false,
        };
        if hit {
            self.attach_to_pane_session();
        }
    }

    /// A click below the tab bar and off the subpage menu.
    fn click_body(&mut self, x: u16, y: u16) -> (r: Option<Cmd>)
        requires
            y != old(self).pointer.tabs_row,
            first_where(old(self).pointer.nav_pages@, in_rect(x, y)) is None,
        ensures
            final(self).tabs == old(self).tabs,
            final(self).pointer == old(self).pointer,
            match old(self).click_spec(x, y) {
                Click::Rail(idx) => App::rail_clicked(*old(self), idx, *final(self), r),
                Click::Pane => r is None && crate::harness::pane_attached(*old(self), *final(self)),
                Click::ContextRow(k) => r is None && *final(self) == (App {
                    menus: Menus { context_index: k, ..old(self).menus },
                    ..*old(self)
                }),
                _ => r is None && *final(self) == *old(self),
            },
    {
        let tab = self.tab();
        if tab == Some(Tab::Sessions) {
            match self.rail_line_at(x, y) {
                Some(idx) => {
                    let rows = self.rail_rows();
                    if idx < rows.len() && rows[idx].selectable() {
                        return self.click_rail_row(idx);
                    }
                },
                None => {},
            }
            self.click_pane(x, y);
            return None;
        }
        if tab == Some(Tab::Settings) && self.settings_page() == Some(SettingsPage::Context) {
            match self.pointer.context {
                Some(rect) => {
                    if rect.contains(x, y) && ((y - rect.y) as usize) < self.setup.contexts.len() {
                        self.menus.context_index = (y - rect.y) as usize;
                    }
                },
                None => {},
            }
        }
        None
    }

    /// Resolve a left click at `(x, y)`: a tab switch, a subpage, a rail row,
    /// the embedded terminal, or a Context row.
    #[verifier::rlimit(60)]
    #[verifier::spinoff_prover]
    pub fn handle_click(&mut self, x: u16, y: u16) -> (r: Option<Cmd>)
        ensures
            click_outcome(*old(self), x, y, *final(self), r),
            final(self).tabs == old(self).tabs,
            final(self).pointer == old(self).pointer,
            match old(self).click_spec(x, y) {
                Click::TabBar(Some(i)) => *final(self) == (App { tab_index: i, selected: 0, ..*old(self) })
                    && r == crate::settings::entry_cmd(final(self).tab_spec(), final(self).settings_page_spec()),
                Click::TabBar(None) => r is None && *final(self) == *old(self),
                Click::NavPage(p) => r is None && match old(self).tab_spec() {
                    Some(Tab::Settings) => *final(self) == (App {
                        menus: Menus { settings_index: p, settings_focused: true, ..old(self).menus },
                        ..*old(self)
                    }),
                    Some(Tab::Hosts) => *final(self) == (App {
                        menus: Menus { routing_index: p, routing_focused: true, ..old(self).menus },
                        ..*old(self)
                    }),
                    _ => *final(self) == *old(self),
                },
                Click::Rail(idx) => App::rail_clicked(*old(self), idx, *final(self), r),
                Click::Pane => r is None && crate::harness::pane_attached(*old(self), *final(self)),
                Click::ContextRow(k) => r is None && *final(self) == (App {
                    menus: Menus { context_index: k, ..old(self).menus },
                    ..*old(self)
                }),
                Click::Nothing => r is None && *final(self) == *old(self),
            },
    {
        if y == self.pointer.tabs_row {
            return self.click_tab_bar(x);
        }
        match self.nav_page_at(x, y) {
            Some(page) => {
                self.click_nav_page(page);
                return None;
            },
            None => {},
        }
        self.click_body(x, y)
    }
}

/// The pane a drag that began at `(x, y)` is held inside: the first pane
/// holding the anchor, else the whole screen.
pub open spec fn pane_spec(p: Pointer, x: u16, y: u16) -> Rect {
    match first_where(p.panes@, in_rect(x, y)) {
        Some(i) => p.panes@[i],
        None => p.screen,
    }
}

/// `v` held inside a pane's columns.
pub open spec fn clamp_col(pane: Rect, v: u16) -> u16 {
    clamp_cell(v, pane.x, if pane.right_spec() == 0 { 0 } else { (pane.right_spec() - 1) as u16 })
}

/// `v` held inside a pane's rows.
pub open spec fn clamp_row(pane: Rect, v: u16) -> u16 {
    clamp_cell(v, pane.y, if pane.bottom_spec() == 0 { 0 } else { (pane.bottom_spec() - 1) as u16 })
}

/// The smaller of two cells.
pub open spec fn lo(a: u16, b: u16) -> u16 {
    if a <= b {
        a
    } else {
        b
    }
}

/// The larger of two cells.
pub open spec fn hi(a: u16, b: u16) -> u16 {
    if a <= b {
        b
    } else {
        a
    }
}

/// The selection block from anchor `(ax, ay)` to `(x, y)`, normalised so a
/// drag up or leftwards selects what the reverse drag selects, and held inside
/// the anchor's pane.
pub open spec fn block(p: Pointer, ax: u16, ay: u16, x: u16, y: u16) -> (u16, u16, u16, u16) {
    let pane = pane_spec(p, ax, ay);
    let cx = clamp_col(pane, x);
    let cy = clamp_row(pane, y);
    (lo(ax, cx), lo(ay, cy), hi(ax, cx), hi(ay, cy))
}

impl App {
    /// Scroll the conversation beside the rail by `rows`: up reads further
    /// back.
    pub fn scroll_transcript(&mut self, up: bool, rows: usize)
        ensures
            transcript_scrolled(*old(self), up, rows, *final(self)),
            *final(self) == (App {
                agent_scroll: if up {
                    if old(self).agent_scroll + rows > usize::MAX {
                        usize::MAX
                    } else {
                        (old(self).agent_scroll + rows) as usize
                    }
                } else if old(self).agent_scroll < rows {
                    0
                } else {
                    (old(self).agent_scroll - rows) as usize
                },
                ..*old(self)
            }),
    {
        self.agent_scroll = if up {
            self.agent_scroll.saturating_add(rows)
        } else {
            self.agent_scroll.saturating_sub(rows)
        };
    }

    /// Scroll the Settings page under the wheel: Trace by three rows, Context
    /// by one entry.
    fn scroll_settings_page(&mut self, up: bool)
        ensures
            settings_page_scrolled(*old(self), up, *final(self)),
            match old(self).settings_page_spec() {
                Some(SettingsPage::Trace) => *final(self) == (App {
                    selected: if up {
                        if old(self).selected < 3 {
                            0
                        } else {
                            (old(self).selected - 3) as usize
                        }
                    } else if old(self).selected + 3 > usize::MAX {
                        usize::MAX
                    } else {
                        (old(self).selected + 3) as usize
                    },
                    ..*old(self)
                }),
                Some(SettingsPage::Context) => *final(self) == (App {
                    menus: Menus {
                        context_index: crate::settings::stepped_index(
                            old(self).menus.context_index,
                            old(self).setup.contexts@.len() as usize,
                            up,
                        ),
                        ..old(self).menus
                    },
                    ..*old(self)
                }),
                _ => *final(self) == *old(self),
            },
    {
        match self.settings_page() {
            Some(SettingsPage::Trace) => {
                self.selected = if up {
                    self.selected.saturating_sub(3)
                } else {
                    self.selected.saturating_add(3)
                };
            },
            Some(SettingsPage::Context) => {
                self.menus.context_index = crate::settings::step_index(self.menus.context_index, self.setup.contexts.len(), up);
            },
            _ => {},
        }
    }

    /// Scroll whatever the pointer is over, rather than whatever has focus:
    /// the embedded terminal first, then the subpage menu, then the rail or
    /// the conversation beside it, then the Settings page. Focus stays where
    /// it was.
    #[verifier::rlimit(60)]
    #[verifier::spinoff_prover]
    pub fn scroll_at(&mut self, x: u16, y: u16, up: bool)
        ensures
            scrolled_at(*old(self), x, y, up, *final(self)),
            final(self).tabs == old(self).tabs,
            match old(self).pointer.session {
                Some((rect, s)) => rect.contains_spec(x, y) ==> if old(self).harnesses is Some {
                    final(self).pending@ == old(self).pending@.push(
                        Cmd::ScrollHarness {
                            session: s,
                            col: (x - rect.x) as u16,
                            row: (y - rect.y) as u16,
                            up,
                            rows: SCROLL_ROWS,
                        },
                    ) && *final(self) == (App { pending: final(self).pending, ..*old(self) })
                } else {
                    *final(self) == *old(self)
                },
                None => true,
            },
            !(old(self).pointer.session matches Some((rect, _)) && rect.contains_spec(x, y))
                && old(self).pointer.nav_area.contains_spec(x, y) && old(self).tab_spec() == Some(Tab::Sessions)
                ==> *final(self) == *old(self),
            !(old(self).pointer.session matches Some((rect, _)) && rect.contains_spec(x, y))
                && !old(self).pointer.nav_area.contains_spec(x, y) && old(self).tab_spec() == Some(Tab::Sessions)
                && !(old(self).pointer.agents matches Some((rail, _)) && rail.contains_spec(x, y)) ==> *final(self)
                == (App { agent_scroll: final(self).agent_scroll, ..*old(self) }),
    {
        let over_pane = match &self.pointer.session {
            Some((rect, _)) => rect.contains(x, y),
            None => false,
        };
        if over_pane {
            self.scroll_pane(x, y, up);
            return;
        }
        if self.pointer.nav_area.contains(x, y) {
            self.scroll_subpage(up);
            return;
        }
        let tab = self.tab();
        if tab == Some(Tab::Sessions) {
            let over_rail = match &self.pointer.agents {
                Some((rail, _)) => rail.contains(x, y),
                None => false,
            };
            if over_rail {
                self.move_rail_index(up);
            } else {
                self.scroll_transcript(up, 3);
            }
        } else if tab == Some(Tab::Settings) {
            self.scroll_settings_page(up);
        }
    }

    /// Hand a wheel notch over the embedded terminal to its harness, relative
    /// to the pane.
    fn scroll_pane(&mut self, x: u16, y: u16, up: bool)
        requires
            old(self).pointer.session matches Some((rect, _)) && rect.contains_spec(x, y),
        ensures
            match old(self).pointer.session {
                Some((rect, s)) => if old(self).harnesses is Some {
                    final(self).pending@ == old(self).pending@.push(
                        Cmd::ScrollHarness {
                            session: s,
                            col: (x - rect.x) as u16,
                            row: (y - rect.y) as u16,
                            up,
                            rows: SCROLL_ROWS,
                        },
                    ) && *final(self) == (App { pending: final(self).pending, ..*old(self) })
                } else {
                    *final(self) == *old(self)
                },
                None => true,
            },
    {
        if self.harnesses.is_none() {
            return;
        }
        match &self.pointer.session {
            Some((rect, s)) => {
                let cmd = Cmd::ScrollHarness {
                    session: s.clone(),
                    col: x - rect.x,
                    row: y - rect.y,
                    up,
                    rows: SCROLL_ROWS,
                };
                self.pending.push(cmd);
            },
            None => {},
        }
    }

    /// The pane a drag anchored at `(x, y)` is held inside.
    pub fn pane_at(&self, x: u16, y: u16) -> (r: Rect)
        ensures
            r == pane_spec(self.pointer, x, y),
    {
        proof {
            lemma_first_where_bound(self.pointer.panes@, in_rect(x, y));
        }
        match rect_at(&self.pointer.panes, x, y) {
            Some(i) => {
                let ghost fw = first_where(self.pointer.panes@, in_rect(x, y));
                assert(fw is Some);
                assert(0 <= fw->0 < self.pointer.panes@.len());
                assert(self.pointer.panes@.len() == self.pointer.panes.len());
                assert(i as int == fw->0);
                self.pointer.panes[i]
            },
            None => self.pointer.screen,
        }
    }

    /// Grow the selection block from the drag anchor to `(x, y)`.
    pub fn extend_selection(&mut self, x: u16, y: u16)
        ensures
            match old(self).pointer.drag_anchor {
                Some((ax, ay)) => final(self).pointer.selection == Some(block(old(self).pointer, ax, ay, x, y)),
                None => *final(self) == *old(self),
            },
            final(self).pointer == (Pointer { selection: final(self).pointer.selection, ..old(self).pointer }),
            *final(self) == (App { pointer: final(self).pointer, ..*old(self) }),
    {
        match self.pointer.drag_anchor {
            Some((ax, ay)) => {
                let pane = self.pane_at(ax, ay);
                let right = pane.right();
                let bottom = pane.bottom();
                let cx = clamp_to(x, pane.x, right.saturating_sub(1));
                let cy = clamp_to(y, pane.y, bottom.saturating_sub(1));
                let x0 = if ax <= cx { ax } else { cx };
                let y0 = if ay <= cy { ay } else { cy };
                let x1 = if ax <= cx { cx } else { ax };
                let y1 = if ay <= cy { cy } else { ay };
                self.pointer.selection = Some((x0, y0, x1, y1));
            },
            None => {},
        }
    }
}

/// Whether `c` is the mouse report `(col, row, button, motion)` for session `s`.
pub open spec fn is_report(c: Cmd, s: Seq<char>, col: int, row: int, button: MouseButton, motion: Motion) -> bool {
    c matches Cmd::MouseToHarness { session, col: c1, row: r1, button: b1, motion: m1 } && session@ == s && c1
        == col && r1 == row && b1 == button && m1 == motion
}

/// `after` holds `before`'s commands and one more, satisfying `p`.
pub open spec fn pushed_one(before: Seq<Cmd>, after: Seq<Cmd>) -> bool {
    after.len() == before.len() + 1 && after.drop_last() == before
}

/// Whether any overlay that owns the pointer is up.
pub open spec fn pointer_modal_spec(a: App) -> bool {
    a.handback_prompt is Some || a.prompt is Some || a.session_picker is Some || a.resume_picker is Some
        || a.kill_armed is Some || a.harness_close_armed is Some || a.workflow_delete_armed is Some
}

/// Whether a destructive confirmation is waiting: a session kill, a harness
/// close or a workflow deletion.
pub open spec fn confirmation_armed(a: App) -> bool {
    a.kill_armed is Some || a.harness_close_armed is Some || a.workflow_delete_armed is Some
}

/// The status line that cancelling the armed confirmations leaves: the last
/// of them to be cancelled names itself.
pub open spec fn cancelled_status(a: App) -> Seq<char> {
    if a.workflow_delete_armed is Some {
        "Workflow deletion cancelled"@
    } else if a.harness_close_armed is Some {
        "Harness close cancelled"@
    } else {
        "Session kill cancelled"@
    }
}

impl App {
    /// Deliver a drag or release to the harness that took the matching press.
    /// Returns whether the event belonged to that gesture; the position is held
    /// inside the pane it started in.
    #[verifier::rlimit(40)]
    pub fn deliver_pointer_grab(&mut self, m: MouseEvent) -> (r: bool)
        ensures
            grab_outcome(*old(self), m, *final(self), r),
            match (old(self).pointer.grab, report_spec(m.kind)) {
                (Some(g), Some((b, motion))) => if b == g.button && motion != Motion::Press {
                    &&& r
                    &&& final(self).pointer == (Pointer {
                        grab: if motion == Motion::Release {
                            None
                        } else {
                            old(self).pointer.grab
                        },
                        ..old(self).pointer
                    })
                    &&& old(self).harnesses is Some ==> pushed_one(old(self).pending@, final(self).pending@)
                        && is_report(
                        final(self).pending@.last(),
                        g.session@,
                        clamp_col(g.rect, m.column) - g.rect.x,
                        clamp_row(g.rect, m.row) - g.rect.y,
                        b,
                        motion,
                    )
                    &&& old(self).harnesses is None ==> final(self).pending == old(self).pending
                    &&& *final(self) == (App { pointer: final(self).pointer, pending: final(self).pending, ..*old(self) })
                } else {
                    !r && *final(self) == *old(self)
                },
                _ => !r && *final(self) == *old(self),
            },
    {
        let (session, button, rect) = match &self.pointer.grab {
            Some(g) => (g.session.clone(), g.button, g.rect),
            None => {
                return false;
            },
        };
        let (b, motion) = match pointer_report(m.kind) {
            Some(p) => p,
            None => {
                return false;
            },
        };
        if b != button || motion == Motion::Press {
            return false;
        }
        if motion == Motion::Release {
            self.pointer.grab = None;
        }
        if self.harnesses.is_none() {
            return true;
        }
        let col = clamp_to(m.column, rect.x, rect.right().saturating_sub(1)) - rect.x;
        let row = clamp_to(m.row, rect.y, rect.bottom().saturating_sub(1)) - rect.y;
        self.pending.push(Cmd::MouseToHarness { session, col, row, button: b, motion });
        assert(self.pending@.drop_last() =~= old(self).pending@);
        true
    }

    /// Hand a pointer event to the attached harness when it is over that
    /// harness's screen and the child asked for mouse reports
    /// (`takes_mouse`). Returns whether it was handed over.
    pub fn forward_harness_mouse(&mut self, m: MouseEvent, takes_mouse: bool) -> (r: bool)
        ensures
            forward_outcome(*old(self), m, takes_mouse, *final(self), r),
            r == (old(self).attached matches Some(a) && old(self).pointer.session matches Some((rect, id))
                && id@ == a@ && rect.contains_spec(m.column, m.row) && report_spec(m.kind) is Some
                && old(self).harnesses is Some && takes_mouse),
            !r ==> *final(self) == *old(self),
            r ==> match (old(self).attached, old(self).pointer.session, report_spec(m.kind)) {
                (Some(a), Some((rect, _)), Some((b, motion))) => {
                    &&& pushed_one(old(self).pending@, final(self).pending@)
                    &&& is_report(final(self).pending@.last(), a@, m.column - rect.x, m.row - rect.y, b, motion)
                    &&& match motion {
                        Motion::Press => final(self).pointer.grab matches Some(g) && g.session@ == a@ && g.button
                            == b && g.rect == rect,
                        Motion::Release => final(self).pointer.grab is None,
                        Motion::Drag => final(self).pointer.grab == old(self).pointer.grab,
                    }
                    &&& final(self).pointer == (Pointer { grab: final(self).pointer.grab, ..old(self).pointer })
                    &&& *final(self) == (App { pointer: final(self).pointer, pending: final(self).pending, ..*old(self) })
                },
                _ => false,
            },
    {
        let session = match &self.attached {
            Some(a) => a.clone(),
            None => {
                return false;
            },
        };
        let (rect, shown) = match &self.pointer.session {
            Some((rect, id)) => (*rect, *id == session),
            None => {
                return false;
            },
        };
        if !shown || !rect.contains(m.column, m.row) {
            return false;
        }
        let (b, motion) = match pointer_report(m.kind) {
            Some(p) => p,
            None => {
                return false;
            },
        };
        if self.harnesses.is_none() || !takes_mouse {
            return false;
        }
        self.pending.push(
            Cmd::MouseToHarness {
                session: session.clone(),
                col: m.column - rect.x,
                row: m.row - rect.y,
                button: b,
                motion,
            },
        );
        match motion {
            Motion::Press => {
                self.pointer.grab = Some(Grab { session, button: b, rect });
            },
            Motion::Release => {
                self.pointer.grab = None;
            },
            Motion::Drag => {},
        }
        assert(self.pending@.drop_last() =~= old(self).pending@);
        true
    }

    /// Choose picker entry `index` on whichever step is showing; on the
    /// workspace step the choice outranks what was typed.
    fn pick_picker_entry(&mut self, index: usize)
        ensures
            match old(self).session_picker {
                Some(p) => final(self).session_picker matches Some(q) && if p.step == PickerStep::Harness {
                    q == (crate::harness::HarnessPicker { index, ..p })
                } else {
                    q == (crate::harness::HarnessPicker { workspace_index: index, workspace_picked: true, ..p })
                },
                None => final(self).session_picker is None,
            },
            *final(self) == (App { session_picker: final(self).session_picker, ..*old(self) }),
    {
        match &mut self.session_picker {
            Some(p) => {
                match p.step {
                    PickerStep::Harness => {
                        p.index = index;
                    },
                    PickerStep::Workspace => {
                        p.workspace_index = index;
                        p.workspace_picked = true;
                    },
                }
            },
            None => {},
        }
    }

    /// Route a pointer event over the open session picker: a notch is an
    /// arrow, and a click on a row is Enter on it. Returns whether the event
    /// was the picker's; a click inside its box but on no row is taken and
    /// selects nothing.
    pub fn route_session_picker_pointer(&mut self, m: MouseEvent) -> (r: bool)
        requires
            old(self).session_picker matches Some(p) ==> p.workspace_query@.len() < usize::MAX,
        ensures
            r == (old(self).pointer.picker matches Some((area, _)) && area.contains_spec(m.column, m.row) && (
            m.kind == MouseKind::ScrollUp || m.kind == MouseKind::ScrollDown || m.kind == MouseKind::Down(
                MouseButton::Left,
            ))),
            !r ==> *final(self) == *old(self),
            final(self).tabs == old(self).tabs,
            final(self).harnesses == old(self).harnesses,
            picker_wheel_outcome(*old(self), m, *final(self), r),
    {
        let inside = match &self.pointer.picker {
            Some((area, _)) => area.contains(m.column, m.row),
            None => false,
        };
        if !inside {
            return false;
        }
        match m.kind {
            MouseKind::ScrollUp => {
                self.handle_harness_picker_key(KeyEvent::plain(KeyCode::Up));
                true
            },
            MouseKind::ScrollDown => {
                self.handle_harness_picker_key(KeyEvent::plain(KeyCode::Down));
                true
            },
            MouseKind::Down(MouseButton::Left) => {
                let entry = match &self.pointer.picker {
                    Some((_, rows)) => match picker_row_at(rows, m.column, m.row) {
                        Some(i) => Some(rows[i].1),
                        None => None,
                    },
                    None => None,
                };
                match entry {
                    Some(index) => {
                        if self.session_picker.is_some() {
                            self.pick_picker_entry(index);
                            self.handle_harness_picker_key(KeyEvent::plain(KeyCode::Enter));
                        }
                    },
                    None => {},
                }
                true
            },
            _ => false,
        }
    }

    /// Armed confirmations are answered by any pointer event: it cancels
    /// them, and the event goes no further. Returns whether one was armed.
    fn cancel_confirmations(&mut self) -> (r: bool)
        ensures
            r == confirmation_armed(*old(self)),
            !r ==> *final(self) == *old(self),
            r ==> final(self).status@ == cancelled_status(*old(self)) && *final(self) == (App {
                kill_armed: None,
                harness_close_armed: None,
                workflow_delete_armed: None,
                status: final(self).status,
                ..*old(self)
            }),
    {
        let kill = self.kill_armed.is_some();
        let close = self.harness_close_armed.is_some();
        let delete = self.workflow_delete_armed.is_some();
        if kill {
            self.kill_armed = None;
            self.set_status("Session kill cancelled");
        }
        if close {
            self.harness_close_armed = None;
            self.set_status("Harness close cancelled");
        }
        if delete {
            self.workflow_delete_armed = None;
            self.set_status("Workflow deletion cancelled");
        }
        kill || close || delete
    }

    /// An overlay takes the pointer: the hand-back question answers a click on
    /// one of its answers, the picker takes its own gestures, and every modal
    /// swallows the rest. Returns whether an overlay was up.
    fn pointer_modal(&mut self, m: MouseEvent) -> (r: bool)
        requires
            old(self).session_picker matches Some(p) ==> p.workspace_query@.len() < usize::MAX,
            old(self).handback_prompt matches Some(p) ==> p.note.wf() && p.note.text@.len() < usize::MAX,
        ensures
            modal_outcome(*old(self), m, *final(self), r),
            r == pointer_modal_spec(*old(self)),
            !r ==> *final(self) == *old(self),
            old(self).handback_prompt is None && old(self).prompt is Some ==> *final(self) == *old(self),
            old(self).handback_prompt is None && old(self).prompt is None && old(self).session_picker is None
                ==> *final(self) == *old(self),
            final(self).tabs == old(self).tabs,
    {
        if self.handback_prompt.is_some() {
            if m.kind == MouseKind::Down(MouseButton::Left) {
                let answer = match answer_at(&self.pointer.handback, m.column, m.row) {
                    Some(i) => Some(self.pointer.handback[i].1),
                    None => None,
                };
                match answer {
                    Some(code) => {
                        self.handle_handback_key(code);
                        return true;
                    },
                    None => {},
                }
            }
        }
        if self.prompt.is_some() {
            return true;
        }
        if self.session_picker.is_some() && self.route_session_picker_pointer(m) {
            return true;
        }
        self.resume_picker.is_some() || self.session_picker.is_some() || self.kill_armed.is_some()
            || self.harness_close_armed.is_some() || self.workflow_delete_armed.is_some() || self.handback_prompt.is_some()
    }

    /// A left press: a click that navigates away from the attached harness
    /// settles its hand-back first, then the press arms a drag and acts on
    /// what is under it.
    #[verifier::rlimit(80)]
    #[verifier::spinoff_prover]
    fn press_left(&mut self, x: u16, y: u16) -> (r: Option<Cmd>)
        ensures
            old(self).attached is None ==> pressed(*old(self), x, y, *final(self), r),
            old(self).attached is Some ==> attached_pressed(*old(self), x, y, *final(self), r),
            final(self).tabs == old(self).tabs,
            old(self).attached is None ==> final(self).pointer == (Pointer {
                drag_anchor: Some((x, y)),
                selection: None,
                ..old(self).pointer
            }),
    {
        let held = match &self.attached {
            Some(a) => Some(a.clone()),
            None => None,
        };
        match held {
            Some(session) => {
                let inside = match &self.pointer.session {
                    Some((rect, id)) => *id == session && rect.contains(x, y),
                    None => false,
                };
                let own_row = match self.rail_session_at(x, y) {
                    Some(s) => s == session,
                    None => false,
                };
                if !inside && !own_row {
                    let go = self.begin_harness_release(&session);
                    let ghost mid = *self;
                    if !go {
                        return None;
                    }
                    self.release_harness();
                    assert(*self == (App { attached: None, ..mid }));
                }
            },
            None => {},
        }
        self.pointer.drag_anchor = Some((x, y));
        self.pointer.selection = None;
        self.handle_click(x, y)
    }

    /// What the pointer does once no overlay or harness took the event: the
    /// wheel scrolls what it is over, a left press clicks and arms a drag, a
    /// drag grows the selection, and the release asks for it to be copied.
    fn pointer_action(&mut self, m: MouseEvent) -> (r: Option<Cmd>)
        ensures
            m.kind == MouseKind::Down(MouseButton::Left) && old(self).attached is None ==> pressed(*old(self), m.column, m.row, *final(self), r),
            m.kind == MouseKind::Down(MouseButton::Left) && old(self).attached is Some ==> attached_pressed(*old(self), m.column, m.row, *final(self), r),
            (m.kind == MouseKind::ScrollUp || m.kind == MouseKind::ScrollDown) ==> scrolled_at(*old(self), m.column, m.row, m.kind == MouseKind::ScrollUp, *final(self)),
            final(self).tabs == old(self).tabs,
            m.kind == MouseKind::Down(MouseButton::Left) && old(self).attached is None ==> final(self).pointer
                == (Pointer { drag_anchor: Some((m.column, m.row)), selection: None, ..old(self).pointer }),
            m.kind == MouseKind::Drag(MouseButton::Left) ==> r is None && dragged(*old(self), m.column, m.row, *final(self)),
            m.kind == MouseKind::Up(MouseButton::Left) ==> r is None && *final(self) == (App {
                pointer: Pointer {
                    drag_anchor: None,
                    copy_selection: old(self).pointer.selection is Some,
                    ..old(self).pointer
                },
                ..*old(self)
            }),
            m.kind == MouseKind::ScrollUp || m.kind == MouseKind::ScrollDown ==> r is None,
            !(m.kind == MouseKind::Down(MouseButton::Left) || m.kind == MouseKind::Drag(MouseButton::Left) || m.kind
                == MouseKind::Up(MouseButton::Left) || m.kind == MouseKind::ScrollUp || m.kind
                == MouseKind::ScrollDown) ==> r is None && *final(self) == *old(self),
    {
        match m.kind {
            MouseKind::ScrollUp => {
                self.scroll_at(m.column, m.row, true);
                None
            },
            MouseKind::ScrollDown => {
                self.scroll_at(m.column, m.row, false);
                None
            },
            MouseKind::Down(MouseButton::Left) => {
                self.press_left(m.column, m.row)
            },
            MouseKind::Drag(MouseButton::Left) => {
                self.extend_selection(m.column, m.row);
                None
            },
            MouseKind::Up(MouseButton::Left) => {
                self.pointer.drag_anchor = None;
                self.pointer.copy_selection = self.pointer.selection.is_some();
                None
            },
            _ => None,
        }
    }

    /// Handle a pointer event. An armed confirmation is cancelled by it; a
    /// harness gesture in progress takes its drag and release; an overlay
    /// takes or swallows it; the attached harness takes what is over its
    /// screen when it asked for reports (`takes_mouse`); otherwise it scrolls,
    /// clicks, or selects.
    pub fn on_mouse(&mut self, m: MouseEvent, takes_mouse: bool) -> (r: Option<Cmd>)
        requires
            old(self).session_picker matches Some(p) ==> p.workspace_query@.len() < usize::MAX,
            old(self).handback_prompt matches Some(p) ==> p.note.wf() && p.note.text@.len() < usize::MAX,
        ensures
            mouse_dispatched(*old(self), m, takes_mouse, *final(self), r),
            mouse_outcome(*old(self), m, takes_mouse, *final(self), r),
            final(self).tabs == old(self).tabs,
            confirmation_armed(*old(self)) ==> r is None
                && final(self).status@ == cancelled_status(*old(self)) && *final(self) == (App {
                kill_armed: None,
                harness_close_armed: None,
                workflow_delete_armed: None,
                status: final(self).status,
                ..*old(self)
            }),
            !confirmation_armed(*old(self)) && old(self).pointer.grab is None
                && pointer_modal_spec(*old(self)) ==> r is None,
            !confirmation_armed(*old(self)) && old(self).pointer.grab is None
                && old(self).handback_prompt is None && old(self).prompt is Some ==> r is None && *final(self)
                == *old(self),
            old(self).pointer.grab is None && !pointer_modal_spec(*old(self)) && old(self).attached is None
                && m.kind == MouseKind::Down(MouseButton::Left) ==> final(self).pointer == (Pointer {
                drag_anchor: Some((m.column, m.row)),
                selection: None,
                ..old(self).pointer
            }),
            old(self).pointer.grab is None && !pointer_modal_spec(*old(self)) && old(self).attached is None
                && m.kind == MouseKind::Up(MouseButton::Left) ==> r is None && *final(self) == (App {
                pointer: Pointer {
                    drag_anchor: None,
                    copy_selection: old(self).pointer.selection is Some,
                    ..old(self).pointer
                },
                ..*old(self)
            }),
    {
        if self.cancel_confirmations() {
            return None;
        }
        if self.deliver_pointer_grab(m) {
            return None;
        }
        if self.pointer_modal(m) {
            return None;
        }
        if self.forward_harness_mouse(m, takes_mouse) {
            return None;
        }
        self.pointer_action(m)
    }
}

/// What a pointer event does, as `App::on_mouse` states it.
pub open spec fn mouse_outcome(before: App, m: MouseEvent, takes_mouse: bool, after: App, r: Option<Cmd>) -> bool {
    &&& (after.tabs == before.tabs)
    &&& (confirmation_armed(before) ==> r is None
                && after.status@ == cancelled_status(before) && after == (App {
                kill_armed: None,
                harness_close_armed: None,
                workflow_delete_armed: None,
                status: after.status,
                ..before
            }))
    &&& (!confirmation_armed(before) && before.pointer.grab is None
                && pointer_modal_spec(before) ==> r is None)
    &&& (!confirmation_armed(before) && before.pointer.grab is None
                && before.handback_prompt is None && before.prompt is Some ==> r is None && after
                == before)
    &&& (before.pointer.grab is None && !pointer_modal_spec(before) && before.attached is None
                && m.kind == MouseKind::Down(MouseButton::Left) ==> after.pointer == (Pointer {
                drag_anchor: Some((m.column, m.row)),
                selection: None,
                ..before.pointer
            }))
    &&& (before.pointer.grab is None && !pointer_modal_spec(before) && before.attached is None
                && m.kind == MouseKind::Up(MouseButton::Left) ==> r is None && after == (App {
                pointer: Pointer {
                    drag_anchor: None,
                    copy_selection: before.pointer.selection is Some,
                    ..before.pointer
                },
                ..before
            }))
}

/// What a wheel notch over the Settings page does.
pub open spec fn settings_page_scrolled(before: App, up: bool, after: App) -> bool {
    &&& (match before.settings_page_spec() {
                Some(SettingsPage::Trace) => after == (App {
                    selected: if up {
                        if before.selected < 3 {
                            0
                        } else {
                            (before.selected - 3) as usize
                        }
                    } else if before.selected + 3 > usize::MAX {
                        usize::MAX
                    } else {
                        (before.selected + 3) as usize
                    },
                    ..before
                }),
                Some(SettingsPage::Context) => after == (App {
                    menus: Menus {
                        context_index: crate::settings::stepped_index(
                            before.menus.context_index,
                            before.setup.contexts@.len() as usize,
                            up,
                        ),
                        ..before.menus
                    },
                    ..before
                }),
                _ => after == before,
            })
}

/// What scrolling the conversation by `rows` does.
pub open spec fn transcript_scrolled(before: App, up: bool, rows: usize, after: App) -> bool {
    &&& (after == (App {
                agent_scroll: if up {
                    if before.agent_scroll + rows > usize::MAX {
                        usize::MAX
                    } else {
                        (before.agent_scroll + rows) as usize
                    }
                } else if before.agent_scroll < rows {
                    0
                } else {
                    (before.agent_scroll - rows) as usize
                },
                ..before
            }))
}

/// What a click at `(x, y)` does, as `App::handle_click` states it.
pub open spec fn click_outcome(before: App, x: u16, y: u16, after: App, r: Option<Cmd>) -> bool {
    &&& (after.tabs == before.tabs)
    &&& (after.pointer == before.pointer)
    &&& (match before.click_spec(x, y) {
                Click::TabBar(Some(i)) => after == (App { tab_index: i, selected: 0, ..before })
                    && r == crate::settings::entry_cmd(after.tab_spec(), after.settings_page_spec()),
                Click::TabBar(None) => r is None && after == before,
                Click::NavPage(p) => r is None && match before.tab_spec() {
                    Some(Tab::Settings) => after == (App {
                        menus: Menus { settings_index: p, settings_focused: true, ..before.menus },
                        ..before
                    }),
                    Some(Tab::Hosts) => after == (App {
                        menus: Menus { routing_index: p, routing_focused: true, ..before.menus },
                        ..before
                    }),
                    _ => after == before,
                },
                Click::Rail(idx) => App::rail_clicked(before, idx, after, r),
                Click::Pane => r is None && crate::harness::pane_attached(before, after),
                Click::ContextRow(k) => r is None && after == (App {
                    menus: Menus { context_index: k, ..before.menus },
                    ..before
                }),
                Click::Nothing => r is None && after == before,
            })
}

/// What a pointer event does to a harness gesture in progress.
pub open spec fn grab_outcome(before: App, m: MouseEvent, after: App, r: bool) -> bool {
    &&& (match (before.pointer.grab, report_spec(m.kind)) {
                (Some(g), Some((b, motion))) => if b == g.button && motion != Motion::Press {
                    &&& r
                    &&& after.pointer == (Pointer {
                        grab: if motion == Motion::Release {
                            None
                        } else {
                            before.pointer.grab
                        },
                        ..before.pointer
                    })
                    &&& before.harnesses is Some ==> pushed_one(before.pending@, after.pending@)
                        && is_report(
                        after.pending@.last(),
                        g.session@,
                        clamp_col(g.rect, m.column) - g.rect.x,
                        clamp_row(g.rect, m.row) - g.rect.y,
                        b,
                        motion,
                    )
                    &&& before.harnesses is None ==> after.pending == before.pending
                    &&& after == (App { pointer: after.pointer, pending: after.pending, ..before })
                } else {
                    !r && after == before
                },
                _ => !r && after == before,
            })
}

/// What handing a pointer event to the attached harness does.
pub open spec fn forward_outcome(before: App, m: MouseEvent, takes_mouse: bool, after: App, r: bool) -> bool {
    &&& (r == (before.attached matches Some(a) && before.pointer.session matches Some((rect, id))
                && id@ == a@ && rect.contains_spec(m.column, m.row) && report_spec(m.kind) is Some
                && before.harnesses is Some && takes_mouse))
    &&& (!r ==> after == before)
    &&& (r ==> match (before.attached, before.pointer.session, report_spec(m.kind)) {
                (Some(a), Some((rect, _)), Some((b, motion))) => {
                    &&& pushed_one(before.pending@, after.pending@)
                    &&& is_report(after.pending@.last(), a@, m.column - rect.x, m.row - rect.y, b, motion)
                    &&& match motion {
                        Motion::Press => after.pointer.grab matches Some(g) && g.session@ == a@ && g.button
                            == b && g.rect == rect,
                        Motion::Release => after.pointer.grab is None,
                        Motion::Drag => after.pointer.grab == before.pointer.grab,
                    }
                    &&& after.pointer == (Pointer { grab: after.pointer.grab, ..before.pointer })
                    &&& after == (App { pointer: after.pointer, pending: after.pending, ..before })
                },
                _ => false,
            })
}

/// What an open overlay does with a pointer event.
pub open spec fn modal_outcome(before: App, m: MouseEvent, after: App, r: bool) -> bool {
    &&& (r == pointer_modal_spec(before))
    &&& (!r ==> after == before)
    &&& (before.handback_prompt is None && before.prompt is Some ==> after == before)
    &&& (before.handback_prompt is None && before.prompt is None && before.session_picker is None
                ==> after == before)
    &&& (after.tabs == before.tabs)
}

/// What a wheel notch at `(x, y)` does: over the embedded terminal it is
/// handed to the harness; over the page menu it steps the menu; on the
/// Sessions tab it steps the rail cursor over the rail and scrolls the
/// conversation by three rows elsewhere; on the Settings tab it scrolls the
/// page; anywhere else nothing changes.
pub open spec fn scrolled_at(before: App, x: u16, y: u16, up: bool, after: App) -> bool {
    let tab = before.tab_spec();
    if before.pointer.session matches Some((rect, _)) && rect.contains_spec(x, y) {
        match before.pointer.session {
            Some((rect, s)) => if before.harnesses is Some {
                after.pending@ == before.pending@.push(
                    Cmd::ScrollHarness {
                        session: s,
                        col: (x - rect.x) as u16,
                        row: (y - rect.y) as u16,
                        up,
                        rows: SCROLL_ROWS,
                    },
                ) && after == (App { pending: after.pending, ..before })
            } else {
                after == before
            },
            None => true,
        }
    } else if before.pointer.nav_area.contains_spec(x, y) {
        crate::settings::subpage_scrolled(before, up, after)
    } else if tab == Some(Tab::Sessions) {
        if before.pointer.agents matches Some((rail, _)) && rail.contains_spec(x, y) {
            after == crate::nav::rail_moved(before, up)
        } else {
            transcript_scrolled(before, up, 3, after)
        }
    } else if tab == Some(Tab::Settings) {
        settings_page_scrolled(before, up, after)
    } else {
        after == before
    }
}

/// Whether a harness gesture in progress takes a pointer event: a drag or
/// release of the button that started it.
pub open spec fn grab_takes(before: App, m: MouseEvent) -> bool {
    before.pointer.grab matches Some(g) && report_spec(m.kind) matches Some((b, motion)) && b == g.button && motion
        != Motion::Press
}

/// Whether the attached harness is handed a pointer event: it is over that
/// harness's screen, is a report the harness understands, and the harness
/// asked for mouse reports.
pub open spec fn forward_takes(before: App, m: MouseEvent, takes_mouse: bool) -> bool {
    before.attached matches Some(a) && before.pointer.session matches Some((rect, id)) && id@ == a@
        && rect.contains_spec(m.column, m.row) && report_spec(m.kind) is Some && before.harnesses is Some
        && takes_mouse
}

/// A left press at `(x, y)` with no harness attached: a drag is armed there
/// and the press clicks what is under it.
pub open spec fn pressed(before: App, x: u16, y: u16, after: App, r: Option<Cmd>) -> bool {
    click_outcome(
        App { pointer: Pointer { drag_anchor: Some((x, y)), selection: None, ..before.pointer }, ..before },
        x,
        y,
        after,
        r,
    )
}

/// What a pointer event does, in order of precedence: an armed
/// confirmation is cancelled by it; a harness gesture in progress takes its
/// drag and release; an open overlay takes or swallows it; the attached
/// harness is handed it when it asked for reports; otherwise the wheel
/// scrolls what it is over and a left press (with no harness attached)
/// clicks.
pub open spec fn mouse_dispatched(before: App, m: MouseEvent, takes_mouse: bool, after: App, r: Option<Cmd>) -> bool {
    if confirmation_armed(before) {
        r is None && after.status@ == cancelled_status(before) && after == (App {
            kill_armed: None,
            harness_close_armed: None,
            workflow_delete_armed: None,
            status: after.status,
            ..before
        })
    } else if grab_takes(before, m) {
        r is None && grab_outcome(before, m, after, true)
    } else if pointer_modal_spec(before) {
        r is None && modal_outcome(before, m, after, true)
    } else if forward_takes(before, m, takes_mouse) {
        r is None && forward_outcome(before, m, takes_mouse, after, true)
    } else if m.kind == MouseKind::ScrollUp || m.kind == MouseKind::ScrollDown {
        r is None && scrolled_at(before, m.column, m.row, m.kind == MouseKind::ScrollUp, after)
    } else if m.kind == MouseKind::Down(MouseButton::Left) && before.attached is None {
        pressed(before, m.column, m.row, after, r)
    } else if m.kind == MouseKind::Drag(MouseButton::Left) {
        r is None && dragged(before, m.column, m.row, after)
    } else if m.kind == MouseKind::Up(MouseButton::Left) {
        r is None && after == (App {
            pointer: Pointer { drag_anchor: None, copy_selection: before.pointer.selection is Some, ..before.pointer },
            ..before
        })
    } else if m.kind == MouseKind::Down(MouseButton::Left) {
        attached_pressed(before, m.column, m.row, after, r)
    } else {
        r is None && after == before
    }
}

/// A left press while a harness is attached: inside that harness's pane or
/// on its own rail row it clicks as usual; anywhere else it first lets go of
/// the harness (handing it back, keeping it, or asking, as the policy says)
/// and, unless a question was raised, releases the keyboard and clicks.
pub open spec fn attached_pressed(before: App, x: u16, y: u16, after: App, r: Option<Cmd>) -> bool {
    let s = before.attached->0;
    let inside = before.pointer.session matches Some((rect, id)) && id@ == s@ && rect.contains_spec(x, y);
    let own_row = match before.rail_line_spec(x, y) {
        Some(idx) => text_of(before.row_session_spec(idx)) == Some(s@),
        None => false,
    };
    if inside || own_row {
        pressed(before, x, y, after, r)
    } else {
        exists|go: bool, mid: App|
            #[trigger] crate::harness::release_begun(before, s@, mid, go) && if go {
                pressed(App { attached: None, ..mid }, x, y, after, r)
            } else {
                r is None && after == mid
            }
    }
}

/// A left drag grows the selection from where the press anchored it to the
/// cell under the pointer, within the anchor's pane; with no anchor nothing
/// happens.
pub open spec fn dragged(before: App, x: u16, y: u16, after: App) -> bool {
    match before.pointer.drag_anchor {
        Some((ax, ay)) => after == (App {
            pointer: Pointer { selection: Some(block(before.pointer, ax, ay, x, y)), ..before.pointer },
            ..before
        }),
        None => after == before,
    }
}

/// What a wheel notch the session picker takes does: a notch up is the Up
/// arrow and a notch down the Down arrow, moving the picker's highlight and
/// nothing else.
pub open spec fn picker_wheel_outcome(before: App, m: MouseEvent, after: App, r: bool) -> bool {
    r && (m.kind == MouseKind::ScrollUp || m.kind == MouseKind::ScrollDown) ==> match before.session_picker {
        Some(p) => after == (App {
            session_picker: Some(crate::harness::picker_arrowed(p, m.kind == MouseKind::ScrollUp)),
            ..before
        }),
        None => after == before,
    }
}

/// A wheel notch in the session picker moves its highlight the way the
/// wheel turned: up never moves it down the list and down never up; a
/// notch up from row `i > 0` lands on row `i - 1`, a notch down from a row
/// before the last lands on the next one, and the other step's highlight
/// stays where it was.
pub proof fn law_picker_wheel_follows_the_wheel(before: App, m: MouseEvent, after: App)
    requires
        picker_wheel_outcome(before, m, after, true),
        before.session_picker is Some,
        m.kind == MouseKind::ScrollUp || m.kind == MouseKind::ScrollDown,
        before.session_picker->0.choices@.len() <= usize::MAX,
        before.session_picker->0.workspace_choices@.len() <= usize::MAX,
    ensures
        ({
            let p = before.session_picker->0;
            let q = after.session_picker->0;
            &&& after.session_picker is Some
            &&& q.step == p.step && q.choices == p.choices && q.workspace_choices == p.workspace_choices
            &&& p.step == crate::harness::PickerStep::Harness ==> {
                &&& q.workspace_index == p.workspace_index
                &&& m.kind == MouseKind::ScrollUp ==> q.index <= p.index && (p.index > 0 ==> q.index == p.index - 1)
                &&& m.kind == MouseKind::ScrollDown ==> (p.index + 1 < p.choices@.len() ==> q.index == p.index + 1)
                    && (p.index < p.choices@.len() ==> q.index >= p.index)
            }
            &&& p.step == crate::harness::PickerStep::Workspace ==> {
                &&& q.index == p.index
                &&& m.kind == MouseKind::ScrollUp ==> q.workspace_index <= p.workspace_index && (p.workspace_index > 0
                    ==> q.workspace_index == p.workspace_index - 1)
                &&& m.kind == MouseKind::ScrollDown ==> (p.workspace_index + 1 < p.workspace_choices@.len()
                    ==> q.workspace_index == p.workspace_index + 1) && (p.workspace_index
                    < p.workspace_choices@.len() ==> q.workspace_index >= p.workspace_index)
            }
            &&& after == (App { session_picker: after.session_picker, ..before })
        }),
{
}

} // verus!
