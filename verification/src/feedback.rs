//! The feedback board: browsing, voting, filtering and sorting, and the
//! two-step "new feedback" prompt.
use vstd::prelude::*;

use crate::app::{owned, App, Cmd, Prompt, PromptKind};
use crate::composer::Draft;
use crate::text::{push_all, push_str, string_of};

verus! {

/// How the board is ordered.
#[derive(Clone, Copy, Debug, PartialEq, Eq, Structural)]
pub enum FeedbackSort {
    Hot,
    Top,
    New,
}

/// What kind of feedback an item is.
#[derive(Clone, Copy, Debug, PartialEq, Eq, Structural)]
pub enum FeedbackType {
    Feature,
    Bug,
}

/// What the board asks the server for.
#[derive(Clone, Copy, Debug, PartialEq, Eq, Structural)]
pub struct FeedbackQuery {
    pub sort: FeedbackSort,
    pub kind: Option<FeedbackType>,
    pub page: u32,
}

/// One item on the board.
pub struct FeedbackItem {
    pub id: String,
    pub title: String,
    pub kind: FeedbackType,
    pub votes: i64,
    /// The operator's own vote: 1, -1, or 0 for none.
    pub my_vote: i8,
}

/// One comment under an item.
pub struct FeedbackComment {
    pub author: String,
    pub body: String,
}

/// A page of the board as the server sent it.
pub struct FeedbackPage {
    pub items: Vec<FeedbackItem>,
    pub total: u64,
}

/// The board's state.
pub struct FeedbackState {
    pub items: Vec<FeedbackItem>,
    pub index: usize,
    pub detail_id: Option<String>,
    pub detail_scroll: usize,
    pub comments: Vec<FeedbackComment>,
    pub query: FeedbackQuery,
    pub loading: bool,
    pub supported: bool,
    pub total: u64,
}

/// The next sort in the cycle hot → top → new → hot.
pub open spec fn next_sort(s: FeedbackSort) -> FeedbackSort {
    match s {
        FeedbackSort::Hot => FeedbackSort::Top,
        FeedbackSort::Top => FeedbackSort::New,
        FeedbackSort::New => FeedbackSort::Hot,
    }
}

/// The next filter in the cycle everything → features → bugs → everything.
pub open spec fn next_filter(k: Option<FeedbackType>) -> Option<FeedbackType> {
    match k {
        None => Some(FeedbackType::Feature),
        Some(FeedbackType::Feature) => Some(FeedbackType::Bug),
        Some(FeedbackType::Bug) => None,
    }
}

/// The word a sort is shown and sent as.
pub open spec fn sort_word(s: FeedbackSort) -> Seq<char> {
    match s {
        FeedbackSort::Hot => "hot"@,
        FeedbackSort::Top => "top"@,
        FeedbackSort::New => "new"@,
    }
}

/// The vote a press of `value` casts, given the operator's standing vote:
/// pressing the vote already cast retracts it.
pub open spec fn effective_vote(mine: i8, value: i8) -> i8 {
    if mine == value {
        0
    } else {
        value
    }
}

/// `s` cut to `n` characters, ending in `…` when anything was cut.
pub open spec fn clipped(s: Seq<char>, n: int) -> Seq<char> {
    if s.len() <= n {
        s
    } else {
        s.take(n - 1) + seq!['…']
    }
}

/// The next sort in the cycle.
pub fn sort_next(s: FeedbackSort) -> (r: FeedbackSort)
    ensures
        r == next_sort(s),
{
    match s {
        FeedbackSort::Hot => FeedbackSort::Top,
        FeedbackSort::Top => FeedbackSort::New,
        FeedbackSort::New => FeedbackSort::Hot,
    }
}

/// The word a sort is shown as.
pub fn sort_label(sort: FeedbackSort) -> (r: &'static str)
    ensures
        r@ == sort_word(sort),
{
    match sort {
        FeedbackSort::Hot => "hot",
        FeedbackSort::Top => "top",
        FeedbackSort::New => "new",
    }
}

/// `s` cut to `n` characters for a prompt title.
pub fn clip(s: &String, n: usize) -> (r: Vec<char>)
    requires
        n > 0,
    ensures
        r@ == clipped(s@, n as int),
{
    let cs = crate::text::chars_of_string(s);
    if cs.len() <= n {
        return cs;
    }
    let mut out: Vec<char> = Vec::new();
    let mut i: usize = 0;
    while i < n - 1
        invariant
            i <= n - 1 < cs@.len(),
            out@ == cs@.take(i as int),
        decreases n - 1 - i,
    {
        out.push(cs[i]);
        i = i + 1;
        assert(out@ =~= cs@.take(i as int));
    }
    out.push('…');
    out
}

/// Every cycle of three sorts comes back to where it started.
pub proof fn law_sort_cycle(s: FeedbackSort)
    ensures
        next_sort(next_sort(next_sort(s))) == s,
        next_sort(s) != s,
{
}

/// Every cycle of three filters comes back to where it started.
pub proof fn law_filter_cycle(k: Option<FeedbackType>)
    ensures
        next_filter(next_filter(next_filter(k))) == k,
        next_filter(k) != k,
{
}

/// Pressing the vote already cast retracts it; pressing the other casts it.
pub proof fn law_vote_toggles(mine: i8, value: i8)
    requires
        value == 1 || value == -1,
        mine == 1 || mine == -1 || mine == 0,
    ensures
        effective_vote(mine, value) == 0 <==> mine == value,
        effective_vote(effective_vote(mine, value), value) == value || mine != value,
{
}

/// The next filter in the cycle.
pub fn filter_next(k: Option<FeedbackType>) -> (r: Option<FeedbackType>)
    ensures
        r == next_filter(k),
{
    match k {
        None => Some(FeedbackType::Feature),
        Some(FeedbackType::Feature) => Some(FeedbackType::Bug),
        Some(FeedbackType::Bug) => None,
    }
}

/// What a filter shows, in words.
pub open spec fn filter_word(k: Option<FeedbackType>) -> Seq<char> {
    match k {
        None => "everything"@,
        Some(FeedbackType::Bug) => "bugs"@,
        Some(FeedbackType::Feature) => "feature requests"@,
    }
}

/// What a filter shows, in words.
pub fn filter_label(k: Option<FeedbackType>) -> (r: &'static str)
    ensures
        r@ == filter_word(k),
{
    match k {
        None => "everything",
        Some(FeedbackType::Bug) => "bugs",
        Some(FeedbackType::Feature) => "feature requests",
    }
}

impl FeedbackState {
    /// The board with its cursor moved one item, clamped, and the detail
    /// pane scrolled back to its top.
    pub open spec fn moved(self, up: bool) -> FeedbackState {
        FeedbackState {
            index: if up {
                if self.index > 0 {
                    (self.index - 1) as usize
                } else {
                    0
                }
            } else {
                crate::rail::min(
                    self.index + 1,
                    if self.items@.len() > 0 {
                        self.items@.len() - 1
                    } else {
                        0
                    },
                ) as usize
            },
            detail_scroll: 0,
            ..self
        }
    }

    /// Move the cursor one item.
    pub fn move_index(&mut self, up: bool)
        ensures
            *final(self) == old(self).moved(up),
    {
        let max = if self.items.len() > 0 {
            self.items.len() - 1
        } else {
            0
        };
        if up {
            self.index = self.index.saturating_sub(1);
        } else {
            let next = self.index.saturating_add(1);
            self.index = if next < max {
                next
            } else {
                max
            };
        }
        self.detail_scroll = 0;
    }

    /// Whether some item of `items` is the one whose comments are shown.
    pub open spec fn keeps_detail(items: Seq<FeedbackItem>, detail: Option<String>) -> bool {
        exists|i: int|
            #![trigger items[i]]
            0 <= i < items.len() && (detail matches Some(d) && items[i].id@ == d@)
    }

    /// Whether `after` is `before` with `page` taken in: `None` means the
    /// server has no board.
    pub open spec fn page_applied(before: FeedbackState, after: FeedbackState, page: Option<FeedbackPage>) -> bool {
        &&& !after.loading
        &&& match page {
            None => {
                &&& !after.supported
                &&& after.items@.len() == 0
                &&& after.total == 0
                &&& after == (FeedbackState {
                    loading: false,
                    supported: false,
                    items: after.items,
                    total: 0,
                    ..before
                })
            },
            Some(p) => {
                let kept = Self::keeps_detail(p.items@, before.detail_id);
                &&& after.supported
                &&& after.total == p.total
                &&& after.items@ == p.items@
                &&& after.index == crate::rail::min(
                    before.index as int,
                    if p.items@.len() > 0 {
                        p.items@.len() - 1
                    } else {
                        0
                    },
                )
                &&& kept ==> after.detail_id == before.detail_id && after.comments == before.comments
                &&& !kept ==> after.detail_id is None && after.comments@.len() == 0
                &&& after == (FeedbackState {
                    loading: false,
                    supported: true,
                    total: p.total,
                    items: after.items,
                    index: after.index,
                    detail_id: after.detail_id,
                    comments: after.comments,
                    ..before
                })
            },
        }
    }

    /// Take a page of the board from the server.
    pub fn set_page(&mut self, page: Option<FeedbackPage>)
        ensures
            Self::page_applied(*old(self), *final(self), page),
    {
        self.loading = false;
        match page {
            None => {
                self.supported = false;
                self.items = Vec::new();
                self.total = 0;
            },
            Some(p) => {
                self.supported = true;
                self.total = p.total;
                self.items = p.items;
                let last = if self.items.len() > 0 {
                    self.items.len() - 1
                } else {
                    0
                };
                if self.index > last {
                    self.index = last;
                }
                let mut found = false;
                let mut i: usize = 0;
                let ghost before = *self;
                while i < self.items.len()
                    invariant
                        *self == before,
                        i <= self.items@.len(),
                        found <==> exists|j: int|
                            #![trigger self.items@[j]]
                            0 <= j < i && (self.detail_id matches Some(d)
                                && self.items@[j].id@ == d@),
                    decreases self.items.len() - i,
                {
                    let hit = match &self.detail_id {
                        Some(d) => self.items[i].id == *d,
                        None => false,
                    };
                    if hit {
                        found = true;
                    }
                    i = i + 1;
                }
                if !found {
                    self.detail_id = None;
                    self.comments = Vec::new();
                }
            },
        }
    }


    /// An empty board, sorted hot, showing everything.
    pub fn new() -> (r: FeedbackState)
        ensures
            r.items@.len() == 0,
            r.index == 0,
            r.detail_id is None,
            r.query == (FeedbackQuery { sort: FeedbackSort::Hot, kind: None, page: 1 }),
            !r.loading,
            r.supported,
    {
        FeedbackState {
            items: Vec::new(),
            index: 0,
            detail_id: None,
            detail_scroll: 0,
            comments: Vec::new(),
            query: FeedbackQuery { sort: FeedbackSort::Hot, kind: None, page: 1 },
            loading: false,
            supported: true,
            total: 0,
        }
    }
}

impl App {
    /// The item under the board's cursor.
    pub open spec fn feedback_selected_spec(&self) -> Option<FeedbackItem> {
        if self.feedback.index < self.feedback.items@.len() {
            Some(self.feedback.items@[self.feedback.index as int])
        } else {
            None
        }
    }

    /// The item under the board's cursor.
    pub fn feedback_selected(&self) -> (r: Option<&FeedbackItem>)
        ensures
            match self.feedback_selected_spec() {
                Some(i) => r == Some(&i),
                None => r is None,
            },
    {
        if self.feedback.index < self.feedback.items.len() {
            Some(&self.feedback.items[self.feedback.index])
        } else {
            None
        }
    }

    /// What the board currently asks for.
    pub fn feedback_query(&self) -> (r: FeedbackQuery)
        ensures
            r == self.feedback.query,
    {
        self.feedback.query
    }

    /// The command that loads the selected item's comments, unless they are
    /// the ones already shown.
    pub fn feedback_detail_cmd(&self) -> (r: Option<Cmd>)
        ensures
            match self.feedback_selected_spec() {
                None => r is None,
                Some(item) => if (self.feedback.detail_id matches Some(d) && d@ == item.id@) {
                    r is None
                } else {
                    r matches Some(Cmd::LoadFeedbackDetail(id)) && id@ == item.id@
                },
            },
    {
        let item = match self.feedback_selected() {
            Some(i) => i,
            None => {
                return None;
            },
        };
        let shown = match &self.feedback.detail_id {
            Some(d) => *d == item.id,
            None => false,
        };
        if shown {
            return None;
        }
        Some(Cmd::LoadFeedbackDetail(item.id.clone()))
    }

    /// Move the board's cursor and ask for the new item's comments.
    pub fn move_feedback_index(&mut self, up: bool) -> (r: Option<Cmd>)
        ensures
            feedback_moved(*old(self), up, *final(self), r),
            final(self).feedback == old(self).feedback.moved(up),
            *final(self) == (App { feedback: final(self).feedback, ..*old(self) }),
            match final(self).feedback_selected_spec() {
                None => r is None,
                Some(item) => if (final(self).feedback.detail_id matches Some(d) && d@ == item.id@) {
                    r is None
                } else {
                    r matches Some(Cmd::LoadFeedbackDetail(id)) && id@ == item.id@
                },
            },
    {
        self.feedback.move_index(up);
        self.feedback_detail_cmd()
    }

    /// Mark the board loading and ask for its current query.
    pub fn reload_feedback(&mut self) -> (r: Option<Cmd>)
        ensures
            feedback_reloaded(*old(self), *final(self), r),
            r == Some(Cmd::LoadFeedback(old(self).feedback.query)),
            final(self).feedback == (FeedbackState { loading: true, ..old(self).feedback }),
            *final(self) == (App { feedback: final(self).feedback, ..*old(self) }),
    {
        self.feedback.loading = true;
        Some(Cmd::LoadFeedback(self.feedback.query))
    }

    /// Cycle the board's sort, back to its first page.
    pub fn cycle_feedback_sort(&mut self) -> (r: Option<Cmd>)
        ensures
            feedback_sort_cycled(*old(self), *final(self), r),
            final(self).feedback.query == (FeedbackQuery {
                sort: next_sort(old(self).feedback.query.sort),
                page: 1,
                ..old(self).feedback.query
            }),
            final(self).feedback.loading,
            final(self).status@ == "Feedback · sorting by "@ + sort_word(final(self).feedback.query.sort),
            r == Some(Cmd::LoadFeedback(final(self).feedback.query)),
            final(self).feedback == (FeedbackState {
                query: final(self).feedback.query,
                loading: true,
                ..old(self).feedback
            }),
            *final(self) == (App { feedback: final(self).feedback, status: final(self).status, ..*old(self) }),
    {
        self.feedback.query.sort = sort_next(self.feedback.query.sort);
        self.feedback.query.page = 1;
        let mut msg: Vec<char> = Vec::new();
        push_str(&mut msg, "Feedback · sorting by ");
        push_str(&mut msg, sort_label(self.feedback.query.sort));
        self.status = string_of(msg.as_slice());
        self.reload_feedback()
    }

    /// Cycle the board's filter, back to its first page.
    pub fn cycle_feedback_filter(&mut self) -> (r: Option<Cmd>)
        ensures
            feedback_filter_cycled(*old(self), *final(self), r),
            final(self).feedback.query == (FeedbackQuery {
                kind: next_filter(old(self).feedback.query.kind),
                page: 1,
                ..old(self).feedback.query
            }),
            final(self).status@ == "Feedback · showing "@ + filter_word(final(self).feedback.query.kind),
            r == Some(Cmd::LoadFeedback(final(self).feedback.query)),
            final(self).feedback == (FeedbackState {
                query: final(self).feedback.query,
                loading: true,
                ..old(self).feedback
            }),
            *final(self) == (App { feedback: final(self).feedback, status: final(self).status, ..*old(self) }),
    {
        self.feedback.query.kind = filter_next(self.feedback.query.kind);
        self.feedback.query.page = 1;
        let mut msg: Vec<char> = Vec::new();
        push_str(&mut msg, "Feedback · showing ");
        push_str(&mut msg, filter_label(self.feedback.query.kind));
        self.status = string_of(msg.as_slice());
        self.reload_feedback()
    }

    /// Vote on the selected item; pressing the vote already cast retracts it.
    pub fn vote_selected_feedback(&mut self, value: i8) -> (r: Option<Cmd>)
        ensures
            feedback_voted(*old(self), value, *final(self), r),
            match old(self).feedback_selected_spec() {
                None => r is None && *final(self) == *old(self),
                Some(item) => {
                    let v = effective_vote(item.my_vote, value);
                    &&& r matches Some(Cmd::VoteFeedback { id, value: sent }) && id@ == item.id@
                        && sent == v
                    &&& final(self).status@ == (if v == 1 {
                        "Feedback · upvoting…"@
                    } else if v == -1 {
                        "Feedback · downvoting…"@
                    } else {
                        "Feedback · retracting vote…"@
                    })
                    &&& *final(self) == (App { status: final(self).status, ..*old(self) })
                },
            },
    {
        let (id, effective) = match self.feedback_selected() {
            Some(item) => (item.id.clone(), if item.my_vote == value {
                0i8
            } else {
                value
            }),
            None => {
                return None;
            },
        };
        if effective == 1 {
            self.set_status("Feedback · upvoting…");
        } else if effective == -1 {
            self.set_status("Feedback · downvoting…");
        } else {
            self.set_status("Feedback · retracting vote…");
        }
        Some(Cmd::VoteFeedback { id, value: effective })
    }

    /// Open the comment prompt for the selected item.
    #[verifier::rlimit(50)]
    pub fn open_feedback_comment(&mut self)
        ensures
            feedback_comment_opened(*old(self), *final(self)),
            match old(self).feedback_selected_spec() {
                None => final(self).status@ == "Select an item to comment on."@ && *final(self)
                    == (App { status: final(self).status, ..*old(self) }),
                Some(item) => {
                    &&& final(self).prompt matches Some(p) && p.kind matches PromptKind::FeedbackComment {
                        id,
                    } && id@ == item.id@ && p.title@ == "Comment on “"@ + clipped(item.title@, 40)
                        + "”"@ && p.draft.text@.len() == 0 && p.draft.cursor == 0
                    &&& final(self).status@ == "Comment · Enter post · Esc cancel"@
                    &&& *final(self) == (App {
                        prompt: final(self).prompt,
                        status: final(self).status,
                        ..*old(self)
                    })
                },
            },
    {
        let (id, title) = match self.feedback_selected() {
            Some(item) => {
                let mut t: Vec<char> = Vec::new();
                push_str(&mut t, "Comment on “");
                push_all(&mut t, &clip(&item.title, 40));
                push_str(&mut t, "”");
                (item.id.clone(), string_of(t.as_slice()))
            },
            None => {
                self.set_status("Select an item to comment on.");
                return;
            },
        };
        self.prompt = Some(
            Prompt { kind: PromptKind::FeedbackComment { id }, title, draft: Draft::new() },
        );
        self.set_status("Comment · Enter post · Esc cancel");
    }

    /// Open the first step of a new feedback item: its title.
    pub fn open_feedback_submit(&mut self, kind: FeedbackType)
        ensures
            feedback_submit_opened(*old(self), kind, *final(self)),
            (final(self).prompt matches Some(p) && p.kind == (PromptKind::FeedbackTitle { kind })
                && p.title@ == (match kind {
                FeedbackType::Bug => "New bug report — title"@,
                FeedbackType::Feature => "New feature request — title"@,
            }) && p.draft.text@.len() == 0 && p.draft.cursor == 0),
            final(self).status@ == "New feedback · Enter next · Esc cancel"@,
            *final(self) == (App { prompt: final(self).prompt, status: final(self).status, ..*old(self) }),
    {
        let title = match kind {
            FeedbackType::Bug => owned("New bug report — title"),
            FeedbackType::Feature => owned("New feature request — title"),
        };
        self.prompt = Some(Prompt { kind: PromptKind::FeedbackTitle { kind }, title, draft: Draft::new() });
        self.set_status("New feedback · Enter next · Esc cancel");
    }

    /// Open the second step of a new feedback item: its description.
    pub fn open_feedback_body(&mut self, kind: FeedbackType, title: String)
        ensures
            feedback_body_opened(*old(self), kind, title@, *final(self)),
            (final(self).prompt matches Some(p) && p.kind matches PromptKind::FeedbackBody {
                kind: k,
                title: t,
            } && k == kind && t@ == title@ && p.title@ == "Describe it — “"@ + clipped(title@, 34)
                + "”"@ && p.draft.text@.len() == 0 && p.draft.cursor == 0),
            final(self).status@ == "New feedback · Enter submit · Esc cancel"@,
            *final(self) == (App { prompt: final(self).prompt, status: final(self).status, ..*old(self) }),
    {
        let mut t: Vec<char> = Vec::new();
        push_str(&mut t, "Describe it — “");
        push_all(&mut t, &clip(&title, 34));
        push_str(&mut t, "”");
        let heading = string_of(t.as_slice());
        self.prompt = Some(
            Prompt { kind: PromptKind::FeedbackBody { kind, title }, title: heading, draft: Draft::new() },
        );
        self.set_status("New feedback · Enter submit · Esc cancel");
    }

    /// Take a page of the board from the server; `None` means the server
    /// has no board.
    pub fn set_feedback_page(&mut self, page: Option<FeedbackPage>)
        ensures
            FeedbackState::page_applied(old(self).feedback, final(self).feedback, page),
            *final(self) == (App { feedback: final(self).feedback, ..*old(self) }),
    {
        self.feedback.set_page(page);
    }

    /// Show the comments the server sent for item `id`.
    pub fn set_feedback_comments(&mut self, id: String, comments: Vec<FeedbackComment>)
        ensures
            final(self).feedback == (FeedbackState {
                detail_id: Some(id),
                comments,
                detail_scroll: 0,
                ..old(self).feedback
            }),
            *final(self) == (App { feedback: final(self).feedback, ..*old(self) }),
    {
        self.feedback.detail_id = Some(id);
        self.feedback.comments = comments;
        self.feedback.detail_scroll = 0;
    }

    /// Replace the board's copy of an item the server sent back, matched
    /// by id; an item not on the board is ignored.
    pub fn apply_feedback_item(&mut self, item: FeedbackItem)
        ensures
            final(self).feedback.items@.len() == old(self).feedback.items@.len(),
            (exists|i: int|
                0 <= i < old(self).feedback.items@.len() && old(self).feedback.items@[i].id@
                    == item.id@) ==> ({
                let k = choose|i: int|
                    0 <= i < old(self).feedback.items@.len() && old(self).feedback.items@[i].id@
                        == item.id@ && forall|j: int|
                        0 <= j < i ==> old(self).feedback.items@[j].id@ != item.id@;
                final(self).feedback.items@ == old(self).feedback.items@.update(k, item)
            }),
            !(exists|i: int|
                0 <= i < old(self).feedback.items@.len() && old(self).feedback.items@[i].id@
                    == item.id@) ==> final(self).feedback.items == old(self).feedback.items,
            final(self).feedback == (FeedbackState { items: final(self).feedback.items, ..old(self).feedback }),
            *final(self) == (App { feedback: final(self).feedback, ..*old(self) }),
    {
        let mut i: usize = 0;
        while i < self.feedback.items.len()
            invariant
                i <= self.feedback.items@.len(),
                self.feedback == old(self).feedback,
                *self == *old(self),
                forall|j: int| 0 <= j < i ==> self.feedback.items@[j].id@ != item.id@,
            decreases self.feedback.items.len() - i,
        {
            if self.feedback.items[i].id == item.id {
                proof {
                    let k = choose|k: int|
                        0 <= k < old(self).feedback.items@.len() && old(self).feedback.items@[k].id@
                            == item.id@ && forall|j: int|
                            0 <= j < k ==> old(self).feedback.items@[j].id@ != item.id@;
                    assert(0 <= i < old(self).feedback.items@.len() && old(self).feedback.items@[i as int].id@
                        == item.id@ && forall|j: int|
                        0 <= j < i ==> old(self).feedback.items@[j].id@ != item.id@);
                    if k < i {
                    } else if k > i {
                        assert(old(self).feedback.items@[i as int].id@ != item.id@);
                    }
                }
                self.feedback.items.set(i, item);
                return;
            }
            i = i + 1;
        }
    }

    /// The board's cursor.
    pub fn feedback_index(&self) -> (r: usize)
        ensures
            r == self.feedback.index,
    {
        self.feedback.index
    }

    /// The board's items.
    pub fn feedback_items(&self) -> (r: &Vec<FeedbackItem>)
        ensures
            r == &self.feedback.items,
    {
        &self.feedback.items
    }

    /// The word for the board's current sort.
    pub fn feedback_sort(&self) -> (r: &'static str)
        ensures
            r@ == sort_word(self.feedback.query.sort),
    {
        sort_label(self.feedback.query.sort)
    }
}

/// What opening the description step of new feedback does.
pub open spec fn feedback_body_opened(before: App, kind: FeedbackType, title: Seq<char>, after: App) -> bool {
    &&& ((after.prompt matches Some(p) && p.kind matches PromptKind::FeedbackBody {
                kind: k,
                title: t,
            } && k == kind && t@ == title && p.title@ == "Describe it — “"@ + clipped(title, 34)
                + "”"@ && p.draft.text@.len() == 0 && p.draft.cursor == 0))
    &&& (after.status@ == "New feedback · Enter submit · Esc cancel"@)
    &&& (after == (App { prompt: after.prompt, status: after.status, ..before }))
}

/// The board's cursor moved, and the selected item's detail is asked for unless it is already shown.
pub open spec fn feedback_moved(before: App, up: bool, after: App, r: Option<Cmd>) -> bool {
    &&& (after.feedback == before.feedback.moved(up))
    &&& (after == (App { feedback: after.feedback, ..before }))
    &&& (match after.feedback_selected_spec() {
                None => r is None,
                Some(item) => if (after.feedback.detail_id matches Some(d) && d@ == item.id@) {
                    r is None
                } else {
                    r matches Some(Cmd::LoadFeedbackDetail(id)) && id@ == item.id@
                },
            })
}

/// The board is asked for again with its current query.
pub open spec fn feedback_reloaded(before: App, after: App, r: Option<Cmd>) -> bool {
    &&& (r == Some(Cmd::LoadFeedback(before.feedback.query)))
    &&& (after.feedback == (FeedbackState { loading: true, ..before.feedback }))
    &&& (after == (App { feedback: after.feedback, ..before }))
}

/// The board's sort moved to the next one and its first page is asked for.
pub open spec fn feedback_sort_cycled(before: App, after: App, r: Option<Cmd>) -> bool {
    &&& (after.feedback.query == (FeedbackQuery {
                sort: next_sort(before.feedback.query.sort),
                page: 1,
                ..before.feedback.query
            }))
    &&& (after.feedback.loading)
    &&& (after.status@ == "Feedback · sorting by "@ + sort_word(after.feedback.query.sort))
    &&& (r == Some(Cmd::LoadFeedback(after.feedback.query)))
    &&& (after.feedback == (FeedbackState {
                query: after.feedback.query,
                loading: true,
                ..before.feedback
            }))
    &&& (after == (App { feedback: after.feedback, status: after.status, ..before }))
}

/// The board's filter moved to the next one and its first page is asked for.
pub open spec fn feedback_filter_cycled(before: App, after: App, r: Option<Cmd>) -> bool {
    &&& (after.feedback.query == (FeedbackQuery {
                kind: next_filter(before.feedback.query.kind),
                page: 1,
                ..before.feedback.query
            }))
    &&& (after.status@ == "Feedback · showing "@ + filter_word(after.feedback.query.kind))
    &&& (r == Some(Cmd::LoadFeedback(after.feedback.query)))
    &&& (after.feedback == (FeedbackState {
                query: after.feedback.query,
                loading: true,
                ..before.feedback
            }))
    &&& (after == (App { feedback: after.feedback, status: after.status, ..before }))
}

/// A vote of `value` on the selected item is sent, or taken back when it repeats the standing vote.
pub open spec fn feedback_voted(before: App, value: i8, after: App, r: Option<Cmd>) -> bool {
    &&& (match before.feedback_selected_spec() {
                None => r is None && after == before,
                Some(item) => {
                    let v = effective_vote(item.my_vote, value);
                    &&& r matches Some(Cmd::VoteFeedback { id, value: sent }) && id@ == item.id@
                        && sent == v
                    &&& after.status@ == (if v == 1 {
                        "Feedback · upvoting…"@
                    } else if v == -1 {
                        "Feedback · downvoting…"@
                    } else {
                        "Feedback · retracting vote…"@
                    })
                    &&& after == (App { status: after.status, ..before })
                },
            })
}

/// The comment prompt opened for the selected item, or the status line says to select one.
pub open spec fn feedback_comment_opened(before: App, after: App) -> bool {
    &&& (match before.feedback_selected_spec() {
                None => after.status@ == "Select an item to comment on."@ && after
                    == (App { status: after.status, ..before }),
                Some(item) => {
                    &&& after.prompt matches Some(p) && p.kind matches PromptKind::FeedbackComment {
                        id,
                    } && id@ == item.id@ && p.title@ == "Comment on “"@ + clipped(item.title@, 40)
                        + "”"@ && p.draft.text@.len() == 0 && p.draft.cursor == 0
                    &&& after.status@ == "Comment · Enter post · Esc cancel"@
                    &&& after == (App {
                        prompt: after.prompt,
                        status: after.status,
                        ..before
                    })
                },
            })
}

/// The prompt for a new item's title opened.
pub open spec fn feedback_submit_opened(before: App, kind: FeedbackType, after: App) -> bool {
    &&& ((after.prompt matches Some(p) && p.kind == (PromptKind::FeedbackTitle { kind })
                && p.title@ == (match kind {
                FeedbackType::Bug => "New bug report — title"@,
                FeedbackType::Feature => "New feature request — title"@,
            }) && p.draft.text@.len() == 0 && p.draft.cursor == 0))
    &&& (after.status@ == "New feedback · Enter next · Esc cancel"@)
    &&& (after == (App { prompt: after.prompt, status: after.status, ..before }))
}

} // verus!
