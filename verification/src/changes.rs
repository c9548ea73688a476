//! The Changes review: which baseline the diff is taken from, the file and
//! line cursor over the selected patch, and its hunks.
use vstd::prelude::*;

use crate::git::{ChangedFile, GitCommit};
use crate::text::{decimal, decimal_of, push_all, push_str, string_of, utf8_len};

verus! {

/// One hunk of a patch: its `@@` header line and the line after its last.
#[derive(Clone, Copy, Debug, PartialEq, Eq, Structural)]
pub struct Hunk {
    pub header: usize,
    pub end: usize,
}

impl Hunk {
    /// Whether `line` lies inside this hunk.
    pub open spec fn contains_spec(&self, line: int) -> bool {
        self.header <= line < self.end
    }

    /// Whether `line` lies inside this hunk.
    pub fn contains(&self, line: usize) -> (r: bool)
        ensures
            r == self.contains_spec(line as int),
    {
        self.header <= line && line < self.end
    }
}

/// What a review comment is attached to.
#[derive(Clone, Copy, Debug, PartialEq, Eq, Structural)]
pub enum CommentAnchor {
    File,
    Hunk(usize),
    Line(usize),
}

/// How the active comparison baseline was chosen.
#[derive(Clone, Copy, Debug, PartialEq, Eq, Structural)]
pub enum BaselineSource {
    AppLaunch,
    HarnessLaunch,
    Commit,
    Manual,
}

/// A review note on one path.
pub struct ReviewComment {
    pub path: Vec<u8>,
    pub anchor: CommentAnchor,
    pub body: String,
    pub outdated: bool,
}

/// Whether a patch line opens a hunk.
pub open spec fn is_header(line: Seq<char>) -> bool {
    line.len() >= 2 && line[0] == '@' && line[1] == '@'
}

/// The index of the first hunk header at or after `i`, or `lines.len()`.
pub open spec fn next_header(lines: Seq<Seq<char>>, i: int) -> int
    decreases lines.len() - i,
{
    if i >= lines.len() {
        lines.len() as int
    } else if is_header(lines[i]) {
        i
    } else {
        next_header(lines, i + 1)
    }
}

/// The hunks of `lines` from `i` on: each header up to the next one.
pub open spec fn hunks_from(lines: Seq<Seq<char>>, i: int) -> Seq<Hunk>
    decreases lines.len() - i,
{
    if i < 0 || i >= lines.len() {
        Seq::empty()
    } else {
        let h = next_header(lines, i);
        if h >= lines.len() || h < i {
            Seq::empty()
        } else {
            let e = next_header(lines, h + 1);
            seq![Hunk { header: h as usize, end: e as usize }] + hunks_from(lines, h + 1)
        }
    }
}

proof fn lemma_next_header(lines: Seq<Seq<char>>, i: int)
    requires
        0 <= i <= lines.len(),
    ensures
        i <= next_header(lines, i) <= lines.len(),
        next_header(lines, i) < lines.len() ==> is_header(lines[next_header(lines, i)]),
        forall|k: int| i <= k < next_header(lines, i) ==> !is_header(#[trigger] lines[k]),
    decreases lines.len() - i,
{
    if i < lines.len() && !is_header(lines[i]) {
        lemma_next_header(lines, i + 1);
    }
}

/// The patch's lines as plain text.
pub open spec fn patch_view(patch: Seq<String>) -> Seq<Seq<char>> {
    patch.map_values(|l: String| l@)
}

/// Whether the line is a hunk header.
fn header_line(line: &String) -> (r: bool)
    ensures
        r == is_header(line@),
{
    let cs = crate::text::chars_of_string(line);
    cs.len() >= 2 && cs[0] == '@' && cs[1] == '@'
}

/// The first header at or after `i`.
fn find_header(patch: &Vec<String>, i: usize) -> (r: usize)
    requires
        i <= patch@.len(),
    ensures
        r == next_header(patch_view(patch@), i as int),
{
    let ghost v = patch_view(patch@);
    let mut k = i;
    while k < patch.len() && !header_line(&patch[k])
        invariant
            i <= k <= patch@.len(),
            v == patch_view(patch@),
            next_header(v, i as int) == next_header(v, k as int),
        decreases patch.len() - k,
    {
        assert(v[k as int] == patch@[k as int]@);
        k = k + 1;
    }
    proof {
        if k < patch.len() {
            assert(v[k as int] == patch@[k as int]@);
        }
    }
    k
}

/// The hunks of a patch: each `@@` header up to the next one.
pub fn hunks_of(patch: &Vec<String>) -> (r: Vec<Hunk>)
    ensures
        r@ == hunks_from(patch_view(patch@), 0),
{
    let ghost v = patch_view(patch@);
    let mut out: Vec<Hunk> = Vec::new();
    let mut i: usize = 0;
    while i < patch.len()
        invariant
            i <= patch@.len(),
            v == patch_view(patch@),
            hunks_from(v, 0) == out@ + hunks_from(v, i as int),
        decreases patch.len() - i,
    {
        let h = find_header(patch, i);
        proof {
            lemma_next_header(v, i as int);
        }
        if h >= patch.len() {
            i = patch.len();
            assert(hunks_from(v, i as int) == Seq::<Hunk>::empty());
        } else {
            let e = find_header(patch, h + 1);
            let ghost before = out@;
            out.push(Hunk { header: h, end: e });
            assert(out@ =~= before + seq![Hunk { header: h, end: e }]);
            i = h + 1;
        }
    }
    assert(out@ =~= out@ + Seq::<Hunk>::empty());
    out
}

/// The first hunk header after `cursor`.
pub open spec fn next_hunk_spec(hunks: Seq<Hunk>, cursor: int) -> Option<int> {
    if exists|i: int| 0 <= i < hunks.len() && hunks[i].header > cursor {
        Some(
            hunks[choose|i: int|
                0 <= i < hunks.len() && hunks[i].header > cursor && forall|j: int|
                    0 <= j < i ==> hunks[j].header <= cursor].header as int,
        )
    } else {
        None
    }
}

/// The last hunk header before `cursor`.
pub open spec fn previous_hunk_spec(hunks: Seq<Hunk>, cursor: int) -> Option<int> {
    if exists|i: int| 0 <= i < hunks.len() && hunks[i].header < cursor {
        Some(
            hunks[choose|i: int|
                0 <= i < hunks.len() && hunks[i].header < cursor && forall|j: int|
                    i < j < hunks.len() ==> hunks[j].header >= cursor].header as int,
        )
    } else {
        None
    }
}

/// The first hunk header after `cursor`.
pub fn next_hunk(hunks: &Vec<Hunk>, cursor: usize) -> (r: Option<usize>)
    ensures
        match r {
            Some(l) => next_hunk_spec(hunks@, cursor as int) == Some(l as int),
            None => next_hunk_spec(hunks@, cursor as int) is None,
        },
{
    let mut i: usize = 0;
    while i < hunks.len()
        invariant
            i <= hunks@.len(),
            forall|j: int| 0 <= j < i ==> hunks@[j].header <= cursor,
        decreases hunks.len() - i,
    {
        if hunks[i].header > cursor {
            proof {
                let c = choose|c: int|
                    0 <= c < hunks@.len() && hunks@[c].header > cursor && forall|j: int|
                        0 <= j < c ==> hunks@[j].header <= cursor;
                assert(0 <= i < hunks@.len() && hunks@[i as int].header > cursor && forall|j: int|
                    0 <= j < i ==> hunks@[j].header <= cursor);
                if c > i {
                    assert(hunks@[i as int].header <= cursor);
                }
            }
            return Some(hunks[i].header);
        }
        i = i + 1;
    }
    None
}

/// The last hunk header before `cursor`.
pub fn previous_hunk(hunks: &Vec<Hunk>, cursor: usize) -> (r: Option<usize>)
    ensures
        match r {
            Some(l) => previous_hunk_spec(hunks@, cursor as int) == Some(l as int),
            None => previous_hunk_spec(hunks@, cursor as int) is None,
        },
{
    let mut i: usize = hunks.len();
    while i > 0
        invariant
            i <= hunks@.len(),
            forall|j: int| i <= j < hunks@.len() ==> hunks@[j].header >= cursor,
        decreases i,
    {
        i = i - 1;
        if hunks[i].header < cursor {
            proof {
                let c = choose|c: int|
                    0 <= c < hunks@.len() && hunks@[c].header < cursor && forall|j: int|
                        c < j < hunks@.len() ==> hunks@[j].header >= cursor;
                assert(0 <= i < hunks@.len() && hunks@[i as int].header < cursor && forall|j: int|
                    i < j < hunks@.len() ==> hunks@[j].header >= cursor);
                if c < i {
                    assert(hunks@[i as int].header >= cursor);
                }
            }
            return Some(hunks[i].header);
        }
    }
    None
}

/// `index` moved by `delta`, floored at 0 and capped at `last`.
pub open spec fn moved(index: int, delta: int, last: int) -> int {
    let raw = if index + delta < 0 {
        0
    } else if index + delta > usize::MAX {
        usize::MAX as int
    } else {
        index + delta
    };
    if raw < last {
        raw
    } else {
        last
    }
}

/// `index` moved by `delta` without wrapping, capped at `last`.
pub fn move_clamped(index: usize, delta: isize, last: usize) -> (r: usize)
    ensures
        r == moved(index as int, delta as int, last as int),
{
    let raw = if delta < 0 {
        let back: usize = (-(delta + 1)) as usize + 1;
        index.saturating_sub(back)
    } else {
        index.saturating_add(delta as usize)
    };
    if raw < last {
        raw
    } else {
        last
    }
}

/// An object id abbreviated to its first seven bytes, or whole when it is
/// shorter or seven bytes would split a character.
pub open spec fn short_id_spec(id: Seq<char>) -> Seq<char> {
    if exists|k: int| 0 <= k <= id.len() && utf8_len(id.take(k)) == 7 {
        id.take(choose|k: int| 0 <= k <= id.len() && utf8_len(id.take(k)) == 7)
    } else {
        id
    }
}

/// Longer prefixes take more bytes.
proof fn lemma_utf8_prefix_monotone(s: Seq<char>)
    ensures
        forall|a: int, b: int|
            0 <= a < b <= s.len() ==> utf8_len(#[trigger] s.take(a)) < utf8_len(#[trigger] s.take(b)),
{
    assert forall|a: int, b: int| 0 <= a < b <= s.len() implies utf8_len(#[trigger] s.take(a)) < utf8_len(#[trigger] s.take(b)) by {
        assert(s.take(b) =~= s.take(a) + s.subrange(a, b));
        crate::text::lemma_utf8_len_add(s.take(a), s.subrange(a, b));
        crate::text::lemma_utf8_len_bounds(s.subrange(a, b));
    }
}

/// The first seven bytes of `id` when they end on a character boundary,
/// else `id` whole.
pub fn short_id_of(id: &String) -> (r: String)
    ensures
        r@ == short_id_spec(id@),
{
    let cs = crate::text::chars_of_string(id);
    let mut k: usize = 0;
    let mut bytes: usize = 0;
    while k < cs.len() && bytes < 7
        invariant
            k <= cs@.len(),
            bytes == utf8_len(cs@.take(k as int)),
            bytes <= 10,
            forall|j: int| 0 <= j < k ==> utf8_len(cs@.take(j)) < 7,
        decreases cs.len() - k,
    {
        proof {
            crate::text::lemma_utf8_len_add(cs@.take(k as int), seq![cs@[k as int]]);
            assert(cs@.take(k + 1) =~= cs@.take(k as int) + seq![cs@[k as int]]);
            reveal_with_fuel(utf8_len, 2);
        }
        bytes = bytes + crate::text::width_of(cs[k]);
        k = k + 1;
    }
    proof {
        lemma_utf8_prefix_monotone(cs@);
    }
    if bytes == 7 {
        proof {
            let w = choose|w: int| 0 <= w <= cs@.len() && utf8_len(cs@.take(w)) == 7;
            if w < k {
                assert(utf8_len(cs@.take(w)) < 7);
            } else if w > k {
                assert(utf8_len(cs@.take(k as int)) < utf8_len(cs@.take(w)));
            }
        }
        let mut out: Vec<char> = Vec::new();
        let mut j: usize = 0;
        while j < k
            invariant
                j <= k <= cs@.len(),
                out@ == cs@.take(j as int),
            decreases k - j,
        {
            out.push(cs[j]);
            j = j + 1;
            assert(out@ =~= cs@.take(j as int));
        }
        string_of(out.as_slice())
    } else {
        proof {
            assert forall|w: int| 0 <= w <= cs@.len() implies utf8_len(cs@.take(w)) != 7 by {
                if w < k {
                } else if w > k {
                    assert(utf8_len(cs@.take(k as int)) < utf8_len(cs@.take(w)));
                }
            }
        }
        id.clone()
    }
}

/// Cached repository data and navigation for the Changes review.
pub struct GitChangesState {
    /// Repository root the review reads, byte for byte.
    pub root: Option<Vec<u8>>,
    /// Commit the diff is taken from.
    pub baseline: Option<String>,
    /// How [`baseline`](Self::baseline) was chosen.
    pub baseline_source: BaselineSource,
    /// Harness launch commit available as the quick-reset baseline.
    pub harness_baseline: Option<String>,
    /// Repository of the harness whose launch snapshot is tracked.
    pub harness_root: Option<Vec<u8>>,
    /// Recent history offered by the baseline picker.
    pub recent_commits: Vec<GitCommit>,
    /// Whether the baseline picker has the keyboard.
    pub picking_baseline: bool,
    /// Highlighted picker row: launch, commits, then manual.
    pub baseline_index: usize,
    /// Commits made after the baseline, newest first.
    pub commits: Vec<String>,
    /// Paths changed since the baseline.
    pub files: Vec<ChangedFile>,
    /// Highlighted file.
    pub selected: usize,
    /// Highlighted patch line; the anchor for comments.
    pub cursor: usize,
    /// Hunks of the selected patch.
    pub hunks: Vec<Hunk>,
    /// Vertical offset into the selected patch.
    pub scroll: usize,
    /// Patch text of the selected file.
    pub patch: Vec<String>,
    /// Review notes kept for this session.
    pub comments: Vec<ReviewComment>,
    /// Last repository error, shown instead of an empty view.
    pub error: Option<String>,
}

/// The picker's words for how a baseline was chosen.
pub open spec fn source_word(source: BaselineSource) -> Seq<char> {
    match source {
        BaselineSource::AppLaunch => "app launch"@,
        BaselineSource::HarnessLaunch => "harness launch"@,
        BaselineSource::Commit => "commit"@,
        BaselineSource::Manual => "manual"@,
    }
}

/// The baseline as the review labels it: how it was chosen, then its short id.
pub open spec fn baseline_label_spec(source: BaselineSource, baseline: Option<String>) -> Seq<char> {
    source_word(source) + " · "@ + match baseline {
        Some(id) => short_id_spec(id@),
        None => "none"@,
    }
}

/// The review's one-line summary.
pub open spec fn summary_spec(
    label: Seq<char>,
    commits: int,
    files: int,
    comments: int,
) -> Seq<char> {
    "Diff from "@ + label + " · "@ + decimal(commits as nat) + " commit(s) · "@ + decimal(
        files as nat,
    ) + " file(s) · "@ + decimal(comments as nat) + " comment(s)"@
}

impl GitChangesState {
    /// An empty review with no repository.
    pub fn new() -> (r: GitChangesState)
        ensures
            r.root is None,
            r.baseline is None,
            r.baseline_source == BaselineSource::AppLaunch,
            r.harness_baseline is None,
            r.harness_root is None,
            r.recent_commits@.len() == 0,
            !r.picking_baseline,
            r.baseline_index == 0,
            r.commits@.len() == 0,
            r.files@.len() == 0,
            r.selected == 0,
            r.cursor == 0,
            r.hunks@.len() == 0,
            r.scroll == 0,
            r.patch@.len() == 0,
            r.comments@.len() == 0,
            r.error is None,
    {
        GitChangesState {
            root: None,
            baseline: None,
            baseline_source: BaselineSource::AppLaunch,
            harness_baseline: None,
            harness_root: None,
            recent_commits: Vec::new(),
            picking_baseline: false,
            baseline_index: 0,
            commits: Vec::new(),
            files: Vec::new(),
            selected: 0,
            cursor: 0,
            hunks: Vec::new(),
            scroll: 0,
            patch: Vec::new(),
            comments: Vec::new(),
            error: None,
        }
    }

    /// The review captured at start: the repository and commit that
    /// discovery found, with nothing loaded yet, or the reason there is none.
    /// The caller refreshes a captured review.
    pub fn captured(discovered: Result<(Vec<u8>, String), String>) -> (r: GitChangesState)
        ensures
            match discovered {
                Ok((root, baseline)) => r == (GitChangesState {
                    root: Some(root),
                    baseline: Some(baseline),
                    ..r
                }) && r.error is None,
                Err(e) => r.root is None && r.baseline is None && r.error == Some(e),
            },
            r.baseline_source == BaselineSource::AppLaunch,
            r.harness_baseline is None && r.harness_root is None,
            r.recent_commits@.len() == 0 && r.commits@.len() == 0 && r.files@.len() == 0,
            r.patch@.len() == 0 && r.hunks@.len() == 0 && r.comments@.len() == 0,
            !r.picking_baseline && r.baseline_index == 0,
            r.selected == 0 && r.cursor == 0 && r.scroll == 0,
    {
        let mut state = GitChangesState::new();
        match discovered {
            Ok((root, baseline)) => {
                state.root = Some(root);
                state.baseline = Some(baseline);
            },
            Err(e) => {
                state.error = Some(e);
            },
        }
        state
    }

    /// Take in what reloading the repository read: the commits since the
    /// baseline, the recent history and the changed files, keeping the
    /// selection on a file; or record why it could not be read, keeping the
    /// last review. The caller then reloads the selected file's patch.
    pub fn apply_load(&mut self, loaded: Result<(Vec<String>, Vec<GitCommit>, Vec<ChangedFile>), String>)
        ensures
            match loaded {
                Ok((commits, recent, files)) => *final(self) == (GitChangesState {
                    commits,
                    recent_commits: recent,
                    files,
                    selected: if old(self).selected as int >= files@.len() && files@.len() > 0 {
                        (files@.len() - 1) as usize
                    } else if files@.len() == 0 {
                        0
                    } else {
                        old(self).selected
                    },
                    error: None,
                    ..*old(self)
                }),
                Err(e) => *final(self) == (GitChangesState { error: Some(e), ..*old(self) }),
            },
    {
        match loaded {
            Ok((commits, recent, files)) => {
                let n = files.len();
                self.commits = commits;
                self.recent_commits = recent;
                self.files = files;
                if n == 0 {
                    self.selected = 0;
                } else if self.selected >= n {
                    self.selected = n - 1;
                }
                self.error = None;
            },
            Err(e) => {
                self.error = Some(e);
            },
        }
    }

    /// Display label for the active baseline.
    pub fn baseline_label(&self) -> (r: String)
        ensures
            r@ == baseline_label_spec(self.baseline_source, self.baseline),
    {
        let mut out: Vec<char> = Vec::new();
        match self.baseline_source {
            BaselineSource::AppLaunch => push_str(&mut out, "app launch"),
            BaselineSource::HarnessLaunch => push_str(&mut out, "harness launch"),
            BaselineSource::Commit => push_str(&mut out, "commit"),
            BaselineSource::Manual => push_str(&mut out, "manual"),
        }
        push_str(&mut out, " · ");
        match &self.baseline {
            Some(id) => {
                let short = short_id_of(id);
                push_str(&mut out, short.as_str());
            },
            None => push_str(&mut out, "none"),
        }
        string_of(out.as_slice())
    }

    /// The review's summary, or the last repository error.
    pub fn status_message(&self) -> (r: String)
        ensures
            match self.error {
                Some(e) => r@ == e@,
                None => r@ == summary_spec(
                    baseline_label_spec(self.baseline_source, self.baseline),
                    self.commits@.len() as int,
                    self.files@.len() as int,
                    self.comments@.len() as int,
                ),
            },
    {
        match &self.error {
            Some(e) => e.clone(),
            None => {
                let mut out: Vec<char> = Vec::new();
                push_str(&mut out, "Diff from ");
                let label = self.baseline_label();
                push_str(&mut out, label.as_str());
                push_str(&mut out, " · ");
                push_all(&mut out, &decimal_of(self.commits.len()));
                push_str(&mut out, " commit(s) · ");
                push_all(&mut out, &decimal_of(self.files.len()));
                push_str(&mut out, " file(s) · ");
                push_all(&mut out, &decimal_of(self.comments.len()));
                push_str(&mut out, " comment(s)");
                string_of(out.as_slice())
            },
        }
    }

    /// Number of rows in the launch/commit/manual baseline picker.
    pub fn baseline_option_count(&self) -> (r: usize)
        requires
            self.recent_commits@.len() + 2 <= usize::MAX,
        ensures
            r == self.recent_commits@.len() + 2,
    {
        self.recent_commits.len() + 2
    }

    /// Move the picker highlight by `delta` without wrapping.
    pub fn move_baseline_selection(&mut self, delta: isize)
        requires
            old(self).recent_commits@.len() + 2 <= usize::MAX,
        ensures
            final(self).baseline_index == moved(
                old(self).baseline_index as int,
                delta as int,
                old(self).recent_commits@.len() + 1int,
            ),
            *final(self) == (GitChangesState { baseline_index: final(self).baseline_index, ..*old(self) }),
    {
        let last = self.baseline_option_count() - 1;
        self.baseline_index = move_clamped(self.baseline_index, delta, last);
    }

    /// Move the file selection by `delta`, starting the new file's review at
    /// its top. The caller reloads the patch that comes into view.
    pub fn select_file(&mut self, delta: isize)
        ensures
            final(self).selected == moved(
                old(self).selected as int,
                delta as int,
                if old(self).files@.len() > 0 {
                    old(self).files@.len() - 1
                } else {
                    0
                },
            ),
            *final(self) == (GitChangesState {
                selected: final(self).selected,
                scroll: 0,
                cursor: 0,
                ..*old(self)
            }),
    {
        let last = if self.files.len() > 0 {
            self.files.len() - 1
        } else {
            0
        };
        self.selected = move_clamped(self.selected, delta, last);
        self.scroll = 0;
        self.cursor = 0;
    }

    /// Move the line cursor by `delta`, clamped to the patch.
    pub fn move_cursor(&mut self, delta: isize)
        ensures
            final(self).cursor == moved(
                old(self).cursor as int,
                delta as int,
                if old(self).patch@.len() > 0 {
                    old(self).patch@.len() - 1
                } else {
                    0
                },
            ),
            *final(self) == (GitChangesState { cursor: final(self).cursor, ..*old(self) }),
    {
        let last = if self.patch.len() > 0 {
            self.patch.len() - 1
        } else {
            0
        };
        self.cursor = move_clamped(self.cursor, delta, last);
    }

    /// Jump the cursor to the next or previous hunk header; `false`, with
    /// the cursor left alone, when there is none in that direction.
    pub fn jump_hunk(&mut self, forward: bool) -> (r: bool)
        ensures
            ({
                let target = if forward {
                    next_hunk_spec(old(self).hunks@, old(self).cursor as int)
                } else {
                    previous_hunk_spec(old(self).hunks@, old(self).cursor as int)
                };
                &&& r == target is Some
                &&& match target {
                    Some(l) => *final(self) == (GitChangesState { cursor: l as usize, ..*old(self) }),
                    None => *final(self) == *old(self),
                }
            }),
    {
        let target = if forward {
            next_hunk(&self.hunks, self.cursor)
        } else {
            previous_hunk(&self.hunks, self.cursor)
        };
        match target {
            Some(line) => {
                self.cursor = line;
                true
            },
            None => false,
        }
    }

    /// Index of the first hunk containing the cursor, if any does.
    pub fn hunk_at_cursor(&self) -> (r: Option<usize>)
        ensures
            match r {
                Some(i) => i < self.hunks@.len() && self.hunks@[i as int].contains_spec(
                    self.cursor as int,
                ) && forall|j: int|
                    0 <= j < i ==> !self.hunks@[j].contains_spec(self.cursor as int),
                None => forall|j: int|
                    0 <= j < self.hunks@.len() ==> !self.hunks@[j].contains_spec(
                        self.cursor as int,
                    ),
            },
    {
        let mut i: usize = 0;
        while i < self.hunks.len()
            invariant
                i <= self.hunks@.len(),
                forall|j: int| 0 <= j < i ==> !self.hunks@[j].contains_spec(self.cursor as int),
            decreases self.hunks.len() - i,
        {
            if self.hunks[i].contains(self.cursor) {
                return Some(i);
            }
            i = i + 1;
        }
        None
    }

    /// The anchor the cursor addresses: the whole file for an empty patch,
    /// a hunk when the cursor rests on its header, else the single line.
    pub fn cursor_anchor(&self) -> (r: CommentAnchor)
        ensures
            self.patch@.len() == 0 ==> r == CommentAnchor::File,
            self.patch@.len() > 0 ==> (r == CommentAnchor::Line(self.cursor) || (r matches CommentAnchor::Hunk(
                i,
            ) && i < self.hunks@.len() && self.hunks@[i as int].header == self.cursor
                && self.hunks@[i as int].contains_spec(self.cursor as int) && forall|j: int|
                0 <= j < i ==> !self.hunks@[j].contains_spec(self.cursor as int))),
            self.patch@.len() > 0 && r == CommentAnchor::Line(self.cursor) ==> forall|i: int|
                0 <= i < self.hunks@.len() && self.hunks@[i].contains_spec(self.cursor as int)
                    && (forall|j: int| 0 <= j < i ==> !self.hunks@[j].contains_spec(self.cursor as int))
                    ==> self.hunks@[i].header != self.cursor,
    {
        if self.patch.len() == 0 {
            return CommentAnchor::File;
        }
        match self.hunk_at_cursor() {
            Some(index) => {
                if self.hunks[index].header == self.cursor {
                    CommentAnchor::Hunk(index)
                } else {
                    proof {
                        assert forall|i: int|
                            0 <= i < self.hunks@.len() && self.hunks@[i].contains_spec(self.cursor as int)
                                && (forall|j: int| 0 <= j < i ==> !self.hunks@[j].contains_spec(self.cursor as int))
                                implies self.hunks@[i].header != self.cursor by {
                            if i < index {
                            } else if i > index {
                                assert(!self.hunks@[index as int].contains_spec(self.cursor as int));
                            }
                        }
                    }
                    CommentAnchor::Line(self.cursor)
                }
            },
            None => CommentAnchor::Line(self.cursor),
        }
    }

    /// The selected file's path, if a file is selected.
    pub fn selected_path(&self) -> (r: Option<&Vec<u8>>)
        ensures
            match r {
                Some(p) => self.selected < self.files@.len() && *p == self.files@[self.selected as int].path,
                None => self.selected >= self.files@.len(),
            },
    {
        if self.selected < self.files.len() {
            Some(&self.files[self.selected].path)
        } else {
            None
        }
    }

    /// Install a freshly read patch for the selected file: re-index its
    /// hunks, clamp the cursor into it, and keep the scroll position.
    pub fn apply_patch(&mut self, patch: Vec<String>)
        ensures
            final(self).patch@ == patch@,
            final(self).hunks@ == hunks_from(patch_view(patch@), 0),
            final(self).error is None,
            final(self).cursor == min_usize(
                old(self).cursor as int,
                if patch@.len() > 0 {
                    patch@.len() - 1
                } else {
                    0
                },
            ),
            comments_rechecked(*old(self), patch_view(patch@), final(self).hunks@.len() as int, final(self).comments@),
            *final(self) == (GitChangesState {
                patch: final(self).patch,
                hunks: final(self).hunks,
                error: None,
                cursor: final(self).cursor,
                comments: final(self).comments,
                ..*old(self)
            }),
    {
        let changed = !same_lines(&self.patch, &patch);
        self.hunks = hunks_of(&patch);
        let last = if patch.len() > 0 {
            patch.len() - 1
        } else {
            0
        };
        self.patch = patch;
        self.error = None;
        if self.cursor > last {
            self.cursor = last;
        }
        if changed && self.selected < self.files.len() {
            self.mark_outdated();
        }
    }

    /// Mark outdated every comment on the selected path whose anchor the
    /// current patch no longer has.
    fn mark_outdated(&mut self)
        requires
            old(self).selected < old(self).files@.len(),
        ensures
            final(self).comments@.len() == old(self).comments@.len(),
            forall|k: int|
                0 <= k < old(self).comments@.len() ==> comment_rechecked(
                    old(self).comments@[k],
                    #[trigger] final(self).comments@[k],
                    old(self).files@[old(self).selected as int].path@,
                    old(self).patch@.len() as int,
                    old(self).hunks@.len() as int,
                ),
            *final(self) == (GitChangesState { comments: final(self).comments, ..*old(self) }),
    {
        let ghost start = self.comments@;
        let mut k: usize = 0;
        while k < self.comments.len()
            invariant
                k <= self.comments@.len(),
                self.comments@.len() == start.len(),
                self.selected < self.files@.len(),
                forall|j: int|
                    0 <= j < k ==> comment_rechecked(
                        start[j],
                        #[trigger] self.comments@[j],
                        self.files@[self.selected as int].path@,
                        self.patch@.len() as int,
                        self.hunks@.len() as int,
                    ),
                forall|j: int| k <= j < start.len() ==> #[trigger] self.comments@[j] == start[j],
                *self == (GitChangesState { comments: self.comments, ..*old(self) }),
            decreases start.len() - k,
        {
            let valid = match self.comments[k].anchor {
                CommentAnchor::File => true,
                CommentAnchor::Hunk(h) => h < self.hunks.len(),
                CommentAnchor::Line(l) => l < self.patch.len(),
            };
            let here = same_bytes(&self.comments[k].path, &self.files[self.selected].path);
            if here && !valid {
                let c = &self.comments[k];
                let nc = ReviewComment { path: copy_bytes(&c.path), anchor: c.anchor, body: c.body.clone(), outdated: true };
                self.comments.set(k, nc);
            }
            k = k + 1;
        }
    }

    /// Reset the review position to the top of the first file.
    fn reset_position(&mut self)
        ensures
            *final(self) == (GitChangesState { selected: 0, cursor: 0, scroll: 0, ..*old(self) }),
    {
        self.selected = 0;
        self.cursor = 0;
        self.scroll = 0;
    }

    /// Activate a baseline revision the repository resolved (`resolved`),
    /// or report why there is none. The caller refreshes after `Ok`.
    pub fn choose_baseline(&mut self, resolved: Result<String, String>, source: BaselineSource) -> (r: Result<(), String>)
        ensures
            old(self).root is None ==> (r matches Err(e) && e@ == "No Git repository selected"@
                && *final(self) == *old(self)),
            old(self).root is Some ==> match resolved {
                Err(e) => (r matches Err(e2) && e2@ == e@ && *final(self) == *old(self)),
                Ok(commit) => r is Ok && *final(self) == (GitChangesState {
                    baseline: Some(commit),
                    baseline_source: source,
                    picking_baseline: false,
                    selected: 0,
                    cursor: 0,
                    scroll: 0,
                    ..*old(self)
                }),
            },
    {
        if self.root.is_none() {
            return Err(crate::app::owned("No Git repository selected"));
        }
        match resolved {
            Err(e) => Err(e),
            Ok(commit) => {
                self.baseline = Some(commit);
                self.baseline_source = source;
                self.picking_baseline = false;
                self.reset_position();
                Ok(())
            },
        }
    }

    /// Return to the harness's repository and launch commit. Comments are
    /// dropped when that is a different repository. The caller refreshes
    /// after `Ok`.
    pub fn choose_harness_baseline(&mut self) -> (r: Result<(), String>)
        ensures
            match (old(self).harness_root, old(self).harness_baseline) {
                (None, _) => r matches Err(e) && e@ == "No harness Git repository is available"@
                    && *final(self) == *old(self),
                (Some(_), None) => r matches Err(e) && e@
                    == "No harness launch snapshot is available"@ && *final(self) == *old(self),
                (Some(root), Some(b)) => {
                    &&& r is Ok
                    &&& bytes_view(final(self).root) == Some(root@)
                    &&& final(self).baseline == Some(b)
                    &&& final(self).comments@ == (if bytes_view(old(self).root) == Some(root@) {
                        old(self).comments@
                    } else {
                        Seq::<ReviewComment>::empty()
                    })
                    &&& *final(self) == (GitChangesState {
                        root: final(self).root,
                        baseline: final(self).baseline,
                        comments: final(self).comments,
                        baseline_source: BaselineSource::HarnessLaunch,
                        picking_baseline: false,
                        selected: 0,
                        cursor: 0,
                        scroll: 0,
                        ..*old(self)
                    })
                },
            },
    {
        let root = match &self.harness_root {
            Some(r) => r.clone(),
            None => {
                return Err(crate::app::owned("No harness Git repository is available"));
            },
        };
        let baseline = match &self.harness_baseline {
            Some(b) => b.clone(),
            None => {
                return Err(crate::app::owned("No harness launch snapshot is available"));
            },
        };
        let same = match &self.root {
            Some(current) => same_bytes(current, &root),
            None => false,
        };
        if !same {
            self.comments = Vec::new();
        }
        self.root = Some(root);
        self.baseline = Some(baseline);
        self.baseline_source = BaselineSource::HarnessLaunch;
        self.picking_baseline = false;
        self.reset_position();
        Ok(())
    }

    /// Follow a harness's launch snapshot: remember its repository (`root`,
    /// as discovered from the harness's directory; `None` when it is not in
    /// one) and launch commit, and switch to them while the baseline is
    /// still a launch snapshot and either differs.
    pub fn follow_harness(&mut self, root: Option<Vec<u8>>, launch_commit: &String)
        ensures
            match root {
                None => *final(self) == *old(self),
                Some(dir) => {
                    let switch = (old(self).baseline_source == BaselineSource::AppLaunch
                        || old(self).baseline_source == BaselineSource::HarnessLaunch) && (
                    bytes_view(old(self).root) != Some(dir@) || text_view(old(self).baseline)
                        != Some(launch_commit@));
                    &&& bytes_view(final(self).harness_root) == Some(dir@)
                    &&& text_view(final(self).harness_baseline) == Some(launch_commit@)
                    &&& switch ==> {
                        &&& bytes_view(final(self).root) == Some(dir@)
                        &&& text_view(final(self).baseline) == Some(launch_commit@)
                        &&& final(self).comments@.len() == 0
                        &&& *final(self) == (GitChangesState {
                            harness_root: final(self).harness_root,
                            harness_baseline: final(self).harness_baseline,
                            root: final(self).root,
                            baseline: final(self).baseline,
                            comments: final(self).comments,
                            baseline_source: BaselineSource::HarnessLaunch,
                            selected: 0,
                            cursor: 0,
                            scroll: 0,
                            ..*old(self)
                        })
                    }
                    &&& !switch ==> *final(self) == (GitChangesState {
                        harness_root: final(self).harness_root,
                        harness_baseline: final(self).harness_baseline,
                        ..*old(self)
                    })
                },
            },
    {
        let dir = match root {
            Some(d) => d,
            None => {
                return;
            },
        };
        let launch_mode = matches!(self.baseline_source, BaselineSource::AppLaunch)
            || matches!(self.baseline_source, BaselineSource::HarnessLaunch);
        let same_root = match &self.root {
            Some(current) => same_bytes(current, &dir),
            None => false,
        };
        let same_commit = match &self.baseline {
            Some(b) => *b == *launch_commit,
            None => false,
        };
        self.harness_root = Some(dir.clone());
        self.harness_baseline = Some(launch_commit.clone());
        if launch_mode && (!same_root || !same_commit) {
            self.root = Some(dir);
            self.baseline = Some(launch_commit.clone());
            self.baseline_source = BaselineSource::HarnessLaunch;
            self.reset_position();
            self.comments = Vec::new();
        }
    }
}

/// An optional byte string by its bytes.
pub open spec fn bytes_view(o: Option<Vec<u8>>) -> Option<Seq<u8>> {
    match o {
        Some(v) => Some(v@),
        None => None,
    }
}

/// An optional string by its characters.
pub open spec fn text_view(o: Option<String>) -> Option<Seq<char>> {
    match o {
        Some(v) => Some(v@),
        None => None,
    }
}

/// The smaller of two integers.
pub open spec fn min_usize(a: int, b: int) -> usize {
    if a <= b {
        a as usize
    } else {
        b as usize
    }
}

/// Whether two byte strings are equal.
pub fn same_bytes(a: &Vec<u8>, b: &Vec<u8>) -> (r: bool)
    ensures
        r == (a@ == b@),
{
    if a.len() != b.len() {
        return false;
    }
    let mut i: usize = 0;
    while i < a.len()
        invariant
            i <= a@.len(),
            a@.len() == b@.len(),
            forall|j: int| 0 <= j < i ==> a@[j] == b@[j],
        decreases a.len() - i,
    {
        if a[i] != b[i] {
            return false;
        }
        i = i + 1;
    }
    assert(a@ =~= b@);
    true
}

/// Whether a comment's anchor is still in a patch of `lines` lines and
/// `hunks` hunks.
pub open spec fn anchor_valid(a: CommentAnchor, lines: int, hunks: int) -> bool {
    match a {
        CommentAnchor::File => true,
        CommentAnchor::Hunk(h) => h < hunks,
        CommentAnchor::Line(l) => l < lines,
    }
}

/// Comment `c` became `d`: marked outdated when it is on `path` and its
/// anchor is gone from the patch, its path, anchor and text kept.
pub open spec fn comment_rechecked(c: ReviewComment, d: ReviewComment, path: Seq<u8>, lines: int, hunks: int) -> bool {
    &&& d.path@ == c.path@ && d.anchor == c.anchor && d.body@ == c.body@
    &&& d.outdated == (c.outdated || (c.path@ == path && !anchor_valid(c.anchor, lines, hunks)))
}

/// The comments after the patch `lines` (with `hunks` hunks) replaced the
/// selected file's: unchanged when the patch is the same or no file is
/// selected; otherwise each comment on the selected file whose anchor the
/// new patch no longer has is marked outdated.
pub open spec fn comments_rechecked(before: GitChangesState, lines: Seq<Seq<char>>, hunks: int, comments: Seq<ReviewComment>) -> bool {
    if patch_view(before.patch@) != lines && before.selected < before.files@.len() {
        comments.len() == before.comments@.len() && forall|k: int|
            0 <= k < comments.len() ==> comment_rechecked(
                before.comments@[k],
                #[trigger] comments[k],
                before.files@[before.selected as int].path@,
                lines.len() as int,
                hunks,
            )
    } else {
        comments == before.comments@
    }
}


/// Whether two patches hold the same lines.
fn same_lines(a: &Vec<String>, b: &Vec<String>) -> (r: bool)
    ensures
        r == (patch_view(a@) == patch_view(b@)),
{
    if a.len() != b.len() {
        assert(patch_view(a@).len() != patch_view(b@).len());
        return false;
    }
    let mut i: usize = 0;
    while i < a.len()
        invariant
            i <= a@.len(),
            a@.len() == b@.len(),
            forall|j: int| 0 <= j < i ==> a@[j]@ == b@[j]@,
        decreases a.len() - i,
    {
        if a[i] != b[i] {
            assert(patch_view(a@)[i as int] != patch_view(b@)[i as int]);
            return false;
        }
        i = i + 1;
    }
    assert(patch_view(a@) =~= patch_view(b@));
    true
}

/// A copy of `v`.
fn copy_bytes(v: &Vec<u8>) -> (r: Vec<u8>)
    ensures
        r@ == v@,
{
    let mut out: Vec<u8> = Vec::new();
    let mut i: usize = 0;
    while i < v.len()
        invariant
            i <= v@.len(),
            out@ == v@.take(i as int),
        decreases v.len() - i,
    {
        out.push(v[i]);
        i = i + 1;
        assert(out@ =~= v@.take(i as int));
    }
    assert(v@.take(v@.len() as int) =~= v@);
    out
}

} // verus!
