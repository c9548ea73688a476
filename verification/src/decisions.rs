//! The prepared-decision queue: decisions the runtime prepared for the
//! operator, minus the ones they dismissed, browsed in an overlay and
//! answered through the inline prompt.
use vstd::prelude::*;

use crate::app::{App, Prompt, PromptKind};
use crate::composer::Draft;
use crate::text::{decimal, push_str, string_of, with_count};

verus! {

/// A decision the runtime prepared.
pub struct DecisionItem {
    pub id: String,
    pub question: String,
    /// The `(cycle, question)` an answer goes to; `None` when the item can
    /// only be dismissed.
    pub answer_target: Option<(String, String)>,
}

/// Whether `id` is among the dismissed ids.
pub open spec fn is_dismissed(dismissed: Seq<String>, id: Seq<char>) -> bool {
    exists|i: int| 0 <= i < dismissed.len() && dismissed[i]@ == id
}

/// The pending decisions: the prepared ones not dismissed, in order.
#[verifier::opaque]
pub open spec fn pending(items: Seq<DecisionItem>, dismissed: Seq<String>) -> Seq<DecisionItem>
    decreases items.len(),
{
    if items.len() == 0 {
        Seq::empty()
    } else {
        let rest = pending(items.drop_last(), dismissed);
        if is_dismissed(dismissed, items.last().id@) {
            rest
        } else {
            rest.push(items.last())
        }
    }
}

/// The index of the pending decision under the cursor after clamping.
pub open spec fn clamp_index(index: usize, len: int) -> usize {
    if len == 0 {
        0
    } else if index < len - 1 {
        index
    } else {
        (len - 1) as usize
    }
}

/// Whether `id` is among the dismissed ids.
fn dismissed_has(dismissed: &Vec<String>, id: &String) -> (r: bool)
    ensures
        r == is_dismissed(dismissed@, id@),
{
    let mut i: usize = 0;
    while i < dismissed.len()
        invariant
            i <= dismissed@.len(),
            forall|j: int| 0 <= j < i ==> dismissed@[j]@ != id@,
        decreases dismissed.len() - i,
    {
        if dismissed[i] == *id {
            return true;
        }
        i = i + 1;
    }
    false
}

/// Count the pending decisions.
fn pending_count(items: &Vec<DecisionItem>, dismissed: &Vec<String>) -> (r: usize)
    ensures
        r == pending(items@, dismissed@).len(),
{
    let mut n: usize = 0;
    let mut i: usize = 0;
    proof {
        reveal(pending);
    }
    while i < items.len()
        invariant
            i <= items@.len(),
            n == pending(items@.take(i as int), dismissed@).len(),
            n <= i,
        decreases items.len() - i,
    {
        assert(items@.take(i + 1).drop_last() =~= items@.take(i as int));
        proof {
            reveal(pending);
        }
        if !dismissed_has(dismissed, &items[i].id) {
            n = n + 1;
        }
        i = i + 1;
    }
    assert(items@.take(items@.len() as int) =~= items@);
    n
}

impl DecisionItem {
    /// A copy of this decision.
    pub fn copy(&self) -> (r: DecisionItem)
        ensures
            r == *self,
    {
        DecisionItem {
            id: self.id.clone(),
            question: self.question.clone(),
            answer_target: match &self.answer_target {
                Some((c, q)) => Some((c.clone(), q.clone())),
                None => None,
            },
        }
    }
}

/// The pending decisions, copied out in order.
fn pending_items(items: &Vec<DecisionItem>, dismissed: &Vec<String>) -> (r: Vec<DecisionItem>)
    ensures
        r@ == pending(items@, dismissed@),
{
    let mut out: Vec<DecisionItem> = Vec::new();
    let mut i: usize = 0;
    proof {
        reveal(pending);
    }
    while i < items.len()
        invariant
            i <= items@.len(),
            out@ == pending(items@.take(i as int), dismissed@),
        decreases items.len() - i,
    {
        assert(items@.take(i + 1).drop_last() =~= items@.take(i as int));
        assert(items@.take(i + 1).last() == items@[i as int]);
        proof {
            reveal(pending);
        }
        if !dismissed_has(dismissed, &items[i].id) {
            out.push(items[i].copy());
        }
        i = i + 1;
    }
    assert(items@.take(items@.len() as int) =~= items@);
    out
}

/// The position in `items` of the `k`th pending decision.
fn pending_position(items: &Vec<DecisionItem>, dismissed: &Vec<String>, k: usize) -> (r: Option<usize>)
    ensures
        match r {
            Some(i) => i < items@.len() && k < pending(items@, dismissed@).len()
                && pending(items@, dismissed@)[k as int] == items@[i as int],
            None => k >= pending(items@, dismissed@).len(),
        },
{
    let mut seen: usize = 0;
    let mut i: usize = 0;
    proof {
        reveal(pending);
    }
    while i < items.len()
        invariant
            i <= items@.len(),
            seen == pending(items@.take(i as int), dismissed@).len(),
            seen <= k,
            seen <= i,
        decreases items.len() - i,
    {
        assert(items@.take(i + 1).drop_last() =~= items@.take(i as int));
        proof {
            reveal(pending);
            lemma_pending_prefix(items@, dismissed@, i as int + 1);
        }
        if !dismissed_has(dismissed, &items[i].id) {
            if seen == k {
                assert(pending(items@.take(i + 1), dismissed@)[k as int] == items@[i as int]);
                return Some(i);
            }
            seen = seen + 1;
        }
        i = i + 1;
    }
    assert(items@.take(items@.len() as int) =~= items@);
    None
}

/// The pending decisions of a prefix are a prefix of the pending decisions.
proof fn lemma_pending_prefix(items: Seq<DecisionItem>, dismissed: Seq<String>, n: int)
    requires
        0 <= n <= items.len(),
    ensures
        pending(items.take(n), dismissed).len() <= pending(items, dismissed).len(),
        forall|k: int|
            0 <= k < pending(items.take(n), dismissed).len() ==> #[trigger] pending(
                items.take(n),
                dismissed,
            )[k] == pending(items, dismissed)[k],
    decreases items.len() - n,
{
    reveal(pending);
    if n < items.len() {
        lemma_pending_prefix(items, dismissed, n + 1);
        assert(items.take(n + 1).drop_last() =~= items.take(n));
        assert(items.take(n + 1).last() == items[n]);
        let a = pending(items.take(n), dismissed);
        let b = pending(items.take(n + 1), dismissed);
        assert(b == a || b == a.push(items[n]));
        assert forall|k: int| 0 <= k < a.len() implies #[trigger] a[k] == pending(items, dismissed)[k] by {
            assert(a[k] == b[k]);
        }
    } else {
        assert(items.take(n) =~= items);
    }
}

/// The decision overlay's state: what the runtime prepared, what the
/// operator dismissed, and the cursor.
pub struct DecisionQueue {
    pub items: Vec<DecisionItem>,
    pub dismissed: Vec<String>,
    pub index: usize,
    pub open: bool,
}

/// What acting on the selected decision did.
pub enum DecisionAction {
    /// Nothing was selected; the overlay closed.
    Closed,
    /// The decision was dismissed; the status line says how many remain.
    Dismissed(String),
    /// The decision takes an answer: `(decision, cycle, question, question text)`.
    Answer(String, String, String, String),
}

impl DecisionQueue {
    /// An empty queue.
    pub fn new() -> (r: DecisionQueue)
        ensures
            r.items@.len() == 0,
            r.dismissed@.len() == 0,
            r.index == 0,
            !r.open,
    {
        DecisionQueue { items: Vec::new(), dismissed: Vec::new(), index: 0, open: false }
    }

    /// The pending decisions.
    pub open spec fn pending_spec(&self) -> Seq<DecisionItem> {
        pending(self.items@, self.dismissed@)
    }

    /// How many decisions are pending.
    pub fn count(&self) -> (r: usize)
        ensures
            r == self.pending_spec().len(),
    {
        pending_count(&self.items, &self.dismissed)
    }

    /// Open the overlay on a clamped cursor; returns the status line.
    pub fn open_queue(&mut self) -> (status: String)
        ensures
            status@ == (if old(self).pending_spec().len() == 0 {
                "No prepared decisions"@
            } else {
                "Decisions · "@ + decimal(old(self).pending_spec().len()) + " pending"@
            }),
            *final(self) == (if old(self).pending_spec().len() == 0 {
                *old(self)
            } else {
                DecisionQueue {
                    open: true,
                    index: clamp_index(old(self).index, old(self).pending_spec().len() as int),
                    ..*old(self)
                }
            }),
    {
        let count = self.count();
        if count == 0 {
            return crate::app::owned("No prepared decisions");
        }
        if self.index > count - 1 {
            self.index = count - 1;
        }
        self.open = true;
        with_count("Decisions · ", count, " pending")
    }

    /// Dismiss the selected decision, which never reappears.
    pub fn dismiss_selected(&mut self) -> (r: DecisionAction)
        ensures
            ({
                let pend = old(self).pending_spec();
                let k = old(self).index;
                if k >= pend.len() {
                    r is Closed && *final(self) == (DecisionQueue { open: false, ..*old(self) })
                } else {
                    let remaining = final(self).pending_spec().len();
                    &&& final(self).dismissed@ == old(self).dismissed@.push(pend[k as int].id)
                    &&& final(self).items == old(self).items
                    &&& final(self).index == clamp_index(k, remaining as int)
                    &&& final(self).open == (remaining > 0)
                    &&& r matches DecisionAction::Dismissed(status) && status@ == "Decision dismissed · "@
                        + decimal(remaining) + " pending"@
                }
            }),
    {
        let pos = pending_position(&self.items, &self.dismissed, self.index);
        let i = match pos {
            Some(i) => i,
            None => {
                self.open = false;
                return DecisionAction::Closed;
            },
        };
        let id = self.items[i].id.clone();
        self.dismissed.push(id);
        let remaining = self.count();
        if remaining == 0 {
            self.index = 0;
        } else if self.index > remaining - 1 {
            self.index = remaining - 1;
        }
        self.open = remaining > 0;
        DecisionAction::Dismissed(with_count("Decision dismissed · ", remaining, " pending"))
    }

    /// Act on the selected decision: dismiss it when it takes no answer,
    /// else close the overlay and hand back what the answer prompt needs.
    pub fn answer_or_dismiss(&mut self) -> (r: DecisionAction)
        ensures
            ({
                let pend = old(self).pending_spec();
                let k = old(self).index;
                if k >= pend.len() {
                    r is Closed && *final(self) == (DecisionQueue { open: false, ..*old(self) })
                } else {
                    match pend[k as int].answer_target {
                        None => {
                            let remaining = final(self).pending_spec().len();
                            &&& final(self).dismissed@ == old(self).dismissed@.push(pend[k as int].id)
                            &&& final(self).items == old(self).items
                            &&& final(self).index == clamp_index(k, remaining as int)
                            &&& final(self).open == (remaining > 0)
                            &&& r matches DecisionAction::Dismissed(status) && status@
                                == "Decision dismissed · "@ + decimal(remaining) + " pending"@
                        },
                        Some((c, q)) => {
                            &&& r matches DecisionAction::Answer(d, c2, q2, text) && d@ == pend[k as int].id@
                                && c2@ == c@ && q2@ == q@ && text@ == pend[k as int].question@
                            &&& *final(self) == (DecisionQueue { open: false, ..*old(self) })
                        },
                    }
                }
            }),
    {
        let pos = pending_position(&self.items, &self.dismissed, self.index);
        let i = match pos {
            Some(i) => i,
            None => {
                self.open = false;
                return DecisionAction::Closed;
            },
        };
        let (cycle, question) = match &self.items[i].answer_target {
            Some((c, q)) => (c.clone(), q.clone()),
            None => {
                return self.dismiss_selected();
            },
        };
        self.open = false;
        DecisionAction::Answer(
            self.items[i].id.clone(),
            cycle,
            question,
            self.items[i].question.clone(),
        )
    }
}

impl App {
    /// The pending decisions: the prepared ones not dismissed, in order.
    pub fn decisions(&self) -> (r: Vec<DecisionItem>)
        ensures
            r@ == self.decisions.pending_spec(),
    {
        pending_items(&self.decisions.items, &self.decisions.dismissed)
    }

    /// Open the decision overlay, or say there is nothing in it.
    pub fn open_decisions(&mut self)
        ensures
            decisions_opened(*old(self), *final(self)),
            final(self).status@ == (if old(self).decisions.pending_spec().len() == 0 {
                "No prepared decisions"@
            } else {
                "Decisions · "@ + decimal(old(self).decisions.pending_spec().len()) + " pending"@
            }),
            final(self).decisions == (if old(self).decisions.pending_spec().len() == 0 {
                old(self).decisions
            } else {
                DecisionQueue {
                    open: true,
                    index: clamp_index(
                        old(self).decisions.index,
                        old(self).decisions.pending_spec().len() as int,
                    ),
                    ..old(self).decisions
                }
            }),
            *final(self) == (App { decisions: final(self).decisions, status: final(self).status, ..*old(self) }),
    {
        self.status = self.decisions.open_queue();
    }

    /// Apply what acting on a decision did to the rest of the app.
    fn after_decision(&mut self, action: DecisionAction)
        ensures
            match action {
                DecisionAction::Closed => *final(self) == *old(self),
                DecisionAction::Dismissed(s) => *final(self) == (App { status: s, ..*old(self) }),
                DecisionAction::Answer(d, c, q, text) => {
                    &&& final(self).prompt matches Some(p) && p.kind == (PromptKind::DecisionAnswer {
                        decision_id: d,
                        cycle_id: c,
                        question_id: q,
                    }) && p.title@ == "Answer — "@ + text@ && p.draft.text@.len() == 0
                        && p.draft.cursor == 0
                    &&& final(self).status@ == "Type an answer · Enter send · Esc cancel"@
                    &&& *final(self) == (App {
                        prompt: final(self).prompt,
                        status: final(self).status,
                        ..*old(self)
                    })
                },
            },
    {
        match action {
            DecisionAction::Closed => {},
            DecisionAction::Dismissed(s) => {
                self.status = s;
            },
            DecisionAction::Answer(d, c, q, text) => {
                let mut t: Vec<char> = Vec::new();
                push_str(&mut t, "Answer — ");
                push_str(&mut t, text.as_str());
                self.prompt = Some(
                    Prompt {
                        kind: PromptKind::DecisionAnswer { decision_id: d, cycle_id: c, question_id: q },
                        title: string_of(t.as_slice()),
                        draft: Draft::new(),
                    },
                );
                self.status = crate::app::owned("Type an answer · Enter send · Esc cancel");
            },
        }
    }

    /// Dismiss the decision under the cursor.
    pub fn dismiss_selected_decision(&mut self)
        ensures
            ({
                let pend = old(self).decisions.pending_spec();
                let k = old(self).decisions.index;
                if k >= pend.len() {
                    *final(self) == (App {
                        decisions: DecisionQueue { open: false, ..old(self).decisions },
                        ..*old(self)
                    })
                } else {
                    let remaining = final(self).decisions.pending_spec().len();
                    &&& final(self).decisions.dismissed@ == old(self).decisions.dismissed@.push(
                        pend[k as int].id,
                    )
                    &&& final(self).decisions.items == old(self).decisions.items
                    &&& final(self).decisions.index == clamp_index(k, remaining as int)
                    &&& final(self).decisions.open == (remaining > 0)
                    &&& final(self).status@ == "Decision dismissed · "@ + decimal(remaining)
                        + " pending"@
                    &&& *final(self) == (App {
                        decisions: final(self).decisions,
                        status: final(self).status,
                        ..*old(self)
                    })
                }
            }),
    {
        let action = self.decisions.dismiss_selected();
        self.after_decision(action);
    }

    /// Answer the decision under the cursor through the inline prompt, or
    /// dismiss it when it takes no answer.
    pub fn answer_or_dismiss_selected_decision(&mut self)
        ensures
            ({
                let pend = old(self).decisions.pending_spec();
                let k = old(self).decisions.index;
                if k >= pend.len() {
                    *final(self) == (App {
                        decisions: DecisionQueue { open: false, ..old(self).decisions },
                        ..*old(self)
                    })
                } else {
                    match pend[k as int].answer_target {
                        None => {
                            let remaining = final(self).decisions.pending_spec().len();
                            &&& final(self).decisions.dismissed@ == old(self).decisions.dismissed@.push(pend[k as int].id)
                            &&& final(self).decisions.items == old(self).decisions.items
                            &&& final(self).decisions.open == (remaining > 0)
                            &&& final(self).status@ == "Decision dismissed · "@ + decimal(remaining)
                                + " pending"@
                            &&& *final(self) == (App {
                                decisions: final(self).decisions,
                                status: final(self).status,
                                ..*old(self)
                            })
                        },
                        Some((c, q)) => {
                            &&& final(self).prompt matches Some(p) && p.kind matches PromptKind::DecisionAnswer {
                                decision_id,
                                cycle_id,
                                question_id,
                            } && decision_id@ == pend[k as int].id@ && cycle_id@ == c@
                                && question_id@ == q@ && p.title@ == "Answer — "@
                                + pend[k as int].question@ && p.draft.text@.len() == 0
                            &&& final(self).status@ == "Type an answer · Enter send · Esc cancel"@
                            &&& *final(self) == (App {
                                decisions: DecisionQueue { open: false, ..old(self).decisions },
                                prompt: final(self).prompt,
                                status: final(self).status,
                                ..*old(self)
                            })
                        },
                    }
                }
            }),
    {
        let action = self.decisions.answer_or_dismiss();
        self.after_decision(action);
    }
}

/// A dismissed decision never reappears among the pending ones.
pub proof fn law_dismissed_never_pending(items: Seq<DecisionItem>, dismissed: Seq<String>, k: int)
    requires
        0 <= k < pending(items, dismissed).len(),
    ensures
        !is_dismissed(dismissed, pending(items, dismissed)[k].id@),
    decreases items.len(),
{
    reveal(pending);
    if items.len() > 0 {
        let rest = pending(items.drop_last(), dismissed);
        if k < rest.len() {
            law_dismissed_never_pending(items.drop_last(), dismissed, k);
        }
    }
}

/// What opening the decision queue does.
pub open spec fn decisions_opened(before: App, after: App) -> bool {
    &&& (after.status@ == (if before.decisions.pending_spec().len() == 0 {
                "No prepared decisions"@
            } else {
                "Decisions · "@ + decimal(before.decisions.pending_spec().len()) + " pending"@
            }))
    &&& (after.decisions == (if before.decisions.pending_spec().len() == 0 {
                before.decisions
            } else {
                DecisionQueue {
                    open: true,
                    index: clamp_index(
                        before.decisions.index,
                        before.decisions.pending_spec().len() as int,
                    ),
                    ..before.decisions
                }
            }))
    &&& (after == (App { decisions: after.decisions, status: after.status, ..before }))
}

} // verus!
