//! The mathematical model of the approval workflow.
//!
//! A document state is a [`DocView`]: the text buffer, the current
//! [`Phase`], and how many approvals have been granted. [`step`] is the
//! transition function of the workflow and [`visible`] says what `content`
//! shows in each phase. Both executable variants of the library promise, in
//! their `ensures` clauses, to follow `step` exactly; the laws at the bottom
//! of this module therefore hold of both.

use vstd::prelude::*;

verus! {

/// The lifecycle phase of a document.
///
/// A document starts in `Draft`, moves to `PendingReview` on a review
/// request, and from there either forward to `Published` (approve) or back
/// to `Draft` (reject). No transition leaves `Published`.
#[derive(Clone, Copy, Debug, PartialEq, Eq, Structural)]
pub enum Phase {
    Draft,
    PendingReview,
    Published,
}

/// A document state, as the specifications see it: the buffered text, the
/// current phase, and the number of approvals granted so far.
#[verifier::ext_equal]
pub struct DocView {
    pub buffer: Seq<char>,
    pub phase: Phase,
    pub approvals: nat,
}

/// One operation of the workflow, with its argument where it takes one.
pub enum Op {
    AddText(Seq<char>),
    RequestReview,
    Approve,
    Reject,
}

/// The state of a freshly created document: empty buffer, `Draft` phase,
/// no approvals.
pub open spec fn fresh() -> DocView {
    DocView { buffer: Seq::empty(), phase: Phase::Draft, approvals: 0 }
}

/// The transition function of the workflow. An operation that is illegal in
/// the current phase leaves the state unchanged.
pub open spec fn step(s: DocView, op: Op) -> DocView {
    match op {
        Op::AddText(t) => {
            if s.phase is Draft {
                DocView { buffer: s.buffer + t, ..s }
            } else {
                s
            }
        },
        Op::RequestReview => {
            if s.phase is Draft {
                DocView { phase: Phase::PendingReview, ..s }
            } else {
                s
            }
        },
        Op::Approve => {
            if s.phase is PendingReview {
                DocView { phase: Phase::Published, approvals: s.approvals + 1, ..s }
            } else {
                s
            }
        },
        Op::Reject => {
            if s.phase is PendingReview {
                DocView { phase: Phase::Draft, ..s }
            } else {
                s
            }
        },
    }
}

/// The result of applying a whole sequence of operations in order.
pub open spec fn run_ops(s: DocView, ops: Seq<Op>) -> DocView
    decreases ops.len(),
{
    if ops.len() == 0 {
        s
    } else {
        run_ops(step(s, ops[0]), ops.drop_first())
    }
}

/// What `content` shows: the whole buffer once the document is published,
/// and nothing before that.
pub open spec fn visible(s: DocView) -> Seq<char> {
    if s.phase is Published {
        s.buffer
    } else {
        Seq::empty()
    }
}

/// The concatenation, in order, of a sequence of texts.
pub open spec fn concat_texts(ts: Seq<Seq<char>>) -> Seq<char>
    decreases ts.len(),
{
    if ts.len() == 0 {
        Seq::empty()
    } else {
        ts[0] + concat_texts(ts.drop_first())
    }
}

/// The operation sequence that appends each of the given texts in turn.
pub open spec fn add_ops(ts: Seq<Seq<char>>) -> Seq<Op>
    decreases ts.len(),
{
    if ts.len() == 0 {
        Seq::empty()
    } else {
        seq![Op::AddText(ts[0])] + add_ops(ts.drop_first())
    }
}

/// Running a concatenation of two operation sequences is running the first
/// and then the second.
pub proof fn lemma_run_ops_app(s: DocView, ops1: Seq<Op>, ops2: Seq<Op>)
    ensures
        run_ops(s, ops1 + ops2) == run_ops(run_ops(s, ops1), ops2),
    decreases ops1.len(),
{
    if ops1.len() == 0 {
        assert(ops1 + ops2 =~= ops2);
    } else {
        assert((ops1 + ops2).drop_first() =~= ops1.drop_first() + ops2);
        lemma_run_ops_app(step(s, ops1[0]), ops1.drop_first(), ops2);
    }
}

/// Before any review request, the document stays in `Draft` and its
/// content stays hidden: a fresh document on which only `add_text` and
/// `reject` have been called is still a draft, and `content` is the empty
/// string there. (`reject` is a no-op in `Draft`.)
pub proof fn lemma_draft_until_review(s: DocView, ops: Seq<Op>)
    requires
        s.phase is Draft,
        forall|i: int| 0 <= i < ops.len() ==> (#[trigger] ops[i]) is AddText || ops[i] is Reject,
    ensures
        run_ops(s, ops).phase is Draft,
        visible(run_ops(s, ops)) == Seq::<char>::empty(),
    decreases ops.len(),
{
    if ops.len() > 0 {
        assert(forall|i: int|
            0 <= i < ops.drop_first().len() ==> (#[trigger] ops.drop_first()[i]) is AddText
                || ops.drop_first()[i] is Reject) by {
            assert(forall|i: int|
                0 <= i < ops.drop_first().len() ==> #[trigger] ops.drop_first()[i] == ops[i + 1]);
        }
        lemma_draft_until_review(step(s, ops[0]), ops.drop_first());
    }
}

/// Content is hidden until publication, and publication takes an approval:
/// whatever operations are applied to an unpublished document, as long as
/// none of them is an approval the document is not published and `content`
/// is the empty string.
pub proof fn lemma_hidden_without_approval(s: DocView, ops: Seq<Op>)
    requires
        !(s.phase is Published),
        forall|i: int| 0 <= i < ops.len() ==> !((#[trigger] ops[i]) is Approve),
    ensures
        !(run_ops(s, ops).phase is Published),
        visible(run_ops(s, ops)) == Seq::<char>::empty(),
    decreases ops.len(),
{
    if ops.len() > 0 {
        assert(forall|i: int|
            0 <= i < ops.drop_first().len() ==> !((#[trigger] ops.drop_first()[i]) is Approve)) by {
            assert(forall|i: int|
                0 <= i < ops.drop_first().len() ==> #[trigger] ops.drop_first()[i] == ops[i + 1]);
        }
        lemma_hidden_without_approval(step(s, ops[0]), ops.drop_first());
    }
}

/// Appending text is a no-op in every phase but `Draft` — in particular
/// once a review has been requested and until that review is rejected.
pub proof fn lemma_add_text_ignored_outside_draft(s: DocView, t: Seq<char>)
    requires
        !(s.phase is Draft),
    ensures
        step(s, Op::AddText(t)) == s,
{
}

/// `approve` and `reject` are no-ops in every phase but `PendingReview` —
/// in particular on a draft and on a published document.
pub proof fn lemma_approve_reject_ignored_outside_review(s: DocView)
    requires
        !(s.phase is PendingReview),
    ensures
        step(s, Op::Approve) == s,
        step(s, Op::Reject) == s,
{
}

/// A draft accumulates exactly the appended texts, in order: appending a
/// sequence of texts to a draft keeps it a draft, extends the buffer by
/// their concatenation, and grants no approval.
pub proof fn lemma_draft_accumulates(s: DocView, ts: Seq<Seq<char>>)
    requires
        s.phase is Draft,
    ensures
        run_ops(s, add_ops(ts)) == (DocView { buffer: s.buffer + concat_texts(ts), ..s }),
    decreases ts.len(),
{
    if ts.len() == 0 {
        assert(run_ops(s, add_ops(ts)) =~= (DocView { buffer: s.buffer + concat_texts(ts), ..s }));
    } else {
        let s1 = step(s, Op::AddText(ts[0]));
        assert(add_ops(ts).drop_first() =~= add_ops(ts.drop_first()));
        lemma_draft_accumulates(s1, ts.drop_first());
        assert(s1.buffer + concat_texts(ts.drop_first()) =~= s.buffer + concat_texts(ts));
        assert(run_ops(s, add_ops(ts)) =~= (DocView { buffer: s.buffer + concat_texts(ts), ..s }));
    }
}

/// After `request_review` and then `approve`, the content is exactly the
/// concatenation, in order, of all the text added while in `Draft`: drafts
/// hide their text, but publication shows everything that was drafted.
pub proof fn lemma_published_content_is_drafted_text(ts: Seq<Seq<char>>)
    ensures
        visible(
            run_ops(fresh(), add_ops(ts) + seq![Op::RequestReview, Op::Approve]),
        ) == concat_texts(ts),
{
    lemma_run_ops_app(fresh(), add_ops(ts), seq![Op::RequestReview, Op::Approve]);
    lemma_draft_accumulates(fresh(), ts);
    let drafted = run_ops(fresh(), add_ops(ts));
    assert(drafted.buffer =~= concat_texts(ts));
    let two = seq![Op::RequestReview, Op::Approve];
    let s1 = step(drafted, Op::RequestReview);
    let s2 = step(s1, Op::Approve);
    assert(run_ops(drafted, two) == run_ops(s1, two.drop_first()));
    assert(two.drop_first() =~= seq![Op::Approve]);
    assert(run_ops(s1, seq![Op::Approve]) == run_ops(s2, seq![Op::Approve].drop_first()));
    assert(seq![Op::Approve].drop_first() =~= Seq::<Op>::empty());
    assert(run_ops(s2, Seq::<Op>::empty()) == s2);
}

/// A rejected review restores the draft exactly: after `request_review`
/// and then `reject`, the document is the very draft state it was before —
/// same buffer, `Draft` phase again — and appending text works again just
/// as it would have before the round trip.
pub proof fn lemma_reject_restores_draft(s: DocView, t: Seq<char>)
    requires
        s.phase is Draft,
    ensures
        step(step(s, Op::RequestReview), Op::Reject) == s,
        step(step(step(s, Op::RequestReview), Op::Reject), Op::AddText(t)).buffer == s.buffer + t,
{
    assert(step(step(s, Op::RequestReview), Op::Reject) =~= s);
}

} // verus!
