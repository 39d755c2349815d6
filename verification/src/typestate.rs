//! The typestate variant of the workflow: each phase is its own type.
//!
//! [`DraftDoc`], [`ReviewDoc`] and [`PublishedDoc`] carry the same text
//! buffer, but each type exposes only the operations that are legal in its
//! phase, and every transition consumes the old value and returns the next
//! type. An out-of-order call — approving a draft, editing a published
//! document — is not a runtime no-op here: it simply does not type-check.
//! In particular, [`PublishedDoc`] has no method that touches its buffer at
//! all; `content` is its whole surface.
//!
//! Each value maps into the model of [`crate::workflow`] through `as_doc`,
//! with the phase fixed by the type, and every transition promises in its
//! `ensures` clause to follow the transition function [`step`] — the same
//! promise the dynamic variant makes, which ties the two variants to one
//! behaviour.

use vstd::prelude::*;

use crate::workflow::{step, visible, DocView, Op, Phase};

verus! {

/// A document being written: the only phase in which text can be appended.
pub struct DraftDoc {
    buffer: String,
}

/// A document waiting for review: it can be approved or rejected, and its
/// text is hidden.
pub struct ReviewDoc {
    buffer: String,
}

/// A published document: its text is visible and can never change again.
pub struct PublishedDoc {
    buffer: String,
}

impl View for DraftDoc {
    type V = Seq<char>;

    closed spec fn view(&self) -> Seq<char> {
        self.buffer@
    }
}

impl View for ReviewDoc {
    type V = Seq<char>;

    closed spec fn view(&self) -> Seq<char> {
        self.buffer@
    }
}

impl View for PublishedDoc {
    type V = Seq<char>;

    closed spec fn view(&self) -> Seq<char> {
        self.buffer@
    }
}

impl DraftDoc {
    /// This value as a state of the model: the phase is `Draft` by the very
    /// type, and no approval has been granted yet.
    pub open spec fn as_doc(self) -> DocView {
        DocView { buffer: self@, phase: Phase::Draft, approvals: 0 }
    }

    /// Creates a fresh document with an empty buffer.
    pub fn new() -> (doc: DraftDoc)
        ensures
            doc.as_doc() == crate::workflow::fresh(),
    {
        DraftDoc { buffer: String::new() }
    }

    /// Appends `text` to the buffer and hands the draft back.
    pub fn add_text(self, text: &str) -> (r: DraftDoc)
        ensures
            r.as_doc() == step(self.as_doc(), Op::AddText(text@)),
    {
        let mut doc = self;
        doc.buffer.append(text);
        doc
    }

    /// Sends the draft to review, consuming it: the draft can no longer be
    /// edited, and the buffer moves unchanged into the [`ReviewDoc`].
    pub fn request_review(self) -> (r: ReviewDoc)
        ensures
            r.as_doc() == step(self.as_doc(), Op::RequestReview),
    {
        ReviewDoc { buffer: self.buffer }
    }

    /// The visible text of a draft: always empty.
    pub fn content(&self) -> (r: &str)
        ensures
            r@ == visible(self.as_doc()),
            r@ == Seq::<char>::empty(),
    {
        hidden()
    }
}

impl ReviewDoc {
    /// This value as a state of the model: the phase is `PendingReview` by
    /// the very type, and no approval has been granted yet.
    pub open spec fn as_doc(self) -> DocView {
        DocView { buffer: self@, phase: Phase::PendingReview, approvals: 0 }
    }

    /// Publishes the document, consuming the review handle: the one
    /// approval suffices, and the buffer moves unchanged into the
    /// [`PublishedDoc`].
    pub fn approve(self) -> (r: PublishedDoc)
        ensures
            r.as_doc() == step(self.as_doc(), Op::Approve),
    {
        PublishedDoc { buffer: self.buffer }
    }

    /// Sends the document back to `Draft`, consuming the review handle;
    /// the buffer is preserved and can be edited again.
    pub fn reject(self) -> (r: DraftDoc)
        ensures
            r.as_doc() == step(self.as_doc(), Op::Reject),
    {
        DraftDoc { buffer: self.buffer }
    }

    /// The visible text of a document under review: always empty.
    pub fn content(&self) -> (r: &str)
        ensures
            r@ == visible(self.as_doc()),
            r@ == Seq::<char>::empty(),
    {
        hidden()
    }
}

impl PublishedDoc {
    /// This value as a state of the model: the phase is `Published` by the
    /// very type, reached through the one approval that suffices.
    pub open spec fn as_doc(self) -> DocView {
        DocView { buffer: self@, phase: Phase::Published, approvals: 1 }
    }

    /// The visible text of a published document: the whole buffer. This is
    /// the only method of the type — nothing can mutate a published
    /// document's buffer, by construction.
    pub fn content(&self) -> (r: &str)
        ensures
            r@ == visible(self.as_doc()),
            r@ == self@,
    {
        self.buffer.as_str()
    }
}

/// The empty string that `content` returns while the buffer is hidden.
fn hidden() -> (r: &'static str)
    ensures
        r@ == Seq::<char>::empty(),
{
    let empty = "";
    proof {
        reveal_strlit("");
        assert(empty@ =~= Seq::<char>::empty());
    }
    empty
}

} // verus!
