//! The dynamic variant of the workflow: one [`Document`] value owns the
//! text buffer, the approval count and a replaceable [`Phase`] handle.
//!
//! Every operation is an ordinary method call whatever the current phase;
//! an operation that is illegal in the current phase is a silent no-op, not
//! an error. All phase-specific behaviour lives in the handle methods on
//! [`Phase`]: the `Document` methods themselves only delegate, so the call
//! sites for legal and illegal transitions are structurally uniform.
//!
//! Each method promises, in its `ensures` clause, to follow the transition
//! function [`step`] of the model exactly.

use vstd::prelude::*;

use crate::workflow::{step, visible, DocView, Op, Phase};

verus! {

impl Phase {
    /// The handle to install after a review request: review starts only
    /// from `Draft`; from anywhere else the handle is unchanged.
    pub fn on_request_review(self) -> (next: Phase)
        ensures
            next == (if self is Draft {
                Phase::PendingReview
            } else {
                self
            }),
    {
        match self {
            Phase::Draft => Phase::PendingReview,
            _ => self,
        }
    }

    /// The handle to install after an approval: only a document under
    /// review can be published; from anywhere else the handle is unchanged.
    pub fn on_approve(self) -> (next: Phase)
        ensures
            next == (if self is PendingReview {
                Phase::Published
            } else {
                self
            }),
    {
        match self {
            Phase::PendingReview => Phase::Published,
            _ => self,
        }
    }

    /// The handle to install after a rejection: only a document under
    /// review can be sent back to `Draft`; from anywhere else the handle is
    /// unchanged.
    pub fn on_reject(self) -> (next: Phase)
        ensures
            next == (if self is PendingReview {
                Phase::Draft
            } else {
                self
            }),
    {
        match self {
            Phase::PendingReview => Phase::Draft,
            _ => self,
        }
    }

    /// Whether text may be appended in this phase.
    pub fn allows_edit(self) -> (b: bool)
        ensures
            b == (self is Draft),
    {
        match self {
            Phase::Draft => true,
            _ => false,
        }
    }

    /// Whether an approval in this phase publishes the document.
    pub fn grants_publication(self) -> (b: bool)
        ensures
            b == (self is PendingReview),
    {
        match self {
            Phase::PendingReview => true,
            _ => false,
        }
    }

    /// What of the given buffer is visible in this phase: everything once
    /// published, nothing before.
    pub fn visible_part<'a>(self, buffer: &'a str) -> (r: &'a str)
        ensures
            r@ == (if self is Published {
                buffer@
            } else {
                Seq::<char>::empty()
            }),
    {
        match self {
            Phase::Published => buffer,
            _ => {
                let empty = "";
                proof {
                    reveal_strlit("");
                    assert(empty@ =~= Seq::<char>::empty());
                }
                empty
            },
        }
    }
}

/// A document moving through the approval workflow, dynamic variant.
///
/// The document owns its text buffer, the count of approvals granted, and
/// exactly one phase handle, which each transition method replaces with
/// whatever the handle's own transition method returns. Its view is the
/// [`DocView`] of the model, and every method follows [`step`].
pub struct Document {
    buffer: String,
    approvals: u32,
    phase: Phase,
}

impl View for Document {
    type V = DocView;

    closed spec fn view(&self) -> DocView {
        DocView { buffer: self.buffer@, phase: self.phase, approvals: self.approvals as nat }
    }
}

impl Document {
    /// An approval is granted exactly on the one transition into
    /// `Published`, and no transition leaves `Published`.
    #[verifier::type_invariant]
    spec fn wf(self) -> bool {
        self.approvals == (if self.phase is Published {
            1nat
        } else {
            0nat
        })
    }

    /// Creates a fresh document: empty buffer, `Draft` phase, no approvals.
    pub fn new() -> (doc: Document)
        ensures
            doc@ == crate::workflow::fresh(),
    {
        Document { buffer: String::new(), approvals: 0, phase: Phase::Draft }
    }

    /// Appends `text` to the buffer if the document is in `Draft` phase;
    /// otherwise does nothing. No return value tells the caller which of
    /// the two happened.
    pub fn add_text(&mut self, text: &str)
        ensures
            final(self)@ == step(old(self)@, Op::AddText(text@)),
    {
        proof {
            use_type_invariant(&*self);
        }
        if self.phase.allows_edit() {
            let mut buffer = String::new();
            std::mem::swap(&mut buffer, &mut self.buffer);
            buffer.append(text);
            std::mem::swap(&mut buffer, &mut self.buffer);
        }
    }

    /// Moves the document from `Draft` to `PendingReview`; in any other
    /// phase does nothing.
    pub fn request_review(&mut self)
        ensures
            final(self)@ == step(old(self)@, Op::RequestReview),
    {
        proof {
            use_type_invariant(&*self);
        }
        self.phase = self.phase.on_request_review();
    }

    /// Publishes a document that is in `PendingReview`, recording the one
    /// approval that suffices; in any other phase does nothing.
    pub fn approve(&mut self)
        ensures
            final(self)@ == step(old(self)@, Op::Approve),
    {
        proof {
            use_type_invariant(&*self);
        }
        if self.phase.grants_publication() {
            let mut buffer = String::new();
            std::mem::swap(&mut buffer, &mut self.buffer);
            *self =
            Document { buffer, approvals: self.approvals + 1, phase: self.phase.on_approve() };
        }
    }

    /// Sends a document that is in `PendingReview` back to `Draft`, keeping
    /// the buffer; in any other phase does nothing.
    pub fn reject(&mut self)
        ensures
            final(self)@ == step(old(self)@, Op::Reject),
    {
        proof {
            use_type_invariant(&*self);
        }
        self.phase = self.phase.on_reject();
    }

    /// The externally visible text: the whole buffer once the document is
    /// `Published`, and the empty string in `Draft` and `PendingReview`.
    pub fn content(&self) -> (r: &str)
        ensures
            r@ == visible(self@),
    {
        self.phase.visible_part(self.buffer.as_str())
    }
}

} // verus!
