//! A small document-approval workflow library.
//!
//! A document moves through three phases: `Draft`, `PendingReview` and
//! `Published`. Text may be appended only in `Draft`; the buffer becomes
//! visible through `content` only once the document is `Published`.
//!
//! The workflow is offered in two designs:
//!
//! * a dynamic variant ([`document::Document`]), where one value carries a
//!   replaceable phase handle and every operation is a uniform method call,
//!   illegal operations being silent no-ops; and
//! * a typestate variant ([`typestate::DraftDoc`], [`typestate::ReviewDoc`],
//!   [`typestate::PublishedDoc`]), where each phase is its own type, a
//!   transition consumes the old value, and illegal operations do not
//!   type-check at all.
//!
//! Both variants are specified against the same mathematical transition
//! system in [`workflow`], which also states and proves the laws of the
//! workflow (content stays hidden until publication, a reject round-trip
//! restores the draft, drafts accumulate text in order).

pub mod document;
pub mod gui;
pub mod typestate;
pub mod workflow;
