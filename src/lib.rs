//! Named shared-memory segments with an explicit, verified ownership protocol.
//!
//! The library decides; the operating-system calls are made by the caller.
//! Opening a segment is a small state machine ([`Acquisition`]) that says which
//! call to make next and folds each call's outcome into its next state. A typed
//! handle's lifecycle ([`ShmemBox`]) says whether it owns the segment and which
//! release steps its end requires.
mod acquire;
mod builder;
mod error;
mod handle;
mod laws;
mod segment;

pub use acquire::{
    action_of, answers, next, start, Acquisition, AcquisitionView, Action, Outcome, Stage, Step,
    StepView,
};
pub use builder::{Builder, BuilderWithSize, RequestView};
pub use error::ShmemError;
pub use handle::{release_plan, ReleaseAction, ShmemBox};
pub use laws::{
    after_release, lemma_borrower_release_keeps_segment, lemma_existing_name_is_borrowed,
    lemma_fresh_name_is_owned, lemma_own_idempotent, lemma_owner_release_frees_name,
    open_reply, owner_on_completion, run,
};
pub use segment::{valid_address, ConfView, ShmemConf};
