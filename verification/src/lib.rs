//! Account lifecycle for users and their profiles: lookup, validation of a
//! new email, creation and change of a profile, change of a user, and the
//! deletion of a user together with the profile.
//!
//! The service never touches storage itself. Each operation in [`service`]
//! starts with a [`service::Step`] that names the first [`gateway::Request`].
//! The caller performs it, hands the [`gateway::Reply`] to
//! [`service::Task::resume`], and repeats until the step is
//! [`service::Step::Done`]:
//!
//! ```text
//! let mut step = service::delete_user_with_profile(id);
//! let outcome = loop {
//!     match step {
//!         Step::Ask(task, request) => step = task.resume(perform(request)),
//!         Step::Done(outcome) => break outcome,
//!     }
//! };
//! ```
//!
//! Every decision between two requests is made here, and proved: what is
//! asked, in which order, what is written, and what the outcome is. [`laws`]
//! states what follows for whole operations against a model of the store.

pub mod email;
pub mod gateway;
pub mod laws;
pub mod outside;
pub mod records;
pub mod service;
