//! Validation of a ring buffer of timed records kept on a cell-based ledger.
//!
//! Two records travel together through every transaction of a ring:
//!
//! * the *index-state* record, two bytes `[position, capacity]`, whose
//!   position rotates through the slots of the ring one step at a time;
//! * the *info* record, ten bytes `[position, kind, content]`, which carries
//!   a timestamp or a block number that must grow with every update and that
//!   is tied to the time lock of the input that consumes the record.
//!
//! Each record has its validator: [`index_state::validate`] and
//! [`info::validate`]. A validator sees a transaction through a
//! [`transaction::Transaction`]: the answers of the ledger to the queries
//! that a validator may ask. It returns `Ok(())` when the transaction is a
//! legal creation or update of its record and the one [`error::Error`] that
//! rejects it otherwise. How much a ring may change over its life is a
//! choice of the deployment, an [`index_state::Variant`].
//!
//! Every function of this crate is verified. Each validator comes with a
//! spec function that gives its verdict for every transaction, and the rules
//! that make a ring safe (single-step rotation, growing content, coupled
//! positions, bound time locks, length before content) are proved of those
//! functions.

pub mod constants;
pub mod error;
pub mod transaction;
pub mod index_state;
pub mod info;
