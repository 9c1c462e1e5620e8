//! Owner-checked schema migration for persisted byte records, together with
//! a compact, versioned integrity envelope over detached state.
//!
//! A [`record::Record`] is an owned, mutable byte buffer. The
//! [`migration::Migration`] handle loads such a record under an old schema,
//! lets the caller compute the new-schema value, and persists the transformed
//! bytes back under strict ownership and lifecycle checks. The
//! [`compressed_state::CompressedState`] envelope lets a record assert "my
//! true state is X" without storing X in full, via a tagged hash commitment
//! that is verified against state supplied out-of-band.

pub mod error;
pub mod record;
pub mod bytes;
pub mod codec;
pub mod migration;
pub mod compressed_state;
pub mod schema;
