//! A single-writer / single-reader "latest value wins" channel built on
//! triple buffering: three storage slots rotate between a writer-owned,
//! a storage, and a reader-owned role, so the writer never waits for the
//! reader and the reader always sees the most recently completed publication.
//!
//! The crate verifies the three parts the design rests on:
//! - [`status`]: the pure role-permutation machine packed into one status
//!   word, together with the bijection and non-interference lemmas;
//! - [`chan`]: the channel block and the two handles, whose operations are
//!   exact functions of the status word and the slot contents;
//! - [`protocol`]: a small-step model of the two threads sharing one block,
//!   with proofs that no interleaving races on a slot, loses the latest
//!   value, duplicates a handle, or frees the block twice.

pub mod chan;
pub mod protocol;
pub mod status;

pub use chan::cupchan;
pub use chan::Cupchan;
pub use chan::CupchanReader;
pub use chan::CupchanWriter;
