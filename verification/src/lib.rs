//! Verified core of the bindings to the Tashi Vertex consensus engine: the engine options,
//! the decoding of what the engine's callbacks report, and the hand-off between a pending
//! future and the callback that completes it.

pub mod handoff;
pub mod message;
pub mod options;
pub mod socket;
