//! Delivery of a precomputed 64-bit hash through an incremental-hash
//! accumulator interface.
//!
//! A value type that caches its hash can hand that value to an accumulator
//! wrapper through a side-channel protocol: a reserved marker on one entry
//! point (the channel) and the hash itself on one fixed-width integer entry
//! point (the width), in a configured order (the flow). The wrapper tracks a
//! per-session state machine, consumes the protocol calls, forwards everything
//! else to the wrapped accumulator, and finally reports either the injected
//! hash or the wrapped accumulator's own digest.

pub mod accumulator;
pub mod flags;
pub mod hasher;
pub mod new_flags;
pub mod protocol;
pub mod recording;
pub mod signal;
pub mod state;

pub use accumulator::{Accumulator, AccumulatorFactory};
pub use flags::{Flow, HashVia, ProtocolFlags, ProtocolFlagsImpl, SignalVia};
pub use hasher::{SignalledInjectionBuildHasher, SignalledInjectionHasher};
pub use signal::{inject, signal_inject_hash, MarkerTable};
pub use state::{SignalState, SignalStateKind, SignalStateKindImpl};
