//! Descriptor constructors for protocols that signal with
//! a dedicated static byte slice on the raw byte-sequence entry point and send the hash through the `i64` entry point.

use vstd::prelude::*;

use crate::flags::{HashVia, ProtocolFlags, SignalVia};

verus! {

/// The descriptor that signals with a dedicated static byte slice on the raw byte-sequence entry point,
/// sends the hash through the `i64` entry point, and signals before it
/// submits the hash.
pub fn signal_first() -> (r: ProtocolFlags)
    ensures
        r == (ProtocolFlags {
            signal_via: SignalVia::U8s,
            signal_first: true,
            hash_via: HashVia::I64,
        }),
{
    ProtocolFlags { signal_via: SignalVia::U8s, signal_first: true, hash_via: HashVia::I64 }
}

/// The descriptor that signals with a dedicated static byte slice on the raw byte-sequence entry point,
/// sends the hash through the `i64` entry point, and submits the hash
/// before it signals.
pub fn submit_first() -> (r: ProtocolFlags)
    ensures
        r == (ProtocolFlags {
            signal_via: SignalVia::U8s,
            signal_first: false,
            hash_via: HashVia::I64,
        }),
{
    ProtocolFlags { signal_via: SignalVia::U8s, signal_first: false, hash_via: HashVia::I64 }
}

} // verus!
