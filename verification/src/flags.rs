//! The configuration descriptor: which entry point carries the out-of-band
//! marker, in which order marker and payload occur, and which fixed-width
//! integer entry point carries the payload.

use vstd::prelude::*;

verus! {

/// Which accumulator entry point is repurposed to carry the out-of-band
/// marker: the raw byte-sequence entry point, the length-prefix entry point,
/// or the string entry point.
#[derive(Clone, Copy, PartialEq, Eq, Structural, Debug)]
pub enum SignalVia {
    U8s,
    Len,
    Str,
}

/// Which fixed-width integer entry point carries the injected hash. The
/// 64-bit hash is widened or narrowed losslessly to the selected width.
#[derive(Clone, Copy, PartialEq, Eq, Structural, Debug)]
pub enum HashVia {
    U64,
    I64,
    U128,
    I128,
}

/// The relative order of marker and payload: `SignalFirst` sends the marker
/// and then the hash, `SubmitFirst` sends the hash and then the marker.
#[derive(Clone, Copy, PartialEq, Eq, Structural, Debug)]
pub enum Flow {
    SubmitFirst,
    SignalFirst,
}

/// The protocol descriptor. Immutable once constructed and compared by value;
/// equal descriptors are interchangeable. Every combination of the three
/// selectors is internally consistent, and the constructors under
/// [`crate::new_flags`] produce one descriptor per supported combination.
#[derive(Clone, Copy, PartialEq, Eq, Structural, Debug)]
pub struct ProtocolFlagsImpl {
    pub signal_via: SignalVia,
    pub signal_first: bool,
    pub hash_via: HashVia,
}

/// The descriptor type under its interface name. Use the constructor
/// functions to create values.
pub type ProtocolFlags = ProtocolFlagsImpl;

/// The flow selected by a descriptor, as a spec-level value.
pub open spec fn spec_flow(flags: ProtocolFlags) -> Flow {
    if flags.signal_first {
        Flow::SignalFirst
    } else {
        Flow::SubmitFirst
    }
}

/// Whether this protocol signals with a dedicated static byte slice, that is,
/// through the raw byte-sequence entry point.
pub fn is_signal_via_u8s(flags: ProtocolFlags) -> (r: bool)
    ensures
        r == (flags.signal_via == SignalVia::U8s),
{
    matches!(flags.signal_via, SignalVia::U8s)
}

/// Whether this protocol signals with a fictitious length, that is, through
/// the length-prefix entry point.
pub fn is_signal_via_len(flags: ProtocolFlags) -> (r: bool)
    ensures
        r == (flags.signal_via == SignalVia::Len),
{
    matches!(flags.signal_via, SignalVia::Len)
}

/// Whether this protocol signals with a dedicated static string slice, that
/// is, through the string entry point.
pub fn is_signal_via_str(flags: ProtocolFlags) -> (r: bool)
    ensures
        r == (flags.signal_via == SignalVia::Str),
{
    matches!(flags.signal_via, SignalVia::Str)
}

/// Whether the protocol signals before it submits the hash.
pub fn is_signal_first(flags: ProtocolFlags) -> (r: bool)
    ensures
        r == flags.signal_first,
{
    flags.signal_first
}

/// Whether the protocol submits the hash before it signals.
pub fn is_submit_first(flags: ProtocolFlags) -> (r: bool)
    ensures
        r == !flags.signal_first,
{
    !flags.signal_first
}

/// Whether the hash payload travels through the `u64` entry point.
pub fn is_hash_via_u64(flags: ProtocolFlags) -> (r: bool)
    ensures
        r == (flags.hash_via == HashVia::U64),
{
    matches!(flags.hash_via, HashVia::U64)
}

/// Whether the hash payload travels through the `i64` entry point.
pub fn is_hash_via_i64(flags: ProtocolFlags) -> (r: bool)
    ensures
        r == (flags.hash_via == HashVia::I64),
{
    matches!(flags.hash_via, HashVia::I64)
}

/// Whether the hash payload travels through the `u128` entry point.
pub fn is_hash_via_u128(flags: ProtocolFlags) -> (r: bool)
    ensures
        r == (flags.hash_via == HashVia::U128),
{
    matches!(flags.hash_via, HashVia::U128)
}

/// Whether the hash payload travels through the `i128` entry point.
pub fn is_hash_via_i128(flags: ProtocolFlags) -> (r: bool)
    ensures
        r == (flags.hash_via == HashVia::I128),
{
    matches!(flags.hash_via, HashVia::I128)
}

/// The channel selected by a descriptor, for exhaustive `match` dispatch.
pub fn signal_via(flags: ProtocolFlags) -> (r: SignalVia)
    ensures
        r == flags.signal_via,
{
    flags.signal_via
}

/// The payload width selected by a descriptor, for exhaustive `match`
/// dispatch.
pub fn hash_via(flags: ProtocolFlags) -> (r: HashVia)
    ensures
        r == flags.hash_via,
{
    flags.hash_via
}

/// The flow selected by a descriptor, for exhaustive `match` dispatch.
pub fn flow(flags: ProtocolFlags) -> (r: Flow)
    ensures
        r == spec_flow(flags),
{
    if flags.signal_first {
        Flow::SignalFirst
    } else {
        Flow::SubmitFirst
    }
}

/// Descriptor for the plain variant of the protocol: length-prefix channel,
/// `u64` payload width, marker before payload.
pub fn new_flags_signal_first() -> (r: ProtocolFlags)
    ensures
        r == (ProtocolFlags { signal_via: SignalVia::Len, signal_first: true, hash_via: HashVia::U64 }),
{
    ProtocolFlags { signal_via: SignalVia::Len, signal_first: true, hash_via: HashVia::U64 }
}

/// Descriptor for the plain variant of the protocol: length-prefix channel,
/// `u64` payload width, payload before marker.
pub fn new_flags_submit_first() -> (r: ProtocolFlags)
    ensures
        r == (ProtocolFlags { signal_via: SignalVia::Len, signal_first: false, hash_via: HashVia::U64 }),
{
    ProtocolFlags { signal_via: SignalVia::Len, signal_first: false, hash_via: HashVia::U64 }
}

} // verus!
