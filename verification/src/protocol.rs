//! The mathematical model of the signalling protocol: the calls of the
//! accumulator interface, the transition an interception performs on the
//! session state, which calls a validation build accepts, and what the final
//! digest is.

use vstd::prelude::*;

use crate::flags::{ProtocolFlags, SignalVia, HashVia};
use crate::state::{SignalState, SignalStateKind};

verus! {

/// One call of the incremental-hash accumulator interface, at the level of
/// values: raw bytes, each fixed-width integer, a length prefix, or a string
/// (as its character sequence).
pub enum WriteCall {
    Bytes(Seq<u8>),
    U8(u8),
    U16(u16),
    U32(u32),
    U64(u64),
    U128(u128),
    Usize(usize),
    I8(i8),
    I16(i16),
    I32(i32),
    I64(i64),
    I128(i128),
    Isize(isize),
    LengthPrefix(usize),
    Str(Seq<char>),
}

/// The content of the marker slice on the byte-sequence channel: the first
/// byte of the marker table.
pub open spec fn marker_bytes_spec() -> Seq<u8> {
    seq![65u8]
}

/// The content of the marker slice on the string channel: the same byte, as
/// a character.
pub open spec fn marker_str_spec() -> Seq<char> {
    seq!['A']
}

/// Whether a call is the designated channel's marker. Marker slices on the
/// byte and string channels are recognized by identity, not content; `ident`
/// says whether the runtime identity check recognized the argument as the
/// session's marker slice.
pub open spec fn is_marker_call(flags: ProtocolFlags, c: WriteCall, ident: bool) -> bool {
    match c {
        WriteCall::LengthPrefix(len) => flags.signal_via == SignalVia::Len && len == usize::MAX,
        WriteCall::Bytes(_) => flags.signal_via == SignalVia::U8s && ident,
        WriteCall::Str(_) => flags.signal_via == SignalVia::Str && ident,
        _ => false,
    }
}

/// Whether a call is the designated width's payload entry point.
pub open spec fn is_payload_call(flags: ProtocolFlags, c: WriteCall) -> bool {
    match c {
        WriteCall::U64(_) => flags.hash_via == HashVia::U64,
        WriteCall::I64(_) => flags.hash_via == HashVia::I64,
        WriteCall::U128(_) => flags.hash_via == HashVia::U128,
        WriteCall::I128(_) => flags.hash_via == HashVia::I128,
        _ => false,
    }
}

/// The payload value a width call carries, narrowed to 64 bits by its bit
/// pattern.
pub open spec fn payload_u64(c: WriteCall) -> u64 {
    match c {
        WriteCall::U64(i) => i,
        WriteCall::I64(i) => i as u64,
        WriteCall::U128(i) => i as u64,
        WriteCall::I128(i) => i as u64,
        _ => 0,
    }
}

/// What one interception does: the session state afterwards, and the call
/// forwarded to the wrapped accumulator, if any.
pub struct StepResult {
    pub state: SignalState,
    pub forwarded: Option<WriteCall>,
}

/// The transition table of the session state machine, as a production build
/// performs it: markers and confirmed payloads are consumed, everything else
/// is forwarded unchanged and moves the session to `WrittenOrdinaryHash`.
pub open spec fn step(flags: ProtocolFlags, s: SignalState, c: WriteCall, ident: bool) -> StepResult {
    if is_marker_call(flags, c, ident) {
        if flags.signal_first {
            StepResult {
                state: SignalState { kind: SignalStateKind::SignalledProposalComing, hash: s.hash },
                forwarded: None,
            }
        } else {
            if s.kind == SignalStateKind::HashPossiblySubmitted {
                StepResult {
                    state: SignalState { kind: SignalStateKind::HashReceived, hash: s.hash },
                    forwarded: None,
                }
            } else {
                StepResult {
                    state: SignalState { kind: SignalStateKind::WrittenOrdinaryHash, hash: s.hash },
                    forwarded: Some(c),
                }
            }
        }
    } else if is_payload_call(flags, c) {
        if flags.signal_first {
            if s.kind == SignalStateKind::SignalledProposalComing {
                StepResult {
                    state: SignalState { kind: SignalStateKind::HashReceived, hash: payload_u64(c) },
                    forwarded: None,
                }
            } else {
                StepResult {
                    state: SignalState { kind: SignalStateKind::WrittenOrdinaryHash, hash: s.hash },
                    forwarded: Some(c),
                }
            }
        } else {
            if s.kind == SignalStateKind::NothingWritten {
                StepResult {
                    state: SignalState { kind: SignalStateKind::HashPossiblySubmitted, hash: payload_u64(c) },
                    forwarded: Some(c),
                }
            } else {
                StepResult {
                    state: SignalState { kind: SignalStateKind::WrittenOrdinaryHash, hash: s.hash },
                    forwarded: Some(c),
                }
            }
        }
    } else {
        StepResult {
            state: SignalState { kind: SignalStateKind::WrittenOrdinaryHash, hash: s.hash },
            forwarded: Some(c),
        }
    }
}

/// Which calls a validation build accepts in a given state: the states whose
/// violation a validation build reports with a fatal assertion, and a
/// production build silently degrades on.
pub open spec fn call_admissible(flags: ProtocolFlags, s: SignalState, c: WriteCall, ident: bool) -> bool {
    if is_marker_call(flags, c, ident) {
        if flags.signal_first {
            s.kind == SignalStateKind::NothingWritten
        } else {
            s.kind == SignalStateKind::HashPossiblySubmitted
        }
    } else if is_payload_call(flags, c) {
        if flags.signal_first {
            s.kind == SignalStateKind::SignalledProposalComing
                || s.kind == SignalStateKind::NothingWritten
                || s.kind == SignalStateKind::WrittenOrdinaryHash
        } else {
            s.kind != SignalStateKind::HashReceived
                && s.kind != SignalStateKind::SignalledProposalComing
        }
    } else {
        if flags.signal_first {
            s.kind == SignalStateKind::NothingWritten
                || s.kind == SignalStateKind::WrittenOrdinaryHash
        } else {
            s.kind != SignalStateKind::HashReceived
                && s.kind != SignalStateKind::SignalledProposalComing
        }
    }
}

/// What `finish` reports for a session state, given the wrapped
/// accumulator's own digest: the received hash once injection completed, the
/// wrapped digest otherwise.
pub open spec fn finish_of(s: SignalState, inner_digest: u64) -> u64 {
    if s.kind == SignalStateKind::HashReceived {
        s.hash
    } else {
        inner_digest
    }
}

/// The marker call the injection driver emits for a descriptor.
pub open spec fn marker_call(flags: ProtocolFlags) -> WriteCall {
    match flags.signal_via {
        SignalVia::Len => WriteCall::LengthPrefix(usize::MAX),
        SignalVia::U8s => WriteCall::Bytes(marker_bytes_spec()),
        SignalVia::Str => WriteCall::Str(marker_str_spec()),
    }
}

/// The payload call the injection driver emits for a descriptor and a hash,
/// widening the 64-bit hash losslessly to the configured width.
pub open spec fn payload_call(flags: ProtocolFlags, hash: u64) -> WriteCall {
    match flags.hash_via {
        HashVia::U64 => WriteCall::U64(hash),
        HashVia::I64 => WriteCall::I64(hash as i64),
        HashVia::U128 => WriteCall::U128(hash as u128),
        HashVia::I128 => WriteCall::I128(hash as i128),
    }
}

/// The driver's payload call carries exactly the injected hash: widening to
/// the configured width and narrowing back by bit pattern is lossless.
pub proof fn lemma_payload_round_trip(flags: ProtocolFlags, hash: u64)
    ensures
        is_payload_call(flags, payload_call(flags, hash)),
        payload_u64(payload_call(flags, hash)) == hash,
{
    match flags.hash_via {
        HashVia::U64 => {},
        HashVia::I64 => {
            assert(((hash as i64) as u64) == hash) by (bit_vector);
        },
        HashVia::U128 => {
            assert(((hash as u128) as u64) == hash) by (bit_vector);
        },
        HashVia::I128 => {
            assert(((hash as i128) as u64) == hash) by (bit_vector);
        },
    }
}

/// Round-trip: for every descriptor and every 64-bit hash, the two driver
/// calls, in the configured order, take a fresh session to `HashReceived`
/// with exactly that hash, and `finish` then reports it, whatever the
/// wrapped accumulator's own digest is. Along the way nothing is forwarded,
/// except that a descriptor that submits first forwards the speculative
/// payload call.
pub proof fn lemma_inject_round_trip(flags: ProtocolFlags, hash: u64, inner_digest: u64)
    ensures
        ({
            let s0 = SignalState { kind: SignalStateKind::NothingWritten, hash: 0 };
            if flags.signal_first {
                let r1 = step(flags, s0, marker_call(flags), true);
                let r2 = step(flags, r1.state, payload_call(flags, hash), false);
                &&& r1.forwarded is None
                &&& r2.forwarded is None
                &&& r2.state == (SignalState { kind: SignalStateKind::HashReceived, hash })
                &&& finish_of(r2.state, inner_digest) == hash
            } else {
                let r1 = step(flags, s0, payload_call(flags, hash), false);
                let r2 = step(flags, r1.state, marker_call(flags), true);
                &&& r1.forwarded == Some(payload_call(flags, hash))
                &&& r2.forwarded is None
                &&& r2.state == (SignalState { kind: SignalStateKind::HashReceived, hash })
                &&& finish_of(r2.state, inner_digest) == hash
            }
        }),
{
    lemma_payload_round_trip(flags, hash);
}

/// Invalidation under a descriptor that submits first: after the speculative
/// payload, any further call that is not the marker invalidates the
/// candidate, the late marker is treated as ordinary data, and `finish`
/// reports the wrapped accumulator's genuine digest over everything
/// forwarded - never the candidate hash.
pub proof fn lemma_submit_first_invalidation(
    flags: ProtocolFlags,
    hash: u64,
    c: WriteCall,
    ident: bool,
    inner_digest: u64,
)
    requires
        !flags.signal_first,
        !is_marker_call(flags, c, ident),
    ensures
        ({
            let s0 = SignalState { kind: SignalStateKind::NothingWritten, hash: 0 };
            let r1 = step(flags, s0, payload_call(flags, hash), false);
            let r2 = step(flags, r1.state, c, ident);
            let r3 = step(flags, r2.state, marker_call(flags), true);
            &&& r1.forwarded == Some(payload_call(flags, hash))
            &&& r2.forwarded == Some(c)
            &&& r3.forwarded == Some(marker_call(flags))
            &&& r2.state.kind == SignalStateKind::WrittenOrdinaryHash
            &&& r3.state.kind != SignalStateKind::HashReceived
            &&& finish_of(r3.state, inner_digest) == inner_digest
        }),
{
    lemma_payload_round_trip(flags, hash);
}

/// Premature marker under a descriptor that submits first: a marker call
/// while no hash is possibly submitted fails the validation build's
/// assertion; a production build forwards it as ordinary data and the
/// session continues in `WrittenOrdinaryHash`, so later calls are not
/// corrupted.
pub proof fn lemma_premature_marker(flags: ProtocolFlags, s: SignalState)
    requires
        !flags.signal_first,
        s.kind != SignalStateKind::HashPossiblySubmitted,
    ensures
        !call_admissible(flags, s, marker_call(flags), true),
        step(flags, s, marker_call(flags), true).state.kind == SignalStateKind::WrittenOrdinaryHash,
        step(flags, s, marker_call(flags), true).forwarded == Some(marker_call(flags)),
{
}

/// Terminal state: once the hash has been received, every further call
/// fails the validation build's assertion, and `finish` keeps reporting the
/// received hash, however often it is consulted.
pub proof fn lemma_terminal_hash_received(
    flags: ProtocolFlags,
    s: SignalState,
    c: WriteCall,
    ident: bool,
    inner_digest: u64,
)
    requires
        s.kind == SignalStateKind::HashReceived,
    ensures
        !call_admissible(flags, s, c, ident),
        finish_of(s, inner_digest) == s.hash,
{
}

} // verus!
