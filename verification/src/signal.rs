//! The marker values, and the injection driver. Markers on the length-prefix
//! channel are reserved lengths; markers on the byte and string channels are
//! static slices distinguished by their address, not their content, so a
//! legitimate caller cannot accidentally produce them from ordinary data. A
//! coincidental content collision from a legitimate caller remains a
//! documented, latent correctness risk of the address scheme.

use vstd::prelude::*;
use vstd::slice::slice_subrange;

use crate::accumulator::Accumulator;
use crate::flags::{self, Flow};
use crate::hasher::{stepped, SignalledInjectionHasher};
use crate::protocol::{
    finish_of, lemma_payload_round_trip, marker_bytes_spec, marker_call, marker_str_spec,
    payload_call,
};
use crate::state::{SignalState, SignalStateKind};

verus! {

/// A fictitious slice length: the marker on the length-prefix channel. It
/// signals that an injected hash either was just handed over or is about to
/// be, depending on the flow.
pub const LEN_SIGNAL_HASH: usize = usize::MAX;

/// A fictitious slice length declaring that the sender submits the hash
/// before signalling; reserved for cross-checking a caller's flow.
pub const LEN_SIGNAL_CHECK_FLOW_IS_SUBMIT_FIRST: usize = usize::MAX - 1;

/// A fictitious slice length declaring that the sender signals before
/// submitting the hash; reserved for cross-checking a caller's flow.
pub const LEN_SIGNAL_CHECK_FLOW_IS_SIGNAL_FIRST: usize = usize::MAX - 2;

/// The content every marker table holds: one byte for the hash marker and
/// one for each flow-declaration marker.
pub open spec fn table_bytes_spec() -> Seq<u8> {
    seq![65u8, 66u8, 67u8]
}

/// The table of marker slices for the byte and string channels: three bytes
/// at a stable address, handed out as one-byte slices that are recognized by
/// address. The field is private, so no colliding instance can be
/// manufactured from ordinary data.
#[derive(Clone, Copy)]
pub struct MarkerTable {
    bytes: &'static [u8],
}

impl View for MarkerTable {
    type V = Seq<u8>;

    closed spec fn view(&self) -> Seq<u8> {
        self.bytes@
    }
}

impl MarkerTable {
    /// A fresh table with its own address.
    ///
    /// Relies on `ndd::NonDeDuplicated::new` and `ndd::NonDeDuplicated::get`:
    /// the wrapper keeps the bytes from being merged with equal constants,
    /// and the leaked allocation holds one stable address for the process's
    /// lifetime (the wrapper's `Drop`, which rejects non-static use, never
    /// runs on a leaked value).
    #[verifier::external_body]
    pub fn new() -> (r: Self)
        ensures
            r@ == table_bytes_spec(),
    {
        let table: &'static ndd::NonDeDuplicated<[u8; 3]> = Box::leak(Box::new(
            ndd::NonDeDuplicated::new([65u8, 66u8, 67u8]),
        ));
        Self { bytes: table.get().as_slice() }
    }

    /// A table over caller-supplied bytes with static lifetime, for one
    /// process-wide table shared by every session (for example a static
    /// `ndd::NonDeDuplicated` the embedding program owns).
    pub fn from_static(bytes: &'static [u8]) -> (r: Self)
        requires
            bytes@ == table_bytes_spec(),
        ensures
            r@ == table_bytes_spec(),
    {
        Self { bytes }
    }
}

/// The marker slice for the byte-sequence channel: the one-byte prefix of
/// the table, at the table's address.
pub fn u8s_signal_hash(t: &MarkerTable) -> (r: &[u8])
    requires
        t@ == table_bytes_spec(),
    ensures
        r@ == marker_bytes_spec(),
{
    proof {
        assert(t@.subrange(0, 1) =~= marker_bytes_spec());
    }
    slice_subrange(t.bytes, 0, 1)
}

/// The byte-channel slice declaring that the sender submits the hash before
/// signalling.
pub fn u8s_signal_check_flow_is_submit_first(t: &MarkerTable) -> (r: &[u8])
    requires
        t@ == table_bytes_spec(),
    ensures
        r@ == seq![66u8],
{
    proof {
        assert(t@.subrange(1, 2) =~= seq![66u8]);
    }
    slice_subrange(t.bytes, 1, 2)
}

/// The byte-channel slice declaring that the sender signals before
/// submitting the hash.
pub fn u8s_signal_check_flow_is_signal_first(t: &MarkerTable) -> (r: &[u8])
    requires
        t@ == table_bytes_spec(),
    ensures
        r@ == seq![67u8],
{
    proof {
        assert(t@.subrange(2, 3) =~= seq![67u8]);
    }
    slice_subrange(t.bytes, 2, 3)
}

/// The marker slice for the string channel: the same one-byte prefix viewed
/// as a string slice, at the table's address.
///
/// Relies on `core::str::from_utf8`: on the table's first byte, an ASCII
/// letter, it succeeds and returns a string slice over the same bytes at the
/// same address.
#[verifier::external_body]
pub fn str_signal_hash(t: &MarkerTable) -> (r: &str)
    requires
        t@ == table_bytes_spec(),
    ensures
        r@ == marker_str_spec(),
{
    core::str::from_utf8(&t.bytes[0..1]).unwrap()
}

/// Whether a byte slice is the table's hash-marker slice, compared by
/// address and length, never by content.
///
/// Relies on `core::ptr::eq` on slices: it compares address and length, and
/// equal address and length into immutable static bytes mean the very same
/// slice, so a positive answer implies the marker's content; a slice that
/// merely has equal content is answered negatively.
#[verifier::external_body]
pub fn is_ptr_signal_hash(t: &MarkerTable, other: &[u8]) -> (r: bool)
    requires
        t@ == table_bytes_spec(),
    ensures
        r ==> other@ == marker_bytes_spec(),
{
    core::ptr::eq(other, &t.bytes[0..1])
}

/// Whether a string slice is the table's hash-marker slice, compared by
/// address and length, never by content.
///
/// Relies on `str::as_bytes` and `core::ptr::eq` on slices, as the
/// byte-slice check does: a positive answer implies the marker's content.
#[verifier::external_body]
pub fn is_ptr_signal_hash_str(t: &MarkerTable, other: &str) -> (r: bool)
    requires
        t@ == table_bytes_spec(),
    ensures
        r ==> other@ == marker_str_spec(),
{
    core::ptr::eq(other.as_bytes(), &t.bytes[0..1])
}

/// Send the marker through the wrapper's designated channel.
pub fn signal<A: Accumulator>(hasher: &mut SignalledInjectionHasher<A>)
    requires
        old(hasher).wf(),
    ensures
        final(hasher).wf(),
        stepped(*old(hasher), *final(hasher), marker_call(old(hasher).spec_flags()), true),
{
    hasher.receive_signal();
}

/// Send the hash through the wrapper's designated width entry point,
/// widened losslessly to the configured width.
pub fn submit_hash<A: Accumulator>(hasher: &mut SignalledInjectionHasher<A>, hash: u64)
    requires
        old(hasher).wf(),
    ensures
        final(hasher).wf(),
        stepped(*old(hasher), *final(hasher), payload_call(old(hasher).spec_flags(), hash), false),
{
    match flags::hash_via(hasher.protocol_flags()) {
        flags::HashVia::U64 => hasher.write_u64(hash),
        flags::HashVia::I64 => hasher.write_i64(#[verifier::truncate] (hash as i64)),
        flags::HashVia::U128 => hasher.write_u128(hash as u128),
        flags::HashVia::I128 => hasher.write_i128(hash as i128),
    }
}

/// The injection driver: deliver `hash` to a freshly built wrapper, in the
/// order the wrapper's own descriptor dictates, so that `finish` reports
/// exactly `hash`.
///
/// Round-trip: for every descriptor and every 64-bit hash, the session ends
/// in `HashReceived` with that hash, and `finish` reports it. Nothing is
/// forwarded to the wrapped accumulator, except that a descriptor that
/// submits first forwards the one speculative payload call.
pub fn inject<A: Accumulator>(hasher: &mut SignalledInjectionHasher<A>, hash: u64)
    requires
        old(hasher).wf(),
        old(hasher).spec_state().kind == SignalStateKind::NothingWritten,
    ensures
        final(hasher).wf(),
        final(hasher).spec_flags() == old(hasher).spec_flags(),
        final(hasher).spec_state() == (SignalState { kind: SignalStateKind::HashReceived, hash }),
        finish_of(final(hasher).spec_state(), final(hasher).spec_inner().digest()) == hash,
        old(hasher).spec_flags().signal_first ==> final(hasher).spec_inner() == old(
            hasher,
        ).spec_inner(),
        !old(hasher).spec_flags().signal_first ==> final(hasher).spec_inner().calls() == old(
            hasher,
        ).spec_inner().calls().push(payload_call(old(hasher).spec_flags(), hash)),
{
    proof {
        lemma_payload_round_trip(old(hasher).spec_flags(), hash);
    }
    match flags::flow(hasher.protocol_flags()) {
        Flow::SubmitFirst => {
            submit_hash(hasher, hash);
            signal(hasher);
        },
        Flow::SignalFirst => {
            signal(hasher);
            submit_hash(hasher, hash);
        },
    }
}

/// The injection driver under its historical name, for the plain variant of
/// the protocol; identical to [`inject`].
pub fn signal_inject_hash<A: Accumulator>(hasher: &mut SignalledInjectionHasher<A>, hash: u64)
    requires
        old(hasher).wf(),
        old(hasher).spec_state().kind == SignalStateKind::NothingWritten,
    ensures
        final(hasher).wf(),
        final(hasher).spec_flags() == old(hasher).spec_flags(),
        final(hasher).spec_state() == (SignalState { kind: SignalStateKind::HashReceived, hash }),
        finish_of(final(hasher).spec_state(), final(hasher).spec_inner().digest()) == hash,
        old(hasher).spec_flags().signal_first ==> final(hasher).spec_inner() == old(
            hasher,
        ).spec_inner(),
        !old(hasher).spec_flags().signal_first ==> final(hasher).spec_inner().calls() == old(
            hasher,
        ).spec_inner().calls().push(payload_call(old(hasher).spec_flags(), hash)),
{
    inject(hasher, hash);
}

} // verus!
