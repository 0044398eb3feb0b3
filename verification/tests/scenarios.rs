//! End-to-end scenarios over the wrapper and the reference accumulator.

use hash_injector::flags::{new_flags_signal_first, new_flags_submit_first};
use hash_injector::hasher::{SignalledInjectionBuildHasher, SignalledInjectionHasher};
use hash_injector::new_flags;
use hash_injector::recording::{RecordingAccumulator, RecordingFactory};
use hash_injector::signal::{inject, signal_inject_hash, MarkerTable, LEN_SIGNAL_HASH};
use hash_injector::Accumulator;

/// Scenario A: length-prefix channel, signal first, u64 width.
#[test]
fn scenario_signal_first_roundtrip() {
    let flags = new_flags_signal_first();
    let mut h = SignalledInjectionHasher::new(flags, RecordingAccumulator::new(), None);
    inject(&mut h, 0xDEADBEEF);
    assert_eq!(h.finish(), 0xDEADBEEF);
}

/// Scenario B: length-prefix channel, submit first, u64 width.
#[test]
fn scenario_submit_first_roundtrip() {
    let flags = new_flags_submit_first();
    let mut h = SignalledInjectionHasher::new(flags, RecordingAccumulator::new(), None);
    inject(&mut h, 42);
    assert_eq!(h.finish(), 42);
}

/// Scenario C: as B, but ordinary data after the completed injection makes
/// `finish` report the wrapped accumulator's genuine digest over the
/// forwarded speculative payload and the new data - not 42.
#[test]
fn scenario_data_after_injection() {
    let flags = new_flags_submit_first();
    let mut h = SignalledInjectionHasher::new(flags, RecordingAccumulator::new(), None);
    inject(&mut h, 42);
    h.write_u32(7);

    let mut plain = RecordingAccumulator::new();
    plain.write_u64(42);
    plain.write_u32(7);

    assert_ne!(h.finish(), 42);
    assert_eq!(h.finish(), plain.finish());
}

/// Non-forwarding on success: under signal-first, a completed injection has
/// touched the wrapped accumulator not at all, so ordinary data written
/// afterwards digests as if it were the only data ever written.
#[test]
fn non_forwarding_on_success_signal_first() {
    let flags = new_flags_signal_first();
    let mut h = SignalledInjectionHasher::new(flags, RecordingAccumulator::new(), None);
    inject(&mut h, 99);
    h.write_u32(7);

    let mut plain = RecordingAccumulator::new();
    plain.write_u32(7);

    assert_eq!(h.finish(), plain.finish());
}

/// Invalidation: under submit-first, ordinary data between the speculative
/// payload and the marker prevents `HashReceived`; the late marker is
/// forwarded as ordinary data and `finish` reports the genuine digest over
/// everything forwarded.
#[test]
fn invalidation_before_marker() {
    let flags = new_flags_submit_first();
    let mut h = SignalledInjectionHasher::new(flags, RecordingAccumulator::new(), None);
    h.write_u64(42);
    h.write_u32(7);
    h.write_length_prefix(LEN_SIGNAL_HASH);

    let mut plain = RecordingAccumulator::new();
    plain.write_u64(42);
    plain.write_u32(7);
    plain.write_length_prefix(LEN_SIGNAL_HASH);

    assert_ne!(h.finish(), 42);
    assert_eq!(h.finish(), plain.finish());
}

/// Premature marker under submit-first: in a production configuration it is
/// treated as ordinary data and later calls are not corrupted.
#[test]
fn premature_marker_degrades_to_ordinary() {
    let flags = new_flags_submit_first();
    let mut h = SignalledInjectionHasher::new(flags, RecordingAccumulator::new(), None);
    h.write_length_prefix(LEN_SIGNAL_HASH);
    h.write_u32(7);

    let mut plain = RecordingAccumulator::new();
    plain.write_length_prefix(LEN_SIGNAL_HASH);
    plain.write_u32(7);

    assert_eq!(h.finish(), plain.finish());
}

/// Terminal state: `finish` after a completed injection is idempotent and
/// keeps reporting the injected value.
#[test]
fn finish_is_idempotent_after_injection() {
    let flags = new_flags_signal_first();
    let mut h = SignalledInjectionHasher::new(flags, RecordingAccumulator::new(), None);
    inject(&mut h, 0x1234_5678_9ABC_DEF0);
    assert_eq!(h.finish(), 0x1234_5678_9ABC_DEF0);
    assert_eq!(h.finish(), 0x1234_5678_9ABC_DEF0);
    assert_eq!(h.finish(), 0x1234_5678_9ABC_DEF0);
}

/// An ordinary length prefix, below the reserved values, does not signal.
#[test]
fn ordinary_length_prefix_is_forwarded() {
    let flags = new_flags_signal_first();
    let mut h = SignalledInjectionHasher::new(flags, RecordingAccumulator::new(), None);
    h.write_length_prefix(12);

    let mut plain = RecordingAccumulator::new();
    plain.write_length_prefix(12);

    assert_eq!(h.finish(), plain.finish());
}

/// Round-trip over every supported descriptor and several hash values,
/// including ones whose high bit is set in every configured width.
#[test]
fn roundtrip_all_descriptors() {
    let table = MarkerTable::new();
    let descriptors = [
        new_flags::len_u64::signal_first(),
        new_flags::len_u64::submit_first(),
        new_flags::len_i64::signal_first(),
        new_flags::len_i64::submit_first(),
        new_flags::len_u128::signal_first(),
        new_flags::len_u128::submit_first(),
        new_flags::len_i128::signal_first(),
        new_flags::len_i128::submit_first(),
        new_flags::str_u64::signal_first(),
        new_flags::str_u64::submit_first(),
        new_flags::str_i64::signal_first(),
        new_flags::str_i64::submit_first(),
        new_flags::str_u128::signal_first(),
        new_flags::str_u128::submit_first(),
        new_flags::str_i128::signal_first(),
        new_flags::str_i128::submit_first(),
        new_flags::u8s_u64::signal_first(),
        new_flags::u8s_u64::submit_first(),
        new_flags::u8s_i64::signal_first(),
        new_flags::u8s_i64::submit_first(),
        new_flags::u8s_u128::signal_first(),
        new_flags::u8s_u128::submit_first(),
        new_flags::u8s_i128::signal_first(),
        new_flags::u8s_i128::submit_first(),
    ];
    let hashes = [0u64, 1, 42, 0xDEADBEEF, u64::MAX, 0x8000_0000_0000_0000];
    for flags in descriptors {
        for hash in hashes {
            let mut h =
                SignalledInjectionHasher::new(flags, RecordingAccumulator::new(), Some(table));
            inject(&mut h, hash);
            assert_eq!(h.finish(), hash);
        }
    }
}

/// The driver under its historical name behaves identically.
#[test]
fn signal_inject_hash_roundtrip() {
    let flags = new_flags_submit_first();
    let mut h = SignalledInjectionHasher::new(flags, RecordingAccumulator::new(), None);
    signal_inject_hash(&mut h, 0xBEEF);
    assert_eq!(h.finish(), 0xBEEF);
}

/// A factory hands out independent sessions bound to one descriptor.
#[test]
fn build_hasher_sessions() {
    let flags = new_flags_signal_first();
    let build = SignalledInjectionBuildHasher::new(flags, RecordingFactory::new(), None);
    let mut a = build.build_hasher();
    let mut b = build.build_hasher();
    inject(&mut a, 5);
    b.write_u8(9);
    assert_eq!(a.finish(), 5);

    let mut plain = RecordingAccumulator::new();
    plain.write_u8(9);
    assert_eq!(b.finish(), plain.finish());
}

/// An empty wrapper delegates `finish` to the fresh wrapped accumulator.
#[test]
fn empty_wrapper_delegates_finish() {
    let flags = new_flags_signal_first();
    let h = SignalledInjectionHasher::new(flags, RecordingAccumulator::new(), None);
    let plain = RecordingAccumulator::new();
    assert_eq!(h.finish(), plain.finish());
}

/// Every forwarding entry point reaches the wrapped accumulator: the
/// wrapper and a plain accumulator fed the same calls agree on the digest.
#[test]
fn forwarding_matches_plain_accumulator() {
    let flags = new_flags_signal_first();
    let mut h = SignalledInjectionHasher::new(flags, RecordingAccumulator::new(), None);
    let mut plain = RecordingAccumulator::new();
    h.write(&[1, 2, 3]);
    plain.write(&[1, 2, 3]);
    h.write_u8(8);
    plain.write_u8(8);
    h.write_u16(16);
    plain.write_u16(16);
    h.write_u32(32);
    plain.write_u32(32);
    h.write_u128(1 << 100);
    plain.write_u128(1 << 100);
    h.write_usize(64);
    plain.write_usize(64);
    h.write_i8(-8);
    plain.write_i8(-8);
    h.write_i16(-16);
    plain.write_i16(-16);
    h.write_i32(-32);
    plain.write_i32(-32);
    h.write_i64(-64);
    plain.write_i64(-64);
    h.write_i128(-(1 << 100));
    plain.write_i128(-(1 << 100));
    h.write_isize(-1);
    plain.write_isize(-1);
    h.write_str("ordinary");
    plain.write_str("ordinary");
    h.write_length_prefix(3);
    plain.write_length_prefix(3);
    assert_eq!(h.finish(), plain.finish());
}

/// Exact digest values of the reference accumulator: the starting state for
/// an empty session, and one two-word fold per the mix formula.
#[test]
fn reference_digest_exact_values() {
    let empty = RecordingAccumulator::new();
    assert_eq!(empty.finish(), 0xcbf29ce484222325);

    let mut one = RecordingAccumulator::new();
    one.write_u8(5);
    assert_eq!(one.finish(), 0x08394f07b4f12dc0);

    let mut lp = RecordingAccumulator::new();
    lp.write_length_prefix(3);
    assert_eq!(lp.finish(), 0x0846ed07b4fcc496);
}

/// Different forwarded data gives a different digest: the reference
/// accumulator is content-sensitive.
#[test]
fn digest_is_content_sensitive() {
    let mut a = RecordingAccumulator::new();
    let mut b = RecordingAccumulator::new();
    a.write(&[1, 2, 3]);
    b.write(&[1, 2, 4]);
    assert_ne!(a.finish(), b.finish());

    let mut c = RecordingAccumulator::new();
    let mut d = RecordingAccumulator::new();
    c.write_str("ab");
    d.write_str("ba");
    assert_ne!(c.finish(), d.finish());
}
