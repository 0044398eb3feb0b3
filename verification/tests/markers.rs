//! The identity-compared marker slices of the byte and string channels.

use hash_injector::hasher::SignalledInjectionHasher;
use hash_injector::new_flags;
use hash_injector::recording::RecordingAccumulator;
use hash_injector::signal::{
    is_ptr_signal_hash, is_ptr_signal_hash_str, str_signal_hash, u8s_signal_hash,
    u8s_signal_check_flow_is_signal_first, u8s_signal_check_flow_is_submit_first, MarkerTable,
};
use hash_injector::Accumulator;

/// The table's slices hold the canonical content.
#[test]
fn table_slices_content() {
    let t = MarkerTable::new();
    assert_eq!(u8s_signal_hash(&t), &[65u8]);
    assert_eq!(u8s_signal_check_flow_is_submit_first(&t), &[66u8]);
    assert_eq!(u8s_signal_check_flow_is_signal_first(&t), &[67u8]);
    assert_eq!(str_signal_hash(&t), "A");
}

/// The marker is recognized by address: the table's own slice passes, a
/// content-equal slice from elsewhere does not.
#[test]
fn marker_identity_not_content() {
    let t = MarkerTable::new();
    let own = u8s_signal_hash(&t);
    assert!(is_ptr_signal_hash(&t, own));

    let lookalike = [65u8];
    assert!(!is_ptr_signal_hash(&t, &lookalike));

    let own_str = str_signal_hash(&t);
    assert!(is_ptr_signal_hash_str(&t, own_str));
    assert!(!is_ptr_signal_hash_str(&t, "A"));

    // The flow-declaration slices are not the hash marker.
    assert!(!is_ptr_signal_hash(&t, u8s_signal_check_flow_is_submit_first(&t)));
    assert!(!is_ptr_signal_hash(&t, u8s_signal_check_flow_is_signal_first(&t)));
}

/// Two tables do not recognize each other's slices.
#[test]
fn tables_are_distinct() {
    let t1 = MarkerTable::new();
    let t2 = MarkerTable::new();
    assert!(!is_ptr_signal_hash(&t1, u8s_signal_hash(&t2)));
    assert!(!is_ptr_signal_hash(&t2, u8s_signal_hash(&t1)));
}

/// On the byte channel, writing the table's own marker slice signals and
/// completes the injection.
#[test]
fn byte_channel_marker_signals() {
    let t = MarkerTable::new();
    let flags = new_flags::u8s_u64::submit_first();
    let mut h = SignalledInjectionHasher::new(flags, RecordingAccumulator::new(), Some(t));
    h.write_u64(42);
    let m = u8s_signal_hash(&t);
    h.write(m);
    assert_eq!(h.finish(), 42);
}

/// On the byte channel, a content-equal slice from ordinary data does not
/// signal: it invalidates the speculative submission instead.
#[test]
fn byte_channel_lookalike_does_not_signal() {
    let t = MarkerTable::new();
    let flags = new_flags::u8s_u64::submit_first();
    let mut h = SignalledInjectionHasher::new(flags, RecordingAccumulator::new(), Some(t));
    h.write_u64(42);
    let lookalike = [65u8];
    h.write(&lookalike);

    let mut plain = RecordingAccumulator::new();
    plain.write_u64(42);
    plain.write(&lookalike);

    assert_ne!(h.finish(), 42);
    assert_eq!(h.finish(), plain.finish());
}

/// The same, on the string channel.
#[test]
fn str_channel_marker_signals() {
    let t = MarkerTable::new();
    let flags = new_flags::str_u64::signal_first();
    let mut h = SignalledInjectionHasher::new(flags, RecordingAccumulator::new(), Some(t));
    let m = str_signal_hash(&t);
    h.write_str(m);
    h.write_u64(7);
    assert_eq!(h.finish(), 7);
}

/// A content-equal string literal does not signal on the string channel.
#[test]
fn str_channel_lookalike_does_not_signal() {
    let t = MarkerTable::new();
    let flags = new_flags::str_u64::signal_first();
    let mut h = SignalledInjectionHasher::new(flags, RecordingAccumulator::new(), Some(t));
    h.write_str("A");
    h.write_u64(7);

    let mut plain = RecordingAccumulator::new();
    plain.write_str("A");
    plain.write_u64(7);

    assert_eq!(h.finish(), plain.finish());
}

/// A caller-owned table with static lifetime, as an embedding program's
/// process-wide table would be, works through `from_static`.
#[test]
fn from_static_table() {
    let table_bytes: &'static [u8; 3] = Box::leak(Box::new([65u8, 66u8, 67u8]));
    let t = MarkerTable::from_static(table_bytes.as_slice());
    assert!(is_ptr_signal_hash(&t, u8s_signal_hash(&t)));

    let flags = new_flags::u8s_i64::submit_first();
    let mut h = SignalledInjectionHasher::new(flags, RecordingAccumulator::new(), Some(t));
    h.write_i64(-1);
    h.write(u8s_signal_hash(&t));
    assert_eq!(h.finish(), u64::MAX);
}
