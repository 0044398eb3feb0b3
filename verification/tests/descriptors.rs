//! The configuration descriptor and the session state machine on their own.

use hash_injector::flags::{
    flow, hash_via, is_hash_via_i128, is_hash_via_i64, is_hash_via_u128, is_hash_via_u64,
    is_signal_first, is_signal_via_len, is_signal_via_str, is_signal_via_u8s, is_submit_first,
    new_flags_signal_first, new_flags_submit_first, signal_via, Flow, HashVia, SignalVia,
};
use hash_injector::new_flags;
use hash_injector::state::{SignalState, SignalStateKind};

#[test]
fn plain_descriptors() {
    let sf = new_flags_signal_first();
    assert!(is_signal_first(sf));
    assert!(!is_submit_first(sf));
    assert!(is_signal_via_len(sf));
    assert!(!is_signal_via_u8s(sf));
    assert!(!is_signal_via_str(sf));
    assert!(is_hash_via_u64(sf));
    assert!(flow(sf) == Flow::SignalFirst);
    assert!(signal_via(sf) == SignalVia::Len);
    assert!(hash_via(sf) == HashVia::U64);

    let sub = new_flags_submit_first();
    assert!(!is_signal_first(sub));
    assert!(is_submit_first(sub));
    assert!(flow(sub) == Flow::SubmitFirst);
}

#[test]
fn constructor_families() {
    // Channel per family.
    assert!(is_signal_via_len(new_flags::len_u64::signal_first()));
    assert!(is_signal_via_len(new_flags::len_i64::submit_first()));
    assert!(is_signal_via_len(new_flags::len_u128::signal_first()));
    assert!(is_signal_via_len(new_flags::len_i128::submit_first()));
    assert!(is_signal_via_str(new_flags::str_u64::signal_first()));
    assert!(is_signal_via_str(new_flags::str_i64::submit_first()));
    assert!(is_signal_via_str(new_flags::str_u128::signal_first()));
    assert!(is_signal_via_str(new_flags::str_i128::submit_first()));
    assert!(is_signal_via_u8s(new_flags::u8s_u64::signal_first()));
    assert!(is_signal_via_u8s(new_flags::u8s_i64::submit_first()));
    assert!(is_signal_via_u8s(new_flags::u8s_u128::signal_first()));
    assert!(is_signal_via_u8s(new_flags::u8s_i128::submit_first()));

    // Flow per constructor.
    assert!(is_signal_first(new_flags::len_u64::signal_first()));
    assert!(is_submit_first(new_flags::len_u64::submit_first()));
    assert!(is_signal_first(new_flags::str_i128::signal_first()));
    assert!(is_submit_first(new_flags::str_i128::submit_first()));
    assert!(is_signal_first(new_flags::u8s_u128::signal_first()));
    assert!(is_submit_first(new_flags::u8s_u128::submit_first()));

    // Width per family.
    assert!(is_hash_via_u64(new_flags::len_u64::signal_first()));
    assert!(is_hash_via_i64(new_flags::len_i64::submit_first()));
    assert!(is_hash_via_u128(new_flags::len_u128::signal_first()));
    assert!(is_hash_via_i128(new_flags::len_i128::submit_first()));
    assert!(is_hash_via_u64(new_flags::str_u64::submit_first()));
    assert!(is_hash_via_i64(new_flags::str_i64::signal_first()));
    assert!(is_hash_via_u128(new_flags::u8s_u128::submit_first()));
    assert!(is_hash_via_i128(new_flags::u8s_i128::signal_first()));
}

#[test]
fn state_lifecycle() {
    let nothing = SignalState::new_nothing_written();
    assert!(nothing.is_nothing_written());
    assert!(nothing.is_nothing_written_or_ordinary_hash());
    assert!(!nothing.is_hash_received());
    nothing.assert_nothing_written();
    nothing.assert_nothing_written_or_ordinary_hash();

    let mut ordinary = SignalState::new_nothing_written();
    ordinary.set_written_ordinary_hash();
    assert!(!ordinary.is_nothing_written());
    assert!(ordinary.is_nothing_written_or_ordinary_hash());
    assert!(!ordinary.is_hash_received());

    let sf = new_flags_signal_first();
    let mut signalled = SignalState::new_nothing_written();
    signalled.set_signalled_proposal_coming(sf);
    assert!(signalled.is_signalled_proposal_coming(sf));
    assert!(!signalled.is_nothing_written());
    assert!(!signalled.is_nothing_written_or_ordinary_hash());
    assert!(!signalled.is_nothing_written_or_ordinary_hash_or_possibly_submitted(sf));
    assert!(!signalled.is_hash_received());

    let sub = new_flags_submit_first();
    let submitted = SignalState::new_hash_possibly_submitted(17, sub);
    assert!(submitted.is_hash_possibly_submitted(sub));
    assert!(!submitted.is_nothing_written());
    assert!(!submitted.is_nothing_written_or_ordinary_hash());
    assert!(submitted.is_nothing_written_or_ordinary_hash_or_possibly_submitted(sub));
    assert!(!submitted.is_hash_received());

    let mut received = SignalState::new_hash_possibly_submitted(17, sub);
    received.set_hash_received();
    assert!(received.is_hash_received());
    assert_eq!(received, SignalState::new_hash_received(17));
    assert!(!received.is_nothing_written_or_ordinary_hash_or_possibly_submitted(sub));
    assert!(!received.is_nothing_written_or_ordinary_hash_or_possibly_submitted(sf));
}

#[test]
fn state_constructors_and_kind() {
    let s = SignalState::new(SignalStateKind::HashReceived, 3);
    assert_eq!(s, SignalState::new_hash_received(3));
    assert!(s.kind.equals(&SignalStateKind::HashReceived));
    assert!(!s.kind.equals(&SignalStateKind::NothingWritten));
    assert_eq!(
        s.kind.type_and_variant(),
        "SignalStateKindImpl::HashReceived"
    );
    assert_eq!(
        SignalStateKind::NothingWritten.type_and_variant(),
        "SignalStateKindImpl::NothingWritten"
    );
    assert_eq!(
        SignalStateKind::WrittenOrdinaryHash.type_and_variant(),
        "SignalStateKindImpl::WrittenOrdinaryHash"
    );
    assert_eq!(
        SignalStateKind::SignalledProposalComing.type_and_variant(),
        "SignalStateKindImpl::SignalledProposalComing"
    );
    assert_eq!(
        SignalStateKind::HashPossiblySubmitted.type_and_variant(),
        "SignalStateKindImpl::HashPossiblySubmitted"
    );
}
