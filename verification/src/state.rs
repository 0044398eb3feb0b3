//! The per-session state machine: the authoritative record of what one
//! accumulator session has seen so far.

use vstd::prelude::*;

use crate::flags::ProtocolFlags;

verus! {

/// The progress of one injection session. Variants are listed in order of
/// their usual progression.
#[derive(Clone, Copy, PartialEq, Eq, Structural, Debug)]
pub enum SignalStateKindImpl {
    NothingWritten,
    /// Ordinary hash data (or a part of it) has been written.
    WrittenOrdinaryHash,
    /// The marker arrived and a hash proposal is coming. Reachable only under
    /// a descriptor that signals first.
    SignalledProposalComing,
    /// A payload-width value arrived and may be an injected hash, pending the
    /// marker. Reachable only under a descriptor that submits first.
    HashPossiblySubmitted,
    /// The injected hash has been received; terminal for the session.
    HashReceived,
}

/// The state kind under its interface name.
pub type SignalStateKind = SignalStateKindImpl;

impl SignalStateKindImpl {
    /// Variant equality.
    pub fn equals(&self, other: &Self) -> (r: bool)
        ensures
            r == (self == other),
    {
        match (self, other) {
            (Self::NothingWritten, Self::NothingWritten) => true,
            (Self::WrittenOrdinaryHash, Self::WrittenOrdinaryHash) => true,
            (Self::SignalledProposalComing, Self::SignalledProposalComing) => true,
            (Self::HashPossiblySubmitted, Self::HashPossiblySubmitted) => true,
            (Self::HashReceived, Self::HashReceived) => true,
            _ => false,
        }
    }

    /// The type and variant name, for diagnostics.
    pub fn type_and_variant(&self) -> (r: &'static str)
        ensures
            self == SignalStateKindImpl::NothingWritten ==> r@ == "SignalStateKindImpl::NothingWritten"@,
            self == SignalStateKindImpl::WrittenOrdinaryHash ==> r@ == "SignalStateKindImpl::WrittenOrdinaryHash"@,
            self == SignalStateKindImpl::SignalledProposalComing ==> r@ == "SignalStateKindImpl::SignalledProposalComing"@,
            self == SignalStateKindImpl::HashPossiblySubmitted ==> r@ == "SignalStateKindImpl::HashPossiblySubmitted"@,
            self == SignalStateKindImpl::HashReceived ==> r@ == "SignalStateKindImpl::HashReceived"@,
    {
        match self {
            Self::NothingWritten => "SignalStateKindImpl::NothingWritten",
            Self::WrittenOrdinaryHash => "SignalStateKindImpl::WrittenOrdinaryHash",
            Self::SignalledProposalComing => "SignalStateKindImpl::SignalledProposalComing",
            Self::HashPossiblySubmitted => "SignalStateKindImpl::HashPossiblySubmitted",
            Self::HashReceived => "SignalStateKindImpl::HashReceived",
        }
    }
}

/// One session's state: the kind, and the candidate or received hash. The
/// hash is meaningful only when the kind is `HashPossiblySubmitted` or
/// `HashReceived`.
#[derive(Clone, Copy, PartialEq, Eq, Structural, Debug)]
pub struct SignalState {
    pub kind: SignalStateKind,
    /// Only valid if [`SignalState::kind`] is appropriate.
    pub hash: u64,
}

/// Whether the state is one a validation build accepts before an ordinary
/// write: nothing written yet, or only ordinary data written, or - only under
/// a descriptor that submits first - a hash possibly submitted.
pub open spec fn spec_nothing_written_or_ordinary_hash_or_possibly_submitted(
    s: SignalState,
    flags: ProtocolFlags,
) -> bool {
    if flags.signal_first {
        s.kind == SignalStateKind::NothingWritten || s.kind == SignalStateKind::WrittenOrdinaryHash
    } else {
        s.kind != SignalStateKind::HashReceived
    }
}

impl SignalState {
    /// A state with the given kind and hash. The hash is stored, but
    /// irrelevant if the kind is not appropriate.
    pub fn new(kind: SignalStateKind, hash: u64) -> (r: Self)
        ensures
            r == (SignalState { kind, hash }),
    {
        Self { kind, hash }
    }

    /// The state every session starts in.
    pub fn new_nothing_written() -> (r: Self)
        ensures
            r == (SignalState { kind: SignalStateKind::NothingWritten, hash: 0 }),
    {
        Self { kind: SignalStateKind::NothingWritten, hash: 0 }
    }

    /// Record that ordinary hash data has been written.
    pub fn set_written_ordinary_hash(&mut self)
        ensures
            *final(self) == (SignalState { kind: SignalStateKind::WrittenOrdinaryHash, hash: old(self).hash }),
    {
        self.kind = SignalStateKind::WrittenOrdinaryHash;
    }

    /// Record that it was signalled that a hash proposal is coming. Supported
    /// only for descriptors that signal first.
    pub fn set_signalled_proposal_coming(&mut self, flags: ProtocolFlags)
        requires
            flags.signal_first,
        ensures
            *final(self) == (SignalState { kind: SignalStateKind::SignalledProposalComing, hash: old(self).hash }),
    {
        self.kind = SignalStateKind::SignalledProposalComing;
    }

    /// A state holding the given value as a possibly submitted hash.
    /// Supported only for descriptors that submit first.
    pub fn new_hash_possibly_submitted(hash: u64, flags: ProtocolFlags) -> (r: Self)
        requires
            !flags.signal_first,
        ensures
            r == (SignalState { kind: SignalStateKind::HashPossiblySubmitted, hash }),
    {
        Self { kind: SignalStateKind::HashPossiblySubmitted, hash }
    }

    /// Record that the stored candidate hash has been confirmed as received.
    pub fn set_hash_received(&mut self)
        ensures
            *final(self) == (SignalState { kind: SignalStateKind::HashReceived, hash: old(self).hash }),
    {
        self.kind = SignalStateKind::HashReceived;
    }

    /// A state holding the given value as the received hash.
    pub fn new_hash_received(hash: u64) -> (r: Self)
        ensures
            r == (SignalState { kind: SignalStateKind::HashReceived, hash }),
    {
        Self { kind: SignalStateKind::HashReceived, hash }
    }

    /// Whether nothing has been written yet.
    pub fn is_nothing_written(&self) -> (r: bool)
        ensures
            r == (self.kind == SignalStateKind::NothingWritten),
    {
        matches!(self.kind, SignalStateKind::NothingWritten)
    }

    /// Whether nothing has been written, or only ordinary hash data.
    pub fn is_nothing_written_or_ordinary_hash(&self) -> (r: bool)
        ensures
            r == (self.kind == SignalStateKind::NothingWritten
                || self.kind == SignalStateKind::WrittenOrdinaryHash),
    {
        matches!(
            self.kind,
            SignalStateKind::NothingWritten | SignalStateKind::WrittenOrdinaryHash
        )
    }

    /// Whether the state is nothing written, ordinary data written, or - only
    /// checked under a descriptor that submits first, where alone it is
    /// applicable - a hash possibly submitted.
    pub fn is_nothing_written_or_ordinary_hash_or_possibly_submitted(
        &self,
        flags: ProtocolFlags,
    ) -> (r: bool)
        requires
            flags.signal_first || self.kind != SignalStateKind::SignalledProposalComing,
        ensures
            r == spec_nothing_written_or_ordinary_hash_or_possibly_submitted(*self, flags),
    {
        if flags.signal_first {
            matches!(
                self.kind,
                SignalStateKind::NothingWritten | SignalStateKind::WrittenOrdinaryHash
            )
        } else {
            !matches!(self.kind, SignalStateKind::HashReceived)
        }
    }

    /// Whether it was signalled that a hash proposal is coming. Supported
    /// only for descriptors that signal first.
    pub fn is_signalled_proposal_coming(&self, flags: ProtocolFlags) -> (r: bool)
        requires
            flags.signal_first,
        ensures
            r == (self.kind == SignalStateKind::SignalledProposalComing),
    {
        matches!(self.kind, SignalStateKindImpl::SignalledProposalComing)
    }

    /// Whether a hash was possibly submitted. Supported only for descriptors
    /// that submit first.
    pub fn is_hash_possibly_submitted(&self, flags: ProtocolFlags) -> (r: bool)
        requires
            !flags.signal_first,
        ensures
            r == (self.kind == SignalStateKind::HashPossiblySubmitted),
    {
        matches!(self.kind, SignalStateKind::HashPossiblySubmitted)
    }

    /// Whether the injected hash has been received.
    pub fn is_hash_received(&self) -> (r: bool)
        ensures
            r == (self.kind == SignalStateKind::HashReceived),
    {
        matches!(self.kind, SignalStateKindImpl::HashReceived)
    }

    /// Validation hook: the caller must have established that nothing has
    /// been written. A production configuration elides the check, so the body
    /// does nothing; here the condition is a precondition instead.
    pub fn assert_nothing_written(&self)
        requires
            self.kind == SignalStateKind::NothingWritten,
    {
    }

    /// Validation hook: the caller must have established that nothing beyond
    /// ordinary hash data has been written.
    pub fn assert_nothing_written_or_ordinary_hash(&self)
        requires
            self.kind == SignalStateKind::NothingWritten
                || self.kind == SignalStateKind::WrittenOrdinaryHash,
    {
    }

    /// Validation hook: the caller must have established that no marker has
    /// been consumed (where the descriptor signals first) and that no hash
    /// has been received.
    pub fn assert_nothing_written_or_ordinary_hash_or_possibly_submitted(
        &self,
        flags: ProtocolFlags,
    )
        requires
            spec_nothing_written_or_ordinary_hash_or_possibly_submitted(*self, flags),
    {
    }
}

} // verus!
