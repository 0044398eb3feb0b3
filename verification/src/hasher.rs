//! The accumulator wrapper: it exposes every entry point of the
//! incremental-hash interface, intercepts the designated channel and width
//! entry points as the session state machine dictates, and forwards
//! everything else unchanged to the wrapped accumulator.

use vstd::prelude::*;

use crate::accumulator::{Accumulator, AccumulatorFactory};
use crate::flags::{self, Flow, ProtocolFlags, SignalVia};
use crate::protocol::{
    finish_of, marker_bytes_spec, marker_call, marker_str_spec, step, WriteCall,
};
use crate::signal::{
    is_ptr_signal_hash, is_ptr_signal_hash_str, str_signal_hash, table_bytes_spec,
    u8s_signal_hash, MarkerTable, LEN_SIGNAL_HASH,
};
use crate::state::{
    spec_nothing_written_or_ordinary_hash_or_possibly_submitted, SignalState, SignalStateKind,
};

verus! {

/// The result of handing a width call to the state machine: whether the
/// caller must still write the value to the wrapped accumulator. The state
/// has already been updated; the caller must do nothing else.
pub struct PossiblySubmitResult {
    must_write_data_afterwards: bool,
}

impl PossiblySubmitResult {
    /// Whether the caller must still write the value onwards.
    pub closed spec fn spec_must_write(&self) -> bool {
        self.must_write_data_afterwards
    }

    /// Package the decision.
    pub fn new(must_write_data_afterwards: bool) -> (r: Self)
        ensures
            r.spec_must_write() == must_write_data_afterwards,
    {
        Self { must_write_data_afterwards }
    }

    /// Whether the caller must still write the value onwards.
    pub fn must_write_data_afterwards(self) -> (r: bool)
        ensures
            r == self.spec_must_write(),
    {
        self.must_write_data_afterwards
    }
}

/// The wrapper: the wrapped accumulator, the session state, the immutable
/// descriptor it was built with, and - for the byte and string channels -
/// the marker table whose slices it recognizes by address.
pub struct SignalledInjectionHasher<A: Accumulator> {
    flags: ProtocolFlags,
    hasher: A,
    state: SignalState,
    table: Option<MarkerTable>,
}

impl<A: Accumulator> SignalledInjectionHasher<A> {
    /// The descriptor the wrapper was built with; never changed afterwards.
    pub closed spec fn spec_flags(&self) -> ProtocolFlags {
        self.flags
    }

    /// The session state.
    pub closed spec fn spec_state(&self) -> SignalState {
        self.state
    }

    /// The wrapped accumulator.
    pub closed spec fn spec_inner(&self) -> A {
        self.hasher
    }

    /// The marker table, where the channel needs one.
    pub closed spec fn spec_table(&self) -> Option<MarkerTable> {
        self.table
    }

    /// Well-formedness: the wrapped accumulator is well formed, the session
    /// state fits the configured flow, and a channel that recognizes marker
    /// slices carries a table with the canonical content.
    pub open spec fn wf(&self) -> bool {
        &&& self.spec_inner().wf()
        &&& (self.spec_state().kind == SignalStateKind::SignalledProposalComing
            ==> self.spec_flags().signal_first)
        &&& (self.spec_state().kind == SignalStateKind::HashPossiblySubmitted
            ==> !self.spec_flags().signal_first)
        &&& (self.spec_flags().signal_via != SignalVia::Len ==> self.spec_table() is Some
            && self.spec_table().unwrap()@ == table_bytes_spec())
    }

    /// Wrap a fresh accumulator. The descriptor is fixed for the wrapper's
    /// lifetime; channels that recognize marker slices need a table.
    pub fn new(flags: ProtocolFlags, hasher: A, table: Option<MarkerTable>) -> (r: Self)
        requires
            hasher.wf(),
            flags.signal_via != SignalVia::Len ==> table is Some && table.unwrap()@
                == table_bytes_spec(),
        ensures
            r.wf(),
            r.spec_flags() == flags,
            r.spec_inner() == hasher,
            r.spec_state() == (SignalState { kind: SignalStateKind::NothingWritten, hash: 0 }),
            r.spec_table() == table,
    {
        Self { flags, hasher, state: SignalState::new_nothing_written(), table }
    }

    /// The wrapper's descriptor.
    pub fn protocol_flags(&self) -> (r: ProtocolFlags)
        ensures
            r == self.spec_flags(),
    {
        self.flags
    }

    /// Validation hook: the caller must have established the expected state
    /// kind.
    pub fn assert_state_kind(&self, expected_state_kind: SignalStateKind)
        requires
            self.spec_state().kind == expected_state_kind,
    {
    }

    /// Record that ordinary hash data has been forwarded.
    fn written_ordinary_hash(&mut self)
        ensures
            final(self).spec_flags() == old(self).spec_flags(),
            final(self).spec_inner() == old(self).spec_inner(),
            final(self).spec_table() == old(self).spec_table(),
            final(self).spec_state() == (SignalState {
                kind: SignalStateKind::WrittenOrdinaryHash,
                hash: old(self).spec_state().hash,
            }),
    {
        self.state.set_written_ordinary_hash();
    }

    /// Validation hook: the caller must have established that nothing has
    /// been written.
    pub fn assert_nothing_written(&self)
        requires
            self.spec_state().kind == SignalStateKind::NothingWritten,
    {
    }

    /// Validation hook: the caller must have established that nothing beyond
    /// ordinary hash data has been written.
    pub fn assert_nothing_written_or_ordinary_hash(&self)
        requires
            self.spec_state().kind == SignalStateKind::NothingWritten || self.spec_state().kind
                == SignalStateKind::WrittenOrdinaryHash,
    {
    }

    /// Validation hook: the caller must have established that no marker has
    /// been consumed and no hash received.
    pub fn assert_nothing_written_or_ordinary_hash_or_possibly_submitted(&self)
        requires
            spec_nothing_written_or_ordinary_hash_or_possibly_submitted(
                self.spec_state(),
                self.spec_flags(),
            ),
    {
    }

    /// Hand a width call's value to the state machine, as the flow dictates:
    /// confirm a signalled proposal, start a speculative submission, or
    /// invalidate a pending one. The caller must forward the value to the
    /// wrapped accumulator exactly when the result says so.
    fn possibly_submit(&mut self, i: u64) -> (r: PossiblySubmitResult)
        requires
            old(self).wf(),
        ensures
            final(self).wf(),
            final(self).spec_flags() == old(self).spec_flags(),
            final(self).spec_inner() == old(self).spec_inner(),
            final(self).spec_table() == old(self).spec_table(),
            ({
                let f = old(self).spec_flags();
                let s = old(self).spec_state();
                if f.signal_first {
                    if s.kind == SignalStateKind::SignalledProposalComing {
                        &&& final(self).spec_state() == (SignalState {
                            kind: SignalStateKind::HashReceived,
                            hash: i,
                        })
                        &&& !r.spec_must_write()
                    } else {
                        &&& final(self).spec_state() == (SignalState {
                            kind: SignalStateKind::WrittenOrdinaryHash,
                            hash: s.hash,
                        })
                        &&& r.spec_must_write()
                    }
                } else {
                    if s.kind == SignalStateKind::NothingWritten {
                        &&& final(self).spec_state() == (SignalState {
                            kind: SignalStateKind::HashPossiblySubmitted,
                            hash: i,
                        })
                        &&& r.spec_must_write()
                    } else {
                        &&& final(self).spec_state() == (SignalState {
                            kind: SignalStateKind::WrittenOrdinaryHash,
                            hash: s.hash,
                        })
                        &&& r.spec_must_write()
                    }
                }
            }),
    {
        match flags::flow(self.flags) {
            Flow::SignalFirst => {
                if self.state.is_signalled_proposal_coming(self.flags) {
                    self.state = SignalState::new_hash_received(i);
                    PossiblySubmitResult::new(false)
                } else {
                    self.written_ordinary_hash();
                    PossiblySubmitResult::new(true)
                }
            },
            Flow::SubmitFirst => {
                if self.state.is_nothing_written() {
                    self.state = SignalState::new_hash_possibly_submitted(i, self.flags);
                } else {
                    // More data arrived, so an earlier speculative submission
                    // cannot have been an injection.
                    self.state.set_written_ordinary_hash();
                }
                PossiblySubmitResult::new(true)
            },
        }
    }

    /// Consume the marker on the designated channel, as if the marker slice
    /// (or reserved length) had arrived on that entry point: the recognized
    /// transition of the state machine, including the degraded forwarding of
    /// a premature marker.
    pub fn receive_signal(&mut self)
        requires
            old(self).wf(),
        ensures
            final(self).wf(),
            stepped(*old(self), *final(self), marker_call(old(self).spec_flags()), true),
    {
        match flags::signal_via(self.flags) {
            SignalVia::Len => {
                self.write_length_prefix(LEN_SIGNAL_HASH);
            },
            SignalVia::U8s => {
                match flags::flow(self.flags) {
                    Flow::SubmitFirst => {
                        if self.state.is_hash_possibly_submitted(self.flags) {
                            self.state.set_hash_received();
                        } else {
                            let t = self.table.unwrap();
                            let m = u8s_signal_hash(&t);
                            self.hasher.write(m);
                            self.written_ordinary_hash();
                        }
                    },
                    Flow::SignalFirst => {
                        self.state.set_signalled_proposal_coming(self.flags);
                    },
                }
            },
            SignalVia::Str => {
                match flags::flow(self.flags) {
                    Flow::SubmitFirst => {
                        if self.state.is_hash_possibly_submitted(self.flags) {
                            self.state.set_hash_received();
                        } else {
                            let t = self.table.unwrap();
                            let m = str_signal_hash(&t);
                            self.hasher.write_str(m);
                            self.written_ordinary_hash();
                        }
                    },
                    Flow::SignalFirst => {
                        self.state.set_signalled_proposal_coming(self.flags);
                    },
                }
            },
        }
    }

    /// Report the digest: the injected hash once the session received one,
    /// the wrapped accumulator's own digest otherwise. Consulting it again
    /// returns the same value.
    pub fn finish(&self) -> (r: u64)
        requires
            self.wf(),
        ensures
            r == finish_of(self.spec_state(), self.spec_inner().digest()),
    {
        if self.state.is_hash_received() {
            self.state.hash
        } else {
            self.hasher.finish()
        }
    }

    /// Raw bytes. On the byte-sequence channel the argument is compared by
    /// address with the session's marker slice; equal content alone does not
    /// signal. Everything unrecognized is forwarded as ordinary data.
    pub fn write(&mut self, bytes: &[u8])
        requires
            old(self).wf(),
        ensures
            final(self).wf(),
            stepped(*old(self), *final(self), WriteCall::Bytes(bytes@), false) || (old(
                self,
            ).spec_flags().signal_via == SignalVia::U8s && bytes@ == marker_bytes_spec()
                && stepped(*old(self), *final(self), WriteCall::Bytes(bytes@), true)),
    {
        match flags::signal_via(self.flags) {
            SignalVia::Len | SignalVia::Str => {
                self.hasher.write(bytes);
                self.written_ordinary_hash();
            },
            SignalVia::U8s => {
                let t = self.table.unwrap();
                if is_ptr_signal_hash(&t, bytes) {
                    match flags::flow(self.flags) {
                        Flow::SubmitFirst => {
                            if self.state.is_hash_possibly_submitted(self.flags) {
                                self.state.set_hash_received();
                            } else {
                                self.hasher.write(bytes);
                                self.written_ordinary_hash();
                            }
                        },
                        Flow::SignalFirst => {
                            self.state.set_signalled_proposal_coming(self.flags);
                        },
                    }
                } else {
                    self.hasher.write(bytes);
                    self.written_ordinary_hash();
                }
            },
        }
    }

    /// Ordinary data.
    pub fn write_u8(&mut self, i: u8)
        requires
            old(self).wf(),
        ensures
            final(self).wf(),
            stepped(*old(self), *final(self), WriteCall::U8(i), false),
    {
        self.hasher.write_u8(i);
        self.written_ordinary_hash();
    }

    /// Ordinary data.
    pub fn write_u16(&mut self, i: u16)
        requires
            old(self).wf(),
        ensures
            final(self).wf(),
            stepped(*old(self), *final(self), WriteCall::U16(i), false),
    {
        self.hasher.write_u16(i);
        self.written_ordinary_hash();
    }

    /// Ordinary data.
    pub fn write_u32(&mut self, i: u32)
        requires
            old(self).wf(),
        ensures
            final(self).wf(),
            stepped(*old(self), *final(self), WriteCall::U32(i), false),
    {
        self.hasher.write_u32(i);
        self.written_ordinary_hash();
    }

    /// The `u64` entry point: the payload where the descriptor says so,
    /// ordinary data otherwise.
    pub fn write_u64(&mut self, i: u64)
        requires
            old(self).wf(),
        ensures
            final(self).wf(),
            stepped(*old(self), *final(self), WriteCall::U64(i), false),
    {
        if flags::is_hash_via_u64(self.flags) {
            if self.possibly_submit(i).must_write_data_afterwards() {
                self.hasher.write_u64(i);
            }
        } else {
            self.hasher.write_u64(i);
            self.written_ordinary_hash();
        }
    }

    /// The `u128` entry point: the payload where the descriptor says so,
    /// ordinary data otherwise.
    pub fn write_u128(&mut self, i: u128)
        requires
            old(self).wf(),
        ensures
            final(self).wf(),
            stepped(*old(self), *final(self), WriteCall::U128(i), false),
    {
        if flags::is_hash_via_u128(self.flags) {
            if self.possibly_submit(#[verifier::truncate] (i as u64)).must_write_data_afterwards() {
                self.hasher.write_u128(i);
            }
        } else {
            self.hasher.write_u128(i);
            self.written_ordinary_hash();
        }
    }

    /// Ordinary data.
    pub fn write_usize(&mut self, i: usize)
        requires
            old(self).wf(),
        ensures
            final(self).wf(),
            stepped(*old(self), *final(self), WriteCall::Usize(i), false),
    {
        self.hasher.write_usize(i);
        self.written_ordinary_hash();
    }

    /// Ordinary data.
    pub fn write_i8(&mut self, i: i8)
        requires
            old(self).wf(),
        ensures
            final(self).wf(),
            stepped(*old(self), *final(self), WriteCall::I8(i), false),
    {
        self.hasher.write_i8(i);
        self.written_ordinary_hash();
    }

    /// Ordinary data.
    pub fn write_i16(&mut self, i: i16)
        requires
            old(self).wf(),
        ensures
            final(self).wf(),
            stepped(*old(self), *final(self), WriteCall::I16(i), false),
    {
        self.hasher.write_i16(i);
        self.written_ordinary_hash();
    }

    /// Ordinary data.
    pub fn write_i32(&mut self, i: i32)
        requires
            old(self).wf(),
        ensures
            final(self).wf(),
            stepped(*old(self), *final(self), WriteCall::I32(i), false),
    {
        self.hasher.write_i32(i);
        self.written_ordinary_hash();
    }

    /// The `i64` entry point: the payload where the descriptor says so,
    /// ordinary data otherwise.
    pub fn write_i64(&mut self, i: i64)
        requires
            old(self).wf(),
        ensures
            final(self).wf(),
            stepped(*old(self), *final(self), WriteCall::I64(i), false),
    {
        if flags::is_hash_via_i64(self.flags) {
            if self.possibly_submit(#[verifier::truncate] (i as u64)).must_write_data_afterwards() {
                self.hasher.write_i64(i);
            }
        } else {
            self.hasher.write_i64(i);
            self.written_ordinary_hash();
        }
    }

    /// The `i128` entry point: the payload where the descriptor says so,
    /// ordinary data otherwise.
    pub fn write_i128(&mut self, i: i128)
        requires
            old(self).wf(),
        ensures
            final(self).wf(),
            stepped(*old(self), *final(self), WriteCall::I128(i), false),
    {
        if flags::is_hash_via_i128(self.flags) {
            if self.possibly_submit(#[verifier::truncate] (i as u64)).must_write_data_afterwards() {
                self.hasher.write_i128(i);
            }
        } else {
            self.hasher.write_i128(i);
            self.written_ordinary_hash();
        }
    }

    /// Ordinary data.
    pub fn write_isize(&mut self, i: isize)
        requires
            old(self).wf(),
        ensures
            final(self).wf(),
            stepped(*old(self), *final(self), WriteCall::Isize(i), false),
    {
        self.hasher.write_isize(i);
        self.written_ordinary_hash();
    }

    /// The length-prefix entry point: on the length-prefix channel the
    /// reserved length is the marker; everything else is ordinary data.
    pub fn write_length_prefix(&mut self, len: usize)
        requires
            old(self).wf(),
        ensures
            final(self).wf(),
            stepped(*old(self), *final(self), WriteCall::LengthPrefix(len), false),
    {
        match flags::signal_via(self.flags) {
            SignalVia::U8s | SignalVia::Str => {
                self.hasher.write_length_prefix(len);
                self.written_ordinary_hash();
            },
            SignalVia::Len => {
                if len == LEN_SIGNAL_HASH {
                    match flags::flow(self.flags) {
                        Flow::SubmitFirst => {
                            if self.state.is_hash_possibly_submitted(self.flags) {
                                self.state.set_hash_received();
                            } else {
                                self.hasher.write_length_prefix(len);
                                self.written_ordinary_hash();
                            }
                        },
                        Flow::SignalFirst => {
                            self.state.set_signalled_proposal_coming(self.flags);
                        },
                    }
                } else {
                    self.hasher.write_length_prefix(len);
                    self.written_ordinary_hash();
                }
            },
        }
    }

    /// A string slice. On the string channel the argument is compared by
    /// address with the session's marker slice; equal content alone does not
    /// signal. Everything unrecognized is forwarded as ordinary data.
    pub fn write_str(&mut self, s: &str)
        requires
            old(self).wf(),
        ensures
            final(self).wf(),
            stepped(*old(self), *final(self), WriteCall::Str(s@), false) || (old(
                self,
            ).spec_flags().signal_via == SignalVia::Str && s@ == marker_str_spec() && stepped(
                *old(self),
                *final(self),
                WriteCall::Str(s@),
                true,
            )),
    {
        match flags::signal_via(self.flags) {
            SignalVia::Len | SignalVia::U8s => {
                self.hasher.write_str(s);
                self.written_ordinary_hash();
            },
            SignalVia::Str => {
                let t = self.table.unwrap();
                if is_ptr_signal_hash_str(&t, s) {
                    match flags::flow(self.flags) {
                        Flow::SubmitFirst => {
                            if self.state.is_hash_possibly_submitted(self.flags) {
                                self.state.set_hash_received();
                            } else {
                                self.hasher.write_str(s);
                                self.written_ordinary_hash();
                            }
                        },
                        Flow::SignalFirst => {
                            self.state.set_signalled_proposal_coming(self.flags);
                        },
                    }
                } else {
                    self.hasher.write_str(s);
                    self.written_ordinary_hash();
                }
            },
        }
    }
}

/// What one entry-point call does to a wrapper: the descriptor and table are
/// untouched, the session state follows the transition table, and the
/// wrapped accumulator either records exactly the forwarded call or is left
/// entirely alone.
pub open spec fn stepped<A: Accumulator>(
    pre: SignalledInjectionHasher<A>,
    post: SignalledInjectionHasher<A>,
    c: WriteCall,
    ident: bool,
) -> bool {
    let r = step(pre.spec_flags(), pre.spec_state(), c, ident);
    &&& post.spec_flags() == pre.spec_flags()
    &&& post.spec_table() == pre.spec_table()
    &&& post.spec_state() == r.state
    &&& (match r.forwarded {
        Some(fc) => post.spec_inner().calls() == pre.spec_inner().calls().push(fc),
        None => post.spec_inner() == pre.spec_inner(),
    })
}

/// A factory of wrapped accumulators, all bound to one descriptor (and, for
/// the marker-slice channels, one marker table).
pub struct SignalledInjectionBuildHasher<B> {
    flags: ProtocolFlags,
    build: B,
    table: Option<MarkerTable>,
}

impl<B> SignalledInjectionBuildHasher<B> {
    /// The descriptor every built wrapper carries.
    pub closed spec fn spec_flags(&self) -> ProtocolFlags {
        self.flags
    }

    /// The shared marker table, where the channel needs one.
    pub closed spec fn spec_table(&self) -> Option<MarkerTable> {
        self.table
    }

    /// Well-formedness: a channel that recognizes marker slices carries a
    /// table with the canonical content.
    pub open spec fn wf(&self) -> bool {
        self.spec_flags().signal_via != SignalVia::Len ==> self.spec_table() is Some
            && self.spec_table().unwrap()@ == table_bytes_spec()
    }

    /// Wrap an accumulator factory.
    pub fn new(flags: ProtocolFlags, build: B, table: Option<MarkerTable>) -> (r: Self)
        requires
            flags.signal_via != SignalVia::Len ==> table is Some && table.unwrap()@
                == table_bytes_spec(),
        ensures
            r.wf(),
            r.spec_flags() == flags,
            r.spec_table() == table,
    {
        Self { flags, build, table }
    }

    /// Build a wrapper around a fresh accumulator: a new session in the
    /// starting state, bound to this factory's descriptor.
    pub fn build_hasher<A: Accumulator>(&self) -> (r: SignalledInjectionHasher<A>) where
        B: AccumulatorFactory<A>,

        requires
            self.wf(),
        ensures
            r.wf(),
            r.spec_flags() == self.spec_flags(),
            r.spec_state() == (SignalState { kind: SignalStateKind::NothingWritten, hash: 0 }),
            r.spec_inner().calls() == Seq::<WriteCall>::empty(),
    {
        let acc = self.build.new_accumulator();
        SignalledInjectionHasher::new(self.flags, acc, self.table)
    }
}

} // verus!
