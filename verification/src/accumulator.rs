//! The incremental-hash accumulator interface: the boundary the wrapper both
//! consumes (it wraps any compliant accumulator) and mirrors (it exposes the
//! same entry points). A compliant accumulator records the calls made on it,
//! and `finish` reports a digest of the state so far.

use vstd::prelude::*;

use crate::protocol::WriteCall;

verus! {

/// A stateful object exposing an incremental write-then-finish interface for
/// computing a 64-bit digest. Implementations record, at the specification
/// level, the sequence of calls made on them; `finish` reports the digest of
/// the current state.
pub trait Accumulator: Sized {
    /// The implementation's well-formedness; constructors establish it and
    /// every call preserves it.
    spec fn wf(&self) -> bool;

    /// The calls recorded so far.
    spec fn calls(&self) -> Seq<WriteCall>;

    /// The digest of the state so far, as `finish` reports it.
    spec fn digest(&self) -> u64;

    fn write(&mut self, bytes: &[u8])
        requires
            old(self).wf(),
        ensures
            final(self).wf(),
            final(self).calls() == old(self).calls().push(WriteCall::Bytes(bytes@)),
    ;

    fn write_u8(&mut self, i: u8)
        requires
            old(self).wf(),
        ensures
            final(self).wf(),
            final(self).calls() == old(self).calls().push(WriteCall::U8(i)),
    ;

    fn write_u16(&mut self, i: u16)
        requires
            old(self).wf(),
        ensures
            final(self).wf(),
            final(self).calls() == old(self).calls().push(WriteCall::U16(i)),
    ;

    fn write_u32(&mut self, i: u32)
        requires
            old(self).wf(),
        ensures
            final(self).wf(),
            final(self).calls() == old(self).calls().push(WriteCall::U32(i)),
    ;

    fn write_u64(&mut self, i: u64)
        requires
            old(self).wf(),
        ensures
            final(self).wf(),
            final(self).calls() == old(self).calls().push(WriteCall::U64(i)),
    ;

    fn write_u128(&mut self, i: u128)
        requires
            old(self).wf(),
        ensures
            final(self).wf(),
            final(self).calls() == old(self).calls().push(WriteCall::U128(i)),
    ;

    fn write_usize(&mut self, i: usize)
        requires
            old(self).wf(),
        ensures
            final(self).wf(),
            final(self).calls() == old(self).calls().push(WriteCall::Usize(i)),
    ;

    fn write_i8(&mut self, i: i8)
        requires
            old(self).wf(),
        ensures
            final(self).wf(),
            final(self).calls() == old(self).calls().push(WriteCall::I8(i)),
    ;

    fn write_i16(&mut self, i: i16)
        requires
            old(self).wf(),
        ensures
            final(self).wf(),
            final(self).calls() == old(self).calls().push(WriteCall::I16(i)),
    ;

    fn write_i32(&mut self, i: i32)
        requires
            old(self).wf(),
        ensures
            final(self).wf(),
            final(self).calls() == old(self).calls().push(WriteCall::I32(i)),
    ;

    fn write_i64(&mut self, i: i64)
        requires
            old(self).wf(),
        ensures
            final(self).wf(),
            final(self).calls() == old(self).calls().push(WriteCall::I64(i)),
    ;

    fn write_i128(&mut self, i: i128)
        requires
            old(self).wf(),
        ensures
            final(self).wf(),
            final(self).calls() == old(self).calls().push(WriteCall::I128(i)),
    ;

    fn write_isize(&mut self, i: isize)
        requires
            old(self).wf(),
        ensures
            final(self).wf(),
            final(self).calls() == old(self).calls().push(WriteCall::Isize(i)),
    ;

    fn write_length_prefix(&mut self, len: usize)
        requires
            old(self).wf(),
        ensures
            final(self).wf(),
            final(self).calls() == old(self).calls().push(WriteCall::LengthPrefix(len)),
    ;

    fn write_str(&mut self, s: &str)
        requires
            old(self).wf(),
        ensures
            final(self).wf(),
            final(self).calls() == old(self).calls().push(WriteCall::Str(s@)),
    ;

    fn finish(&self) -> (r: u64)
        requires
            self.wf(),
        ensures
            r == self.digest(),
    ;
}

/// An accumulator factory: hands out fresh accumulators that have recorded
/// nothing yet.
pub trait AccumulatorFactory<A: Accumulator>: Sized {
    fn new_accumulator(&self) -> (r: A)
        ensures
            r.wf(),
            r.calls() == Seq::<WriteCall>::empty(),
    ;
}

} // verus!
