//! A reference accumulator: it records the calls made on it and digests them
//! with a 64-bit multiply-xor fold. Deterministic, so equal call sequences
//! give equal digests; used by tests, and as the in-crate witness that the
//! accumulator interface is implementable.

use vstd::prelude::*;
use vstd::utf8::encode_utf8;

use crate::accumulator::{Accumulator, AccumulatorFactory};
use crate::protocol::WriteCall;

verus! {

/// The fold's starting state.
pub const DIGEST_OFFSET_BASIS: u64 = 0xcbf29ce484222325;

/// The fold's multiplier.
pub const DIGEST_PRIME: u64 = 0x100000001b3;

/// One fold step: mix a 64-bit word into the running state.
pub open spec fn mix_word(state: u64, w: u64) -> u64 {
    (state ^ w).wrapping_mul(DIGEST_PRIME)
}

/// Fold a word sequence into the running state, left to right.
pub open spec fn fold_words(state: u64, ws: Seq<u64>) -> u64
    decreases ws.len(),
{
    if ws.len() == 0 {
        state
    } else {
        fold_words(mix_word(state, ws[0]), ws.drop_first())
    }
}

/// Each byte as one word.
pub open spec fn bytes_words(bs: Seq<u8>) -> Seq<u64> {
    bs.map_values(|b: u8| b as u64)
}

/// The word encoding of one call: a tag for the entry point, the value's
/// bits (and, for variable-length calls, the length followed by the bytes).
pub open spec fn call_words(c: WriteCall) -> Seq<u64> {
    match c {
        WriteCall::Bytes(data) => seq![1u64, data.len() as u64] + bytes_words(data),
        WriteCall::U8(i) => seq![2u64, i as u64],
        WriteCall::U16(i) => seq![3u64, i as u64],
        WriteCall::U32(i) => seq![4u64, i as u64],
        WriteCall::U64(i) => seq![5u64, i],
        WriteCall::U128(i) => seq![6u64, i as u64, (i >> 64) as u64],
        WriteCall::Usize(i) => seq![7u64, i as u64],
        WriteCall::I8(i) => seq![8u64, i as u64],
        WriteCall::I16(i) => seq![9u64, i as u64],
        WriteCall::I32(i) => seq![10u64, i as u64],
        WriteCall::I64(i) => seq![11u64, i as u64],
        WriteCall::I128(i) => seq![12u64, i as u64, (i >> 64) as u64],
        WriteCall::Isize(i) => seq![13u64, i as u64],
        WriteCall::LengthPrefix(len) => seq![14u64, len as u64],
        WriteCall::Str(s) => {
            let bs = encode_utf8(s);
            seq![15u64, bs.len() as u64] + bytes_words(bs)
        },
    }
}

/// The digest of a call sequence: the fold of each call's words, in order,
/// from the starting state. A function of the calls alone, so equal call
/// sequences always give equal digests.
pub open spec fn digest_of_calls(calls: Seq<WriteCall>) -> u64
    decreases calls.len(),
{
    if calls.len() == 0 {
        DIGEST_OFFSET_BASIS
    } else {
        fold_words(digest_of_calls(calls.drop_last()), call_words(calls.last()))
    }
}

/// Folding an appended word is one more mix step.
proof fn lemma_fold_push(state: u64, ws: Seq<u64>, w: u64)
    ensures
        fold_words(state, ws.push(w)) == mix_word(fold_words(state, ws), w),
    decreases ws.len(),
{
    reveal_with_fuel(fold_words, 3);
    if ws.len() == 0 {
        assert(ws.push(w)[0] == w);
        assert(ws.push(w).drop_first() =~= Seq::<u64>::empty());
    } else {
        assert(ws.push(w)[0] == ws[0]);
        assert(ws.push(w).drop_first() =~= ws.drop_first().push(w));
        lemma_fold_push(mix_word(state, ws[0]), ws.drop_first(), w);
    }
}

/// Recording one more call folds that call's words into the digest.
proof fn lemma_digest_push(calls: Seq<WriteCall>, c: WriteCall)
    ensures
        digest_of_calls(calls.push(c)) == fold_words(digest_of_calls(calls), call_words(c)),
{
    assert(calls.push(c).drop_last() =~= calls);
    assert(calls.push(c).last() == c);
}

/// Folding a two-word sequence, spelled out.
proof fn lemma_fold_two(state: u64, a: u64, b: u64)
    ensures
        fold_words(state, seq![a, b]) == mix_word(mix_word(state, a), b),
{
    reveal_with_fuel(fold_words, 4);
    assert(seq![a, b].drop_first() =~= seq![b]);
    assert(seq![b].drop_first() =~= Seq::<u64>::empty());
}

/// Folding a three-word sequence, spelled out.
proof fn lemma_fold_three(state: u64, a: u64, b: u64, c: u64)
    ensures
        fold_words(state, seq![a, b, c]) == mix_word(mix_word(mix_word(state, a), b), c),
{
    reveal_with_fuel(fold_words, 5);
    assert(seq![a, b, c].drop_first() =~= seq![b, c]);
    assert(seq![b, c].drop_first() =~= seq![c]);
    assert(seq![c].drop_first() =~= Seq::<u64>::empty());
}

/// The accumulator: the running digest state, and (at the specification
/// level) the calls recorded so far.
pub struct RecordingAccumulator {
    digest_state: u64,
    recorded: Ghost<Seq<WriteCall>>,
}

/// A factory handing out fresh [`RecordingAccumulator`]s.
pub struct RecordingFactory {
}

impl RecordingAccumulator {
    /// A fresh accumulator that has recorded nothing.
    pub fn new() -> (r: Self)
        ensures
            r.wf(),
            r.calls() == Seq::<WriteCall>::empty(),
    {
        Self { digest_state: DIGEST_OFFSET_BASIS, recorded: Ghost(Seq::empty()) }
    }

    /// Mix one word into the running state.
    fn mix(&mut self, w: u64)
        ensures
            final(self).digest_state == mix_word(old(self).digest_state, w),
            final(self).recorded == old(self).recorded,
    {
        self.digest_state = (self.digest_state ^ w).wrapping_mul(DIGEST_PRIME);
    }

    /// Fold a byte slice into the running state, after the given two header
    /// words.
    fn mix_header_and_bytes(&mut self, tag: u64, bytes: &[u8])
        ensures
            final(self).digest_state == fold_words(
                old(self).digest_state,
                seq![tag, bytes@.len() as u64] + bytes_words(bytes@),
            ),
            final(self).recorded == old(self).recorded,
    {
        let ghost st0 = self.digest_state;
        self.mix(tag);
        self.mix(bytes.len() as u64);
        proof {
            lemma_fold_two(st0, tag, bytes@.len() as u64);
            assert(seq![tag, bytes@.len() as u64] + bytes_words(bytes@.take(0)) =~= seq![
                tag,
                bytes@.len() as u64,
            ]);
        }
        let mut i: usize = 0;
        while i < bytes.len()
            invariant
                i <= bytes.len(),
                self.digest_state == fold_words(
                    st0,
                    seq![tag, bytes@.len() as u64] + bytes_words(bytes@.take(i as int)),
                ),
                self.recorded == old(self).recorded,
            decreases bytes.len() - i,
        {
            let b = bytes[i];
            proof {
                lemma_fold_push(
                    st0,
                    seq![tag, bytes@.len() as u64] + bytes_words(bytes@.take(i as int)),
                    b as u64,
                );
                assert(seq![tag, bytes@.len() as u64] + bytes_words(bytes@.take(i + 1 as int))
                    =~= (seq![tag, bytes@.len() as u64] + bytes_words(bytes@.take(i as int))).push(
                    b as u64,
                ));
            }
            self.mix(b as u64);
            i += 1;
        }
        proof {
            assert(bytes@.take(bytes@.len() as int) =~= bytes@);
        }
    }
}

impl Accumulator for RecordingAccumulator {
    /// The running state is always the digest of the recorded calls.
    closed spec fn wf(&self) -> bool {
        self.digest_state == digest_of_calls(self.recorded@)
    }

    closed spec fn calls(&self) -> Seq<WriteCall> {
        self.recorded@
    }

    /// The digest is a function of the recorded calls alone.
    open spec fn digest(&self) -> u64 {
        digest_of_calls(self.calls())
    }

    fn write(&mut self, bytes: &[u8]) {
        proof {
            lemma_digest_push(self.recorded@, WriteCall::Bytes(bytes@));
        }
        self.mix_header_and_bytes(1, bytes);
        self.recorded = Ghost(self.recorded@.push(WriteCall::Bytes(bytes@)));
    }

    fn write_u8(&mut self, i: u8) {
        proof {
            lemma_digest_push(self.recorded@, WriteCall::U8(i));
            lemma_fold_two(self.digest_state, 2, i as u64);
        }
        self.mix(2);
        self.mix(i as u64);
        self.recorded = Ghost(self.recorded@.push(WriteCall::U8(i)));
    }

    fn write_u16(&mut self, i: u16) {
        proof {
            lemma_digest_push(self.recorded@, WriteCall::U16(i));
            lemma_fold_two(self.digest_state, 3, i as u64);
        }
        self.mix(3);
        self.mix(i as u64);
        self.recorded = Ghost(self.recorded@.push(WriteCall::U16(i)));
    }

    fn write_u32(&mut self, i: u32) {
        proof {
            lemma_digest_push(self.recorded@, WriteCall::U32(i));
            lemma_fold_two(self.digest_state, 4, i as u64);
        }
        self.mix(4);
        self.mix(i as u64);
        self.recorded = Ghost(self.recorded@.push(WriteCall::U32(i)));
    }

    fn write_u64(&mut self, i: u64) {
        proof {
            lemma_digest_push(self.recorded@, WriteCall::U64(i));
            lemma_fold_two(self.digest_state, 5, i);
        }
        self.mix(5);
        self.mix(i);
        self.recorded = Ghost(self.recorded@.push(WriteCall::U64(i)));
    }

    fn write_u128(&mut self, i: u128) {
        proof {
            lemma_digest_push(self.recorded@, WriteCall::U128(i));
            lemma_fold_three(self.digest_state, 6, i as u64, (i >> 64) as u64);
        }
        self.mix(6);
        self.mix(#[verifier::truncate] (i as u64));
        self.mix(#[verifier::truncate] ((i >> 64) as u64));
        self.recorded = Ghost(self.recorded@.push(WriteCall::U128(i)));
    }

    fn write_usize(&mut self, i: usize) {
        proof {
            lemma_digest_push(self.recorded@, WriteCall::Usize(i));
            lemma_fold_two(self.digest_state, 7, i as u64);
        }
        self.mix(7);
        self.mix(i as u64);
        self.recorded = Ghost(self.recorded@.push(WriteCall::Usize(i)));
    }

    fn write_i8(&mut self, i: i8) {
        proof {
            lemma_digest_push(self.recorded@, WriteCall::I8(i));
            lemma_fold_two(self.digest_state, 8, i as u64);
        }
        self.mix(8);
        self.mix(#[verifier::truncate] (i as u64));
        self.recorded = Ghost(self.recorded@.push(WriteCall::I8(i)));
    }

    fn write_i16(&mut self, i: i16) {
        proof {
            lemma_digest_push(self.recorded@, WriteCall::I16(i));
            lemma_fold_two(self.digest_state, 9, i as u64);
        }
        self.mix(9);
        self.mix(#[verifier::truncate] (i as u64));
        self.recorded = Ghost(self.recorded@.push(WriteCall::I16(i)));
    }

    fn write_i32(&mut self, i: i32) {
        proof {
            lemma_digest_push(self.recorded@, WriteCall::I32(i));
            lemma_fold_two(self.digest_state, 10, i as u64);
        }
        self.mix(10);
        self.mix(#[verifier::truncate] (i as u64));
        self.recorded = Ghost(self.recorded@.push(WriteCall::I32(i)));
    }

    fn write_i64(&mut self, i: i64) {
        proof {
            lemma_digest_push(self.recorded@, WriteCall::I64(i));
            lemma_fold_two(self.digest_state, 11, i as u64);
        }
        self.mix(11);
        self.mix(#[verifier::truncate] (i as u64));
        self.recorded = Ghost(self.recorded@.push(WriteCall::I64(i)));
    }

    fn write_i128(&mut self, i: i128) {
        proof {
            lemma_digest_push(self.recorded@, WriteCall::I128(i));
            lemma_fold_three(self.digest_state, 12, i as u64, (i >> 64) as u64);
        }
        self.mix(12);
        self.mix(#[verifier::truncate] (i as u64));
        self.mix(#[verifier::truncate] ((i >> 64) as u64));
        self.recorded = Ghost(self.recorded@.push(WriteCall::I128(i)));
    }

    fn write_isize(&mut self, i: isize) {
        proof {
            lemma_digest_push(self.recorded@, WriteCall::Isize(i));
            lemma_fold_two(self.digest_state, 13, i as u64);
        }
        self.mix(13);
        self.mix(#[verifier::truncate] (i as u64));
        self.recorded = Ghost(self.recorded@.push(WriteCall::Isize(i)));
    }

    fn write_length_prefix(&mut self, len: usize) {
        proof {
            lemma_digest_push(self.recorded@, WriteCall::LengthPrefix(len));
            lemma_fold_two(self.digest_state, 14, len as u64);
        }
        self.mix(14);
        self.mix(len as u64);
        self.recorded = Ghost(self.recorded@.push(WriteCall::LengthPrefix(len)));
    }

    fn write_str(&mut self, s: &str) {
        proof {
            lemma_digest_push(self.recorded@, WriteCall::Str(s@));
        }
        let bytes = s.as_bytes();
        self.mix_header_and_bytes(15, bytes);
        self.recorded = Ghost(self.recorded@.push(WriteCall::Str(s@)));
    }

    fn finish(&self) -> (r: u64) {
        self.digest_state
    }
}

impl RecordingFactory {
    /// A factory value; it carries no state.
    pub fn new() -> (r: Self)
    {
        Self {  }
    }
}

impl AccumulatorFactory<RecordingAccumulator> for RecordingFactory {
    fn new_accumulator(&self) -> (r: RecordingAccumulator) {
        RecordingAccumulator::new()
    }
}

} // verus!
