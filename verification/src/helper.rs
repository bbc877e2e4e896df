//! The byte protocol of the capture helper process.
//!
//! The helper writes raw samples to its standard output: 32-bit IEEE-754
//! values, little-endian, mono, at a fixed rate. Here the bytes are framed
//! into 32-bit words; a word is the bit pattern of one sample, and making
//! a number of it is the caller's last step. On its standard error the
//! helper writes diagnostic lines; some of them say that the operating
//! system refused the capture permission.

use crate::text::contains;
use crate::text::text_contains;
use vstd::arithmetic::div_mod::lemma_fundamental_div_mod_converse;
use vstd::prelude::*;

verus! {

/// Rate, in Hz, of the samples that the helper streams.
pub const HELPER_SAMPLE_RATE_HZ: u32 = 48000;

/// Bytes per sample.
pub const BYTES_PER_SAMPLE: usize = 4;

/// The 32-bit word whose little-endian bytes are `b0` to `b3`.
pub open spec fn word_le(b0: u8, b1: u8, b2: u8, b3: u8) -> u32 {
    (b0 + b1 * 0x100 + b2 * 0x1_0000 + b3 * 0x100_0000) as u32
}

/// The words that `bytes` hold, in order. Bytes at the end that fill no
/// whole word are left out.
pub open spec fn decoded(bytes: Seq<u8>) -> Seq<u32> {
    Seq::new(
        (bytes.len() / 4) as nat,
        |i: int| word_le(bytes[4 * i], bytes[4 * i + 1], bytes[4 * i + 2], bytes[4 * i + 3]),
    )
}

/// Each byte of a word is found again at its place: the word is the
/// number with `b0` as its lowest and `b3` as its highest byte.
pub proof fn lemma_word_le_places(b0: u8, b1: u8, b2: u8, b3: u8)
    ensures
        word_le(b0, b1, b2, b3) % 0x100 == b0,
        (word_le(b0, b1, b2, b3) / 0x100) % 0x100 == b1,
        (word_le(b0, b1, b2, b3) / 0x1_0000) % 0x100 == b2,
        word_le(b0, b1, b2, b3) / 0x100_0000 == b3,
{
    let word = word_le(b0, b1, b2, b3) as int;
    let upper = b1 + b2 * 0x100 + b3 * 0x1_0000;
    let top = b2 + b3 * 0x100;
    assert(word == b0 + b1 * 0x100 + b2 * 0x1_0000 + b3 * 0x100_0000);
    lemma_fundamental_div_mod_converse(word, 0x100, upper, b0 as int);
    lemma_fundamental_div_mod_converse(upper, 0x100, top, b1 as int);
    lemma_fundamental_div_mod_converse(word, 0x1_0000, top, b0 + b1 * 0x100);
    lemma_fundamental_div_mod_converse(top, 0x100, b3 as int, b2 as int);
    lemma_fundamental_div_mod_converse(
        word,
        0x100_0000,
        b3 as int,
        b0 + b1 * 0x100 + b2 * 0x1_0000,
    );
}

/// The sample words that `bytes` hold. For a stream that arrives in reads
/// of any length, `SampleFramer` carries the unfinished sample over.
pub fn decode_samples(bytes: &[u8]) -> (words: Vec<u32>)
    ensures
        words@ == decoded(bytes@),
{
    let len = bytes.len();
    let count = len / BYTES_PER_SAMPLE;
    let mut words: Vec<u32> = Vec::new();
    let mut i: usize = 0;
    while i < count
        invariant
            i <= count,
            len == bytes@.len(),
            count == len / 4,
            BYTES_PER_SAMPLE == 4,
            words@.len() == i,
            forall|k: int| 0 <= k < i ==> #[trigger] words@[k] == decoded(bytes@)[k],
        decreases count - i,
    {
        let at = 4 * i;
        let b0 = bytes[at] as u32;
        let b1 = bytes[at + 1] as u32;
        let b2 = bytes[at + 2] as u32;
        let b3 = bytes[at + 3] as u32;
        words.push(b0 + b1 * 0x100 + b2 * 0x1_0000 + b3 * 0x100_0000);
        i = i + 1;
    }
    assert(words@ =~= decoded(bytes@));
    words
}

/// Frames the helper's byte stream into sample words across reads.
///
/// A read may end in the middle of a sample. The bytes of the unfinished
/// sample are kept and go in front of the next read, so that the words
/// handed out are those of the whole stream, however it was cut into
/// reads, and no sample is torn or shifted.
pub struct SampleFramer {
    carry: Vec<u8>,
    stream: Ghost<Seq<u8>>,
}

impl SampleFramer {
    /// Every byte taken so far, in order.
    pub closed spec fn consumed(&self) -> Seq<u8> {
        self.stream@
    }

    /// The bytes of the unfinished sample at the end of the stream.
    pub closed spec fn carried(&self) -> Seq<u8> {
        self.carry@
    }

    /// What is carried is what the stream holds behind its last whole
    /// sample: fewer than four bytes.
    pub closed spec fn wf(&self) -> bool {
        self.carry@ == self.stream@.skip(((self.stream@.len() / 4) * 4) as int)
    }

    /// A framer that has taken nothing.
    pub fn new() -> (framer: Self)
        ensures
            framer.wf(),
            framer.consumed() == Seq::<u8>::empty(),
            framer.carried() == Seq::<u8>::empty(),
    {
        let framer = SampleFramer { carry: Vec::new(), stream: Ghost(Seq::empty()) };
        assert(framer.carry@ =~= framer.stream@.skip(0));
        framer
    }

    /// Number of bytes carried over to the next read.
    pub fn carried_len(&self) -> (n: usize)
        ensures
            n == self.carried().len(),
    {
        self.carry.len()
    }

    /// Takes the bytes of one read and returns the samples that they
    /// complete: the words of the whole stream from the first one that was
    /// unfinished before.
    pub fn push(&mut self, bytes: &[u8]) -> (words: Vec<u32>)
        requires
            old(self).wf(),
        ensures
            final(self).wf(),
            final(self).consumed() == old(self).consumed() + bytes@,
            final(self).carried().len() == final(self).consumed().len() % 4,
            words@ == decoded(final(self).consumed()).skip((old(self).consumed().len() / 4) as int),
    {
        let ghost before = self.stream@;
        let ghost whole = before + bytes@;
        let ghost done = (before.len() / 4) as int;
        let mut joined: Vec<u8> = Vec::new();
        core::mem::swap(&mut joined, &mut self.carry);
        let mut i: usize = 0;
        while i < bytes.len()
            invariant
                i <= bytes@.len(),
                joined@ == before.skip(4 * done) + bytes@.take(i as int),
            decreases bytes@.len() - i,
        {
            joined.push(bytes[i]);
            assert(bytes@.take(i + 1) =~= bytes@.take(i as int).push(bytes@[i as int]));
            i = i + 1;
        }
        proof {
            assert(bytes@.take(bytes@.len() as int) =~= bytes@);
            assert(joined@ =~= whole.skip(4 * done));
        }
        let words = decode_samples(joined.as_slice());
        let kept = (joined.len() / BYTES_PER_SAMPLE) * BYTES_PER_SAMPLE;
        let mut rest = joined.split_off(kept);
        core::mem::swap(&mut rest, &mut self.carry);
        self.stream = Ghost(whole);
        proof {
            assert(4 * done + kept == (whole.len() / 4) * 4);
            assert(self.carry@ =~= whole.skip(((whole.len() / 4) * 4) as int));
            let all = decoded(whole);
            assert(words@.len() == all.len() - done);
            assert forall|k: int| 0 <= k < words@.len() implies words@[k] == all[done + k] by {
                assert(joined@[4 * k] == whole[4 * (done + k)]);
                assert(joined@[4 * k + 1] == whole[4 * (done + k) + 1]);
                assert(joined@[4 * k + 2] == whole[4 * (done + k) + 2]);
                assert(joined@[4 * k + 3] == whole[4 * (done + k) + 3]);
            }
            assert(words@ =~= all.skip(done));
        }
        words
    }
}

/// The words handed out do not depend on how the stream was cut into
/// reads: what the reads `first` and then `second` complete, one after the
/// other, is what the stream `first + second` holds.
pub proof fn lemma_framing_ignores_reads(first: Seq<u8>, second: Seq<u8>)
    ensures
        decoded(first + second).take((first.len() / 4) as int) == decoded(first),
        decoded(first) + decoded(first + second).skip((first.len() / 4) as int) == decoded(
            first + second,
        ),
{
    let whole = first + second;
    let done = (first.len() / 4) as int;
    assert(decoded(whole).take(done) =~= decoded(first));
    assert(decoded(whole).take(done) + decoded(whole).skip(done) =~= decoded(whole));
}

/// The line says that the capture permission was refused.
pub open spec fn is_permission_denial(line: Seq<char>) -> bool {
    text_contains(line, "PERMISSION DENIED"@) || text_contains(line, "declined TCCs"@)
}

/// Watches the helper's diagnostic lines for a refused permission.
pub struct StderrMonitor {
    denial_seen: bool,
}

impl StderrMonitor {
    /// Whether a refusal was seen.
    pub closed spec fn seen(&self) -> bool {
        self.denial_seen
    }

    /// A monitor that has seen nothing.
    pub fn new() -> (monitor: Self)
        ensures
            !monitor.seen(),
    {
        StderrMonitor { denial_seen: false }
    }

    /// Whether a refusal was seen.
    pub fn permission_denied(&self) -> (denied: bool)
        ensures
            denied == self.seen(),
    {
        self.denial_seen
    }

    /// Takes the next line. Returns whether the user is to be led to the
    /// privacy settings now, which is at the first refusal only.
    pub fn observe(&mut self, line: &str) -> (remedy: bool)
        ensures
            final(self).seen() == (old(self).seen() || is_permission_denial(line@)),
            remedy == (!old(self).seen() && is_permission_denial(line@)),
    {
        if self.denial_seen {
            return false;
        }
        if contains(line, "PERMISSION DENIED") || contains(line, "declined TCCs") {
            self.denial_seen = true;
            true
        } else {
            false
        }
    }
}

} // verus!
