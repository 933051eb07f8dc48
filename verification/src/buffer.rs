//! The sample buffer: an ordered, growable byte sequence holding the raw
//! interleaved audio of the current session. The capture loop appends one
//! packet at a time; on stop the control surface drains the whole buffer
//! in one step.

use vstd::prelude::*;

verus! {

/// Raw captured audio bytes, in the order the packets arrived.
pub struct SampleBuffer {
    data: Vec<u8>,
}

impl View for SampleBuffer {
    type V = Seq<u8>;

    closed spec fn view(&self) -> Seq<u8> {
        self.data@
    }
}

impl SampleBuffer {
    /// A fresh buffer is empty.
    pub fn new() -> (r: SampleBuffer)
        ensures
            r@ == Seq::<u8>::empty(),
    {
        SampleBuffer { data: Vec::new() }
    }

    /// Appends the bytes of one packet at the tail, losing nothing and
    /// reordering nothing.
    pub fn append(&mut self, bytes: &[u8])
        ensures
            final(self)@ == old(self)@ + bytes@,
    {
        let n = bytes.len();
        let mut i: usize = 0;
        while i < n
            invariant
                i <= n,
                n == bytes@.len(),
                self@ == old(self)@ + bytes@.subrange(0, i as int),
            decreases n - i,
        {
            self.data.push(bytes[i]);
            i = i + 1;
            proof {
                assert(self@ == old(self)@ + bytes@.subrange(0, i as int));
            }
        }
        proof {
            assert(bytes@.subrange(0, n as int) == bytes@);
        }
    }

    /// Atomically hands out everything accumulated so far, in append
    /// order, and resets the buffer to empty.
    pub fn drain_and_clear(&mut self) -> (r: Vec<u8>)
        ensures
            r@ == old(self)@,
            final(self)@ == Seq::<u8>::empty(),
    {
        let mut drained: Vec<u8> = Vec::new();
        core::mem::swap(&mut self.data, &mut drained);
        drained
    }

    pub fn is_empty(&self) -> (r: bool)
        ensures
            r == (self@.len() == 0),
    {
        self.data.len() == 0
    }

    pub fn len(&self) -> (r: usize)
        ensures
            r == self@.len(),
    {
        self.data.len()
    }
}

/// The buffer contents after appending each chunk of `chunks` in order,
/// starting from `init`.
pub open spec fn contents_after_appends(init: Seq<u8>, chunks: Seq<Seq<u8>>) -> Seq<u8>
    decreases chunks.len(),
{
    if chunks.len() == 0 {
        init
    } else {
        contents_after_appends(init + chunks.first(), chunks.drop_first())
    }
}

/// Draining immediately after any number of appends returns exactly the
/// concatenation of the appended byte sequences in call order: appends
/// starting from an empty buffer accumulate precisely their flattening,
/// which is what `drain_and_clear` hands out.
pub proof fn lemma_appends_concatenate(chunks: Seq<Seq<u8>>)
    ensures
        contents_after_appends(Seq::<u8>::empty(), chunks) == chunks.flatten(),
{
    lemma_appends_extend(Seq::<u8>::empty(), chunks);
    assert(Seq::<u8>::empty() + chunks.flatten() == chunks.flatten());
}

/// Appending `chunks` extends the current contents by their flattening.
pub proof fn lemma_appends_extend(init: Seq<u8>, chunks: Seq<Seq<u8>>)
    ensures
        contents_after_appends(init, chunks) == init + chunks.flatten(),
    decreases chunks.len(),
{
    if chunks.len() == 0 {
        assert(chunks.flatten() == Seq::<u8>::empty());
        assert(init + chunks.flatten() == init);
    } else {
        lemma_appends_extend(init + chunks.first(), chunks.drop_first());
        assert(chunks.flatten() == chunks.first() + chunks.drop_first().flatten());
        assert(init + chunks.first() + chunks.drop_first().flatten()
            == init + (chunks.first() + chunks.drop_first().flatten()));
    }
}

/// Whole packets keep the buffer frame-aligned: if every appended chunk's
/// length is a multiple of the frame size, so is the length of the
/// concatenation that a drain returns.
pub proof fn lemma_aligned_appends_stay_aligned(chunks: Seq<Seq<u8>>, frame: int)
    requires
        frame >= 1,
        forall|i: int| 0 <= i < chunks.len() ==> #[trigger] chunks[i].len() as int % frame == 0,
    ensures
        chunks.flatten().len() as int % frame == 0,
    decreases chunks.len(),
{
    if chunks.len() == 0 {
        assert(chunks.flatten() == Seq::<u8>::empty());
    } else {
        assert(chunks.first() == chunks[0]);
        lemma_aligned_appends_stay_aligned(chunks.drop_first(), frame);
        assert(chunks.flatten() == chunks.first() + chunks.drop_first().flatten());
        let a = chunks.first().len() as int;
        let b = chunks.drop_first().flatten().len() as int;
        assert((a + b) % frame == 0) by {
            lemma_mod_sum(a, b, frame);
        }
    }
}

/// Sum of two multiples of `m` is a multiple of `m`.
proof fn lemma_mod_sum(a: int, b: int, m: int)
    requires
        m >= 1,
        a % m == 0,
        b % m == 0,
        a >= 0,
        b >= 0,
    ensures
        (a + b) % m == 0,
{
    vstd::arithmetic::div_mod::lemma_add_mod_noop(a, b, m);
    vstd::arithmetic::div_mod::lemma_small_mod(0, m as nat);
}

} // verus!
