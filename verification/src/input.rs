use vstd::prelude::*;

verus! {

/// The number of bytes of input that are handed to libmad at a time.
pub const INPUT_BUFFER_SIZE: usize = 32768;

/// How many bytes of a buffer of `size` bytes libmad has not consumed yet,
/// when its next frame starts `next_frame` bytes into the buffer.
pub open spec fn unconsumed(size: nat, next_frame: nat) -> nat {
    if next_frame <= size {
        (size - next_frame) as nat
    } else {
        0
    }
}

/// The buffer after the bytes libmad has not consumed have moved to its front;
/// the bytes behind them are left as they were.
pub open spec fn compacted(buf: Seq<u8>, next_frame: nat) -> Seq<u8> {
    let keep = unconsumed(buf.len(), next_frame);
    buf.subrange(buf.len() - keep, buf.len() as int) + buf.subrange(keep as int, buf.len() as int)
}

/// The buffer after `fresh` has been written into it from position `start` on.
pub open spec fn filled(buf: Seq<u8>, start: nat, fresh: Seq<u8>) -> Seq<u8> {
    buf.take(start as int) + fresh + buf.skip((start + fresh.len()) as int)
}

/// What to do to give libmad its next stretch of input.
#[derive(Debug, Clone, Copy, PartialEq, Eq, Structural)]
pub enum RefillPlan {
    /// libmad has consumed nothing of the buffer: hand it the whole buffer as it is.
    WholeBuffer,
    /// The unconsumed bytes now stand at the front of the buffer: read fresh
    /// input into the buffer from `start` on, and pass it to `InputBuffer::fill`.
    ReadFrom { start: usize },
}

/// The outcome of refilling the buffer with fresh input.
#[derive(Debug, Clone, Copy, PartialEq, Eq, Structural)]
pub enum FillOutcome {
    /// The reader gave no more bytes: decoding stops.
    EndOfInput,
    /// The first `len` bytes of the buffer are ready for libmad.
    Ready { len: usize },
}

/// The buffer through which input bytes reach libmad.
pub struct InputBuffer {
    bytes: Vec<u8>,
}

impl View for InputBuffer {
    type V = Seq<u8>;

    closed spec fn view(&self) -> Seq<u8> {
        self.bytes@
    }
}

impl InputBuffer {
    /// The number of bytes in the buffer.
    pub open spec fn spec_len(&self) -> usize {
        self@.len() as usize
    }

    /// A buffer of `INPUT_BUFFER_SIZE` zero bytes.
    pub fn new() -> (b: InputBuffer)
        ensures
            b@ == Seq::new(INPUT_BUFFER_SIZE as nat, |i: int| 0u8),
    {
        let mut bytes: Vec<u8> = Vec::with_capacity(INPUT_BUFFER_SIZE);
        let mut i: usize = 0;
        while i < INPUT_BUFFER_SIZE
            invariant
                i <= INPUT_BUFFER_SIZE,
                bytes@ == Seq::new(i as nat, |j: int| 0u8),
            decreases INPUT_BUFFER_SIZE - i,
        {
            bytes.push(0u8);
            i = i + 1;
        }
        InputBuffer { bytes }
    }

    /// The number of bytes in the buffer.
    #[verifier::when_used_as_spec(spec_len)]
    pub fn len(&self) -> (n: usize)
        ensures
            n == self@.len(),
    {
        self.bytes.len()
    }

    /// The bytes of the buffer.
    pub fn as_slice(&self) -> (s: &[u8])
        ensures
            s@ == self@,
    {
        self.bytes.as_slice()
    }

    /// Gets the buffer ready for more input, given the address at which the
    /// buffer that libmad reads starts and the address of the next frame in it.
    /// Where libmad has consumed something, the bytes it has not consumed move to
    /// the front, and the fresh input is to be read in behind them.
    pub fn prepare(&mut self, stream_start: usize, next_frame: usize) -> (plan: RefillPlan)
        requires
            stream_start <= next_frame,
        ensures
            ({
                let size = old(self)@.len();
                let keep = unconsumed(size, (next_frame - stream_start) as nat);
                &&& size <= usize::MAX
                &&& final(self)@.len() == size
                &&& keep == size ==> plan == RefillPlan::WholeBuffer && final(self)@ == old(self)@
                &&& keep != size ==> plan == (RefillPlan::ReadFrom { start: keep as usize })
                    && final(self)@ == compacted(old(self)@, (next_frame - stream_start) as nat)
            }),
            ({
                let n = old(self)@.len() as int;
                let k = next_frame - stream_start;
                let kept = if k <= n { n - k } else { 0int };
                &&& k == 0 || n == 0 ==> plan == RefillPlan::WholeBuffer && final(self)@ == old(self)@
                &&& 0 < k && 0 < n ==> plan == (RefillPlan::ReadFrom { start: kept as usize })
                &&& 0 < k ==> forall|i: int| 0 <= i < kept ==> #[trigger] final(self)@[i] == old(self)@[i + k]
                &&& 0 < k ==> forall|i: int| kept <= i < n ==> #[trigger] final(self)@[i] == old(self)@[i]
            }),
    {
        let size = self.bytes.len();
        let next_frame_position: usize = next_frame - stream_start;
        let consumed: usize = if next_frame_position < size {
            next_frame_position
        } else {
            size
        };
        let unused: usize = size - consumed;
        if unused == size {
            return RefillPlan::WholeBuffer;
        }
        let ghost before = self.bytes@;
        let mut idx: usize = 0;
        while idx < unused
            invariant
                consumed + unused == size,
                idx <= unused,
                self.bytes@.len() == size,
                before.len() == size,
                forall|j: int| 0 <= j < idx ==> #[trigger] self.bytes@[j] == before[j + consumed],
                forall|j: int| idx <= j < size ==> #[trigger] self.bytes@[j] == before[j],
            decreases unused - idx,
        {
            let b = self.bytes[idx + consumed];
            self.bytes.set(idx, b);
            idx = idx + 1;
        }
        assert(self.bytes@ =~= compacted(before, next_frame_position as nat));
        RefillPlan::ReadFrom { start: unused }
    }

    /// Writes the `fresh` bytes that were read into the buffer from `start` on.
    /// Where nothing was read, the input has ended; otherwise the bytes up to the
    /// end of the fresh ones are ready for libmad.
    pub fn fill(&mut self, start: usize, fresh: &[u8]) -> (outcome: FillOutcome)
        requires
            start + fresh@.len() <= old(self)@.len(),
        ensures
            old(self)@.len() <= usize::MAX,
            final(self)@.len() == old(self)@.len(),
            fresh@.len() == 0 ==> outcome == FillOutcome::EndOfInput && final(self)@ == old(self)@,
            fresh@.len() != 0 ==> outcome == (FillOutcome::Ready { len: (start + fresh@.len()) as usize })
                && final(self)@ == filled(old(self)@, start as nat, fresh@),
            forall|i: int| 0 <= i < start ==> #[trigger] final(self)@[i] == old(self)@[i],
            forall|j: int| 0 <= j < fresh@.len() ==> #[trigger] final(self)@[start + j] == fresh@[j],
            forall|i: int| start + fresh@.len() <= i < old(self)@.len() ==> #[trigger] final(self)@[i] == old(self)@[i],
    {
        let n = fresh.len();
        let size = self.bytes.len();
        if n == 0 {
            return FillOutcome::EndOfInput;
        }
        let ghost before = self.bytes@;
        let mut i: usize = 0;
        while i < n
            invariant
                n == fresh@.len(),
                start + n <= before.len(),
                before.len() == size,
                i <= n,
                self.bytes@.len() == before.len(),
                forall|j: int| 0 <= j < start ==> #[trigger] self.bytes@[j] == before[j],
                forall|j: int| start <= j < start + i ==> #[trigger] self.bytes@[j] == fresh@[j - start],
                forall|j: int| start + i <= j < before.len() ==> #[trigger] self.bytes@[j] == before[j],
            decreases n - i,
        {
            self.bytes.set(start + i, fresh[i]);
            i = i + 1;
        }
        assert(self.bytes@ =~= filled(before, start as nat, fresh@));
        FillOutcome::Ready { len: start + n }
    }
}

/// Refilling the buffer loses and repeats no input: where libmad has consumed
/// part of the buffer and the reader then gives fresh bytes, what libmad is
/// handed next is exactly the part it had not consumed, followed by the fresh bytes.
pub proof fn law_refill_hands_on_unconsumed_then_fresh(buf: Seq<u8>, next_frame: nat, fresh: Seq<u8>)
    requires
        unconsumed(buf.len(), next_frame) != buf.len(),
        unconsumed(buf.len(), next_frame) + fresh.len() <= buf.len(),
    ensures
        ({
            let keep = unconsumed(buf.len(), next_frame);
            let after = filled(compacted(buf, next_frame), keep, fresh);
            &&& after.len() == buf.len()
            &&& after.take((keep + fresh.len()) as int) == buf.subrange(buf.len() - keep, buf.len() as int) + fresh
        }),
{
    let keep = unconsumed(buf.len(), next_frame);
    let after = filled(compacted(buf, next_frame), keep, fresh);
    assert(after.take((keep + fresh.len()) as int) =~= buf.subrange(buf.len() - keep, buf.len() as int) + fresh);
}

/// Neither step of a refill changes the size of the buffer.
pub proof fn law_refill_keeps_size(buf: Seq<u8>, next_frame: nat, start: nat, fresh: Seq<u8>)
    requires
        start + fresh.len() <= buf.len(),
    ensures
        compacted(buf, next_frame).len() == buf.len(),
        filled(buf, start, fresh).len() == buf.len(),
{
}

/// The first `len` bytes of `buf` are the last `len` bytes of `input`.
pub open spec fn window_is_suffix(buf: Seq<u8>, len: nat, input: Seq<u8>) -> bool {
    &&& len <= buf.len()
    &&& len <= input.len()
    &&& buf.take(len as int) == input.subrange(input.len() - len, input.len() as int)
}

/// While every read has filled all the room it was given, the window libmad
/// reads is the end of the input so far, with no byte lost, repeated or
/// reordered. Take a buffer whose whole content is the end of `input` (so it is
/// on the first call, with `input` the buffer's initial bytes). Where libmad has
/// consumed nothing, the buffer is handed on as it is. Otherwise, after the
/// refill with the bytes `fresh` that the reader gave, the window handed to
/// libmad is the end of `input + fresh`; and where the read filled all the room
/// it was given, that window is again the whole buffer, so the law applies to
/// the next refill as well. After a short read it does not: the next refill
/// keeps the bytes from libmad's next frame to the end of the whole buffer,
/// including those past the window last handed over.
pub proof fn law_window_stays_suffix_of_input(buf: Seq<u8>, input: Seq<u8>, next_frame: nat, fresh: Seq<u8>)
    requires
        window_is_suffix(buf, buf.len(), input),
        unconsumed(buf.len(), next_frame) + fresh.len() <= buf.len(),
    ensures
        ({
            let keep = unconsumed(buf.len(), next_frame);
            let after = filled(compacted(buf, next_frame), keep, fresh);
            &&& keep == buf.len() ==> window_is_suffix(buf, buf.len(), input)
            &&& keep != buf.len() ==> window_is_suffix(after, keep + fresh.len(), input + fresh)
            &&& keep != buf.len() && keep + fresh.len() == buf.len()
                ==> window_is_suffix(after, after.len(), input + fresh)
        }),
{
    let keep = unconsumed(buf.len(), next_frame);
    if keep != buf.len() {
        law_refill_hands_on_unconsumed_then_fresh(buf, next_frame, fresh);
        let after = filled(compacted(buf, next_frame), keep, fresh);
        let total = input + fresh;
        let n = (keep + fresh.len()) as int;
        assert(buf.subrange(buf.len() - keep, buf.len() as int) =~= input.subrange(
            input.len() - keep,
            input.len() as int,
        )) by {
            assert forall|i: int| 0 <= i < keep implies #[trigger] buf.subrange(
                buf.len() - keep,
                buf.len() as int,
            )[i] == input.subrange(input.len() - keep, input.len() as int)[i] by {
                assert(buf.take(buf.len() as int)[buf.len() - keep + i] == input.subrange(
                    input.len() - buf.len(),
                    input.len() as int,
                )[buf.len() - keep + i]);
            }
        }
        assert(total.subrange(total.len() - n, total.len() as int) =~= input.subrange(
            input.len() - keep,
            input.len() as int,
        ) + fresh);
    }
}

/// What a refill keeps: where libmad's next frame lies `k > 0` bytes into a
/// buffer of `n` bytes, the `n - min(k, n)` bytes from position `k` on move to
/// the front, in order, and the bytes behind them stay where they were.
pub proof fn law_compaction_keeps_bytes_from_next_frame_on(buf: Seq<u8>, k: nat)
    requires
        0 < k,
    ensures
        ({
            let n = buf.len() as int;
            let kept = if k <= n { n - k } else { 0int };
            &&& unconsumed(buf.len(), k) == kept
            &&& compacted(buf, k).len() == n
            &&& forall|i: int| 0 <= i < kept ==> #[trigger] compacted(buf, k)[i] == buf[i + k]
            &&& forall|i: int| kept <= i < n ==> #[trigger] compacted(buf, k)[i] == buf[i]
        }),
{
}

/// The whole buffer is handed over as it is only when libmad has consumed
/// nothing: a refill keeps every byte exactly when the next frame lies at the
/// start of the buffer (or the buffer is empty).
pub proof fn law_whole_buffer_only_when_nothing_consumed(n: nat, k: nat)
    ensures
        unconsumed(n, k) == n <==> (k == 0 || n == 0),
{
}

/// Writing fresh bytes puts each of them at its place from `start` on and
/// leaves every other byte as it was.
pub proof fn law_fill_places_fresh_bytes(buf: Seq<u8>, start: nat, fresh: Seq<u8>)
    requires
        start + fresh.len() <= buf.len(),
    ensures
        filled(buf, start, fresh).len() == buf.len(),
        forall|i: int| 0 <= i < start ==> #[trigger] filled(buf, start, fresh)[i] == buf[i],
        forall|j: int| 0 <= j < fresh.len() ==> #[trigger] filled(buf, start, fresh)[start + j] == fresh[j],
        forall|i: int| start + fresh.len() <= i < buf.len() ==> #[trigger] filled(buf, start, fresh)[i] == buf[i],
{
}

} // verus!
