use vstd::prelude::*;

use crate::error::MadError;
use crate::flow::MadFlow;
use crate::frame::{pcm_channel, pcm_holds, Frame, MAX_CHANNELS, MAX_FRAME_SAMPLES};
use crate::input::{compacted, filled, unconsumed, FillOutcome, InputBuffer, RefillPlan};

verus! {

/// What the input callback does next.
#[derive(Debug, Clone, Copy, PartialEq, Eq, Structural)]
pub enum InputStep {
    /// Hand libmad the first `len` bytes of the buffer, and answer libmad with `flow`.
    Feed { len: usize, flow: MadFlow },
    /// Read fresh input, as many bytes as fit in the buffer from `start` on,
    /// and pass them to `input_read`.
    Read { start: usize },
}

/// The input callback's first half: libmad wants input, and its stream starts at
/// address `stream_start` and has its next frame at `next_frame`.
/// What counts as unconsumed is measured against the whole buffer, not against
/// the length last handed to libmad: after a short read, the bytes past that
/// length are kept and handed to libmad again.
pub fn input_wanted(buffer: &mut InputBuffer, stream_start: usize, next_frame: usize) -> (step: InputStep)
    requires
        stream_start <= next_frame,
    ensures
        ({
            let size = old(buffer)@.len();
            let keep = unconsumed(size, (next_frame - stream_start) as nat);
            &&& size <= usize::MAX
            &&& final(buffer)@.len() == size
            &&& keep == size ==> step == (InputStep::Feed { len: size as usize, flow: MadFlow::Continue })
                && final(buffer)@ == old(buffer)@
            &&& keep != size ==> step == (InputStep::Read { start: keep as usize })
                && final(buffer)@ == compacted(old(buffer)@, (next_frame - stream_start) as nat)
        }),
        ({
            let n = old(buffer)@.len() as int;
            let k = next_frame - stream_start;
            let kept = if k <= n { n - k } else { 0int };
            &&& k == 0 || n == 0 ==> step == (InputStep::Feed { len: n as usize, flow: MadFlow::Continue })
                && final(buffer)@ == old(buffer)@
            &&& 0 < k && 0 < n ==> step == (InputStep::Read { start: kept as usize })
            &&& 0 < k ==> forall|i: int| 0 <= i < kept ==> #[trigger] final(buffer)@[i] == old(buffer)@[i + k]
            &&& 0 < k ==> forall|i: int| kept <= i < n ==> #[trigger] final(buffer)@[i] == old(buffer)@[i]
        }),
{
    match buffer.prepare(stream_start, next_frame) {
        RefillPlan::WholeBuffer => InputStep::Feed { len: buffer.len(), flow: MadFlow::Continue },
        RefillPlan::ReadFrom { start } => InputStep::Read { start },
    }
}

/// The input callback's second half: `fresh` was read into the buffer from
/// `start` on. Gives how many bytes of the buffer to hand libmad, if any, and
/// how libmad goes on: it stops once the reader gives nothing more.
pub fn input_read(buffer: &mut InputBuffer, start: usize, fresh: &[u8]) -> (r: (Option<usize>, MadFlow))
    requires
        start + fresh@.len() <= old(buffer)@.len(),
    ensures
        old(buffer)@.len() <= usize::MAX,
        final(buffer)@.len() == old(buffer)@.len(),
        fresh@.len() == 0 ==> r == (None::<usize>, MadFlow::Stop) && final(buffer)@ == old(buffer)@,
        fresh@.len() != 0 ==> r == (Some((start + fresh@.len()) as usize), MadFlow::Continue)
            && final(buffer)@ == filled(old(buffer)@, start as nat, fresh@),
        forall|i: int| 0 <= i < start ==> #[trigger] final(buffer)@[i] == old(buffer)@[i],
        forall|j: int| 0 <= j < fresh@.len() ==> #[trigger] final(buffer)@[start + j] == fresh@[j],
        forall|i: int| start + fresh@.len() <= i < old(buffer)@.len() ==> #[trigger] final(buffer)@[i] == old(buffer)@[i],
{
    match buffer.fill(start, fresh) {
        FillOutcome::EndOfInput => (None, MadFlow::Stop),
        FillOutcome::Ready { len } => (Some(len), MadFlow::Continue),
    }
}

/// The output callback: libmad decoded a frame; it is passed on, and decoding continues.
pub fn output_event(
    sample_rate: u32,
    channels: u16,
    length: u16,
    pcm: &[[i32; MAX_FRAME_SAMPLES]; MAX_CHANNELS],
) -> (r: (Result<Frame, MadError>, MadFlow))
    requires
        pcm_holds(channels, length),
    ensures
        r.1 == MadFlow::Continue,
        r.0 matches Ok(f) && f.sample_rate == sample_rate && f.samples@.len() == channels
            && (forall|c: int| 0 <= c < channels ==> #[trigger] f.samples@[c]@ == pcm_channel(*pcm, c, length as nat))
            && (forall|c: int| 0 <= c < channels ==> #[trigger] f.samples@[c]@.len() == length)
            && (forall|c: int, s: int| 0 <= c < channels && 0 <= s < length
                ==> #[trigger] f.samples@[c]@[s] == pcm@[c]@[s]),
{
    (Ok(Frame::from_pcm(sample_rate, channels, length, pcm)), MadFlow::Continue)
}

/// The error callback: libmad reported `error`; it is passed on, and decoding continues.
pub fn error_event(error: MadError) -> (r: (Result<Frame, MadError>, MadFlow))
    ensures
        r.0 == Err::<Frame, MadError>(error),
        r.1 == MadFlow::Continue,
{
    (Err(error), MadFlow::Continue)
}

} // verus!
