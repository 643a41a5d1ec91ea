use vstd::prelude::*;

verus! {

/// The largest number of samples per channel in one decoded frame
/// (libmad's PCM buffer holds this many per channel).
pub const MAX_FRAME_SAMPLES: usize = 1152;

/// The largest number of channels in one decoded frame.
pub const MAX_CHANNELS: usize = 2;

/// A decoded frame
pub struct Frame {
    /// Number of samples per second
    pub sample_rate: usize,
    /// Samples are signed 32 bit integers and are organized into channels.
    /// For stereo, the left channel is channel 0.
    pub samples: Vec<Vec<i32>>,
}

/// Whether libmad's PCM block holds every sample that a frame of `channels`
/// channels of `length` samples reads from it: it does when the frame reads no
/// sample at all, or when both fit in the block.
pub open spec fn pcm_holds(channels: u16, length: u16) -> bool {
    channels == 0 || length == 0 || (channels <= MAX_CHANNELS && length <= MAX_FRAME_SAMPLES)
}

/// The first `length` samples of row `c` of `pcm`.
pub open spec fn pcm_channel(pcm: [[i32; MAX_FRAME_SAMPLES]; MAX_CHANNELS], c: int, length: nat) -> Seq<i32> {
    Seq::new(length, |s: int| pcm@[c]@[s])
}

impl Frame {
    /// Builds a frame from libmad's PCM output: `channels` channels of `length`
    /// samples each, taken from the front of the rows of `pcm`.
    pub fn from_pcm(
        sample_rate: u32,
        channels: u16,
        length: u16,
        pcm: &[[i32; MAX_FRAME_SAMPLES]; MAX_CHANNELS],
    ) -> (f: Frame)
        requires
            pcm_holds(channels, length),
        ensures
            f.sample_rate == sample_rate,
            f.samples@.len() == channels,
            forall|c: int| 0 <= c < channels ==> #[trigger] f.samples@[c]@ == pcm_channel(*pcm, c, length as nat),
            forall|c: int| 0 <= c < channels ==> #[trigger] f.samples@[c]@.len() == length,
            forall|c: int, s: int| 0 <= c < channels && 0 <= s < length
                ==> #[trigger] f.samples@[c]@[s] == pcm@[c]@[s],
    {
        let mut samples: Vec<Vec<i32>> = Vec::new();
        let n_channels: usize = channels as usize;
        let n_samples: usize = length as usize;
        let mut channel_idx: usize = 0;
        while channel_idx < n_channels
            invariant
                n_channels == channels,
                n_samples == length,
                pcm_holds(channels, length),
                channel_idx <= n_channels,
                samples@.len() == channel_idx,
                forall|c: int| 0 <= c < channel_idx ==> #[trigger] samples@[c]@ == pcm_channel(*pcm, c, n_samples as nat),
            decreases n_channels - channel_idx,
        {
            let mut channel: Vec<i32> = Vec::with_capacity(n_samples);
            let mut sample_idx: usize = 0;
            while sample_idx < n_samples
                invariant
                    n_samples > 0 ==> channel_idx < MAX_CHANNELS && n_samples <= MAX_FRAME_SAMPLES,
                    sample_idx <= n_samples,
                    channel@ == pcm_channel(*pcm, channel_idx as int, sample_idx as nat),
                decreases n_samples - sample_idx,
            {
                channel.push(pcm[channel_idx][sample_idx]);
                sample_idx = sample_idx + 1;
                assert(channel@ =~= pcm_channel(*pcm, channel_idx as int, sample_idx as nat));
            }
            samples.push(channel);
            channel_idx = channel_idx + 1;
        }
        Frame { sample_rate: sample_rate as usize, samples }
    }
}

/// A frame's channel holds libmad's samples unchanged, whatever their values:
/// sample `s` of channel `c` is `pcm[c][s]`, for every sample the frame has.
pub proof fn law_channel_samples_are_pcm_samples(
    pcm: [[i32; MAX_FRAME_SAMPLES]; MAX_CHANNELS],
    c: int,
    length: nat,
)
    ensures
        pcm_channel(pcm, c, length).len() == length,
        forall|s: int| 0 <= s < length ==> #[trigger] pcm_channel(pcm, c, length)[s] == pcm@[c]@[s],
{
}

} // verus!
