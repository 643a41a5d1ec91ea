use simplemad::{
    error_event, frame_from_received, input_read, input_wanted, next_item, output_event, Error,
    FillOutcome, Frame, InputBuffer, InputStep, MadError, MadFlow, RefillPlan, INPUT_BUFFER_SIZE,
    MAX_CHANNELS, MAX_FRAME_SAMPLES,
};
use std::sync::mpsc::RecvError;

const ALL_ERRORS: [(MadError, u32); 22] = [
    (MadError::NoError, 0x0000),
    (MadError::BufLen, 0x0001),
    (MadError::BufPtr, 0x0002),
    (MadError::NoMem, 0x0031),
    (MadError::LostSync, 0x0101),
    (MadError::BadLayer, 0x0102),
    (MadError::BadBitRate, 0x0103),
    (MadError::BadSampleRate, 0x0104),
    (MadError::BadEmphasis, 0x0105),
    (MadError::BadCRC, 0x0201),
    (MadError::BadBitAlloc, 0x0211),
    (MadError::BadScaleFactor, 0x0221),
    (MadError::BadMode, 0x0222),
    (MadError::BadFrameLen, 0x0231),
    (MadError::BadBigValues, 0x0232),
    (MadError::BadBlockType, 0x0233),
    (MadError::BadScFSI, 0x0234),
    (MadError::BadDataPtr, 0x0235),
    (MadError::BadPart3Len, 0x0236),
    (MadError::BadHuffTable, 0x0237),
    (MadError::BadHuffData, 0x0238),
    (MadError::BadStereo, 0x0239),
];

fn pcm_ramp() -> Box<[[i32; MAX_FRAME_SAMPLES]; MAX_CHANNELS]> {
    let mut pcm = Box::new([[0i32; MAX_FRAME_SAMPLES]; MAX_CHANNELS]);
    for c in 0..MAX_CHANNELS {
        for s in 0..MAX_FRAME_SAMPLES {
            pcm[c][s] = (c as i32 + 1) * 10_000 + s as i32;
        }
    }
    pcm
}

fn buffer_with_ramp() -> InputBuffer {
    let mut buffer = InputBuffer::new();
    let ramp: Vec<u8> = (0..INPUT_BUFFER_SIZE).map(|i| (i % 251) as u8).collect();
    assert_eq!(buffer.fill(0, &ramp), FillOutcome::Ready { len: INPUT_BUFFER_SIZE });
    buffer
}

#[test]
fn error_codes_match_libmad() {
    for (error, code) in ALL_ERRORS.iter() {
        assert_eq!(error.code(), *code);
        assert_eq!(MadError::from_code(*code), Some(*error));
    }
}

#[test]
fn unknown_error_codes_are_rejected() {
    assert_eq!(MadError::from_code(0x0003), None);
    assert_eq!(MadError::from_code(0x0100), None);
    assert_eq!(MadError::from_code(0x023a), None);
    assert_eq!(MadError::from_code(u32::MAX), None);
}

#[test]
fn error_code_roundtrip_for_every_error() {
    for (error, _) in ALL_ERRORS.iter() {
        assert_eq!(MadError::from_code(error.code()), Some(*error));
    }
    for (a, _) in ALL_ERRORS.iter() {
        for (b, _) in ALL_ERRORS.iter() {
            assert_eq!(a == b, a.code() == b.code());
        }
    }
}

#[test]
fn flow_codes_match_libmad() {
    assert_eq!(MadFlow::Continue.code(), 0x0000);
    assert_eq!(MadFlow::Stop.code(), 0x0010);
    assert_eq!(MadFlow::Break.code(), 0x0011);
    assert_eq!(MadFlow::Ignore.code(), 0x0020);
}

#[test]
fn stereo_frame_takes_full_rows() {
    let pcm = pcm_ramp();
    let f = Frame::from_pcm(44100, 2, 1152, &pcm);
    assert_eq!(f.sample_rate, 44100);
    assert_eq!(f.samples.len(), 2);
    assert_eq!(f.samples[0].len(), 1152);
    assert_eq!(f.samples[1].len(), 1152);
    assert_eq!(f.samples[0][0], 10_000);
    assert_eq!(f.samples[1][0], 20_000);
    assert_eq!(f.samples[1][1151], 21_151);
}

#[test]
fn half_length_frame_takes_row_prefixes() {
    let pcm = pcm_ramp();
    let f = Frame::from_pcm(24000, 2, 576, &pcm);
    assert_eq!(f.sample_rate, 24000);
    assert_eq!(f.samples.len(), 2);
    assert_eq!(f.samples[0].len(), 576);
    assert_eq!(f.samples[0][575], 10_575);
    assert_eq!(f.samples[1][..], pcm[1][..576]);
}

#[test]
fn mono_frame_uses_left_row_only() {
    let pcm = pcm_ramp();
    let f = Frame::from_pcm(44100, 1, 1152, &pcm);
    assert_eq!(f.samples.len(), 1);
    assert_eq!(f.samples[0][..], pcm[0][..]);
}

#[test]
fn empty_frames() {
    let pcm = pcm_ramp();
    let f = Frame::from_pcm(8000, 0, 1152, &pcm);
    assert_eq!(f.samples.len(), 0);
    let g = Frame::from_pcm(8000, 2, 0, &pcm);
    assert_eq!(g.samples.len(), 2);
    assert!(g.samples[0].is_empty() && g.samples[1].is_empty());
}

#[test]
fn frames_that_read_no_sample_need_no_room() {
    let pcm = pcm_ramp();
    let f = Frame::from_pcm(44100, 3, 0, &pcm);
    assert_eq!(f.samples.len(), 3);
    assert!(f.samples.iter().all(|c| c.is_empty()));
    let g = Frame::from_pcm(44100, 0, 2000, &pcm);
    assert_eq!(g.samples.len(), 0);
}

#[test]
fn short_read_hands_stale_bytes_again() {
    let mut buffer = buffer_with_ramp();
    let before = buffer.as_slice().to_vec();
    // libmad consumed everything: read into the whole buffer, but only 10 bytes come.
    let start = match input_wanted(&mut buffer, 0, INPUT_BUFFER_SIZE) {
        InputStep::Read { start } => start,
        other => panic!("unexpected step {:?}", other),
    };
    assert_eq!(start, 0);
    let fresh = [1u8; 10];
    assert_eq!(input_read(&mut buffer, start, &fresh), (Some(10), MadFlow::Continue));
    // libmad consumed 4 of the 10: the kept bytes run to the end of the whole buffer.
    let start = match input_wanted(&mut buffer, 0, 4) {
        InputStep::Read { start } => start,
        other => panic!("unexpected step {:?}", other),
    };
    assert_eq!(start, INPUT_BUFFER_SIZE - 4);
    assert_eq!(&buffer.as_slice()[..6], &fresh[4..]);
    assert_eq!(&buffer.as_slice()[6..INPUT_BUFFER_SIZE - 4], &before[10..]);
}

#[test]
fn new_buffer_is_zeroed() {
    let buffer = InputBuffer::new();
    assert_eq!(buffer.len(), INPUT_BUFFER_SIZE);
    assert_eq!(INPUT_BUFFER_SIZE, 32768);
    assert!(buffer.as_slice().iter().all(|b| *b == 0));
}

#[test]
fn nothing_consumed_hands_over_whole_buffer() {
    let mut buffer = buffer_with_ramp();
    let before = buffer.as_slice().to_vec();
    assert_eq!(buffer.prepare(4096, 4096), RefillPlan::WholeBuffer);
    assert_eq!(buffer.as_slice(), &before[..]);
}

#[test]
fn partly_consumed_moves_tail_to_front() {
    let mut buffer = buffer_with_ramp();
    let before = buffer.as_slice().to_vec();
    let consumed = 30000;
    assert_eq!(
        buffer.prepare(1000, 1000 + consumed),
        RefillPlan::ReadFrom { start: INPUT_BUFFER_SIZE - consumed }
    );
    let after = buffer.as_slice();
    assert_eq!(&after[..INPUT_BUFFER_SIZE - consumed], &before[consumed..]);
    assert_eq!(&after[INPUT_BUFFER_SIZE - consumed..], &before[INPUT_BUFFER_SIZE - consumed..]);
}

#[test]
fn fully_consumed_reads_from_front() {
    let mut buffer = buffer_with_ramp();
    let before = buffer.as_slice().to_vec();
    assert_eq!(buffer.prepare(0, INPUT_BUFFER_SIZE), RefillPlan::ReadFrom { start: 0 });
    assert_eq!(buffer.as_slice(), &before[..]);
    assert_eq!(buffer.prepare(0, INPUT_BUFFER_SIZE + 77), RefillPlan::ReadFrom { start: 0 });
    assert_eq!(buffer.as_slice(), &before[..]);
}

#[test]
fn fill_writes_fresh_bytes_in_place() {
    let mut buffer = buffer_with_ramp();
    let before = buffer.as_slice().to_vec();
    let fresh = [0xAAu8, 0xBB, 0xCC];
    assert_eq!(buffer.fill(10, &fresh), FillOutcome::Ready { len: 13 });
    assert_eq!(&buffer.as_slice()[..10], &before[..10]);
    assert_eq!(&buffer.as_slice()[10..13], &fresh[..]);
    assert_eq!(&buffer.as_slice()[13..], &before[13..]);
}

#[test]
fn fill_with_nothing_ends_input() {
    let mut buffer = buffer_with_ramp();
    let before = buffer.as_slice().to_vec();
    assert_eq!(buffer.fill(100, &[]), FillOutcome::EndOfInput);
    assert_eq!(buffer.as_slice(), &before[..]);
}

#[test]
fn refill_hands_on_unconsumed_then_fresh() {
    let mut buffer = buffer_with_ramp();
    let before = buffer.as_slice().to_vec();
    let step = input_wanted(&mut buffer, 500, 500 + 32000);
    let start = match step {
        InputStep::Read { start } => start,
        other => panic!("unexpected step {:?}", other),
    };
    assert_eq!(start, 768);
    let fresh = vec![7u8; 1000];
    let (feed, flow) = input_read(&mut buffer, start, &fresh);
    assert_eq!(feed, Some(1768));
    assert_eq!(flow, MadFlow::Continue);
    let handed: Vec<u8> = buffer.as_slice()[..1768].to_vec();
    let mut expected = before[32000..].to_vec();
    expected.extend_from_slice(&fresh);
    assert_eq!(handed, expected);
    assert_eq!(buffer.len(), INPUT_BUFFER_SIZE);
}

#[test]
fn first_input_hands_over_zeroed_buffer() {
    let mut buffer = InputBuffer::new();
    assert_eq!(input_wanted(&mut buffer, 0, 0), InputStep::Feed { len: INPUT_BUFFER_SIZE, flow: MadFlow::Continue });
}

#[test]
fn end_of_reader_stops_decoding() {
    let mut buffer = InputBuffer::new();
    let (feed, flow) = input_read(&mut buffer, 0, &[]);
    assert_eq!(feed, None);
    assert_eq!(flow, MadFlow::Stop);
}

#[test]
fn output_and_error_events_continue() {
    let pcm = pcm_ramp();
    let (item, flow) = output_event(44100, 2, 1152, &pcm);
    assert_eq!(flow, MadFlow::Continue);
    let f = item.expect("a frame");
    assert_eq!(f.sample_rate, 44100);
    assert_eq!(f.samples.len(), 2);
    assert_eq!(f.samples[0].len(), 1152);

    let (item, flow) = error_event(MadError::LostSync);
    assert_eq!(flow, MadFlow::Continue);
    assert!(matches!(item, Err(MadError::LostSync)));
}

#[test]
fn received_items_pass_through() {
    let frame = Frame { sample_rate: 44100, samples: vec![vec![1, 2], vec![3, 4]] };
    let item = next_item(frame_from_received(Ok(Ok(frame))));
    match item {
        Some(Ok(f)) => {
            assert_eq!(f.sample_rate, 44100);
            assert_eq!(f.samples, vec![vec![1, 2], vec![3, 4]]);
        }
        _ => panic!("expected a frame"),
    }
    let item = next_item(frame_from_received(Ok(Err(MadError::BadCRC))));
    assert!(matches!(item, Some(Err(MadError::BadCRC))));
}

#[test]
fn disconnection_ends_iteration() {
    let r = frame_from_received(Err(RecvError));
    assert!(matches!(r, Err(Error::Recv(RecvError))));
    assert!(next_item(r).is_none());
    assert!(matches!(next_item(Err(Error::Mad(MadError::BadMode))), Some(Err(MadError::BadMode))));
}

#[test]
fn window_stays_suffix_over_full_refills() {
    let mut buffer = InputBuffer::new();
    let mut input: Vec<u8> = vec![0u8; INPUT_BUFFER_SIZE];
    let mut counter: u32 = 1;
    for consumed in [INPUT_BUFFER_SIZE, 1000, 20000, 1] {
        let start = match input_wanted(&mut buffer, 0, consumed) {
            InputStep::Read { start } => start,
            other => panic!("unexpected step {:?}", other),
        };
        let fresh: Vec<u8> = (0..INPUT_BUFFER_SIZE - start)
            .map(|_| {
                counter = counter.wrapping_mul(1_103_515_245).wrapping_add(12_345);
                (counter >> 16) as u8
            })
            .collect();
        let (feed, flow) = input_read(&mut buffer, start, &fresh);
        assert_eq!(feed, Some(INPUT_BUFFER_SIZE));
        assert_eq!(flow, MadFlow::Continue);
        input.extend_from_slice(&fresh);
        assert_eq!(buffer.as_slice(), &input[input.len() - INPUT_BUFFER_SIZE..]);
    }
}
