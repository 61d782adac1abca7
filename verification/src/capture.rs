//! The capture session's part that can be decided without the device: which
//! bytes a block of samples becomes in the raw file, and what the capture
//! loop does next after each thing that happens to it.

use vstd::prelude::*;
use crate::wav::{le16, BITS_PER_SAMPLE, CHANNELS};

verus! {

/// Interleaved samples of one frame.
pub const CAPTURE_CHANNELS: usize = 2;

/// Frames that one read asks the device for.
pub const FRAMES_PER_BLOCK: usize = 1024;

/// Samples that the block buffer holds.
pub const BLOCK_SAMPLES: usize = 2048;

/// Bytes that the writer collects before it writes to the file.
pub const WRITE_BUFFER_LEN: usize = 65536;

/// The 16-bit word that stands for a sample in two's complement.
pub open spec fn sample_word(sample: i16) -> u16 {
    if sample >= 0 {
        sample as u16
    } else {
        (sample + 65536) as u16
    }
}

/// The bytes that samples become in the raw file: two for each, least
/// significant first, in the order of the samples.
pub open spec fn spec_encode_samples(samples: Seq<i16>) -> Seq<u8>
    decreases samples.len(),
{
    if samples.len() == 0 {
        Seq::empty()
    } else {
        spec_encode_samples(samples.drop_last()) + le16(sample_word(samples.last()))
    }
}

/// Encodes samples as the raw file holds them.
pub fn encode_samples(samples: &[i16]) -> (bytes: Vec<u8>)
    ensures
        bytes@ == spec_encode_samples(samples@),
        bytes@.len() == 2 * samples@.len(),
{
    let mut bytes: Vec<u8> = Vec::new();
    let mut i: usize = 0;
    while i < samples.len()
        invariant
            i <= samples.len(),
            bytes@ == spec_encode_samples(samples@.take(i as int)),
            bytes@.len() == 2 * i,
        decreases samples.len() - i,
    {
        let sample: i16 = samples[i];
        let word: u16 = if sample >= 0 {
            sample as u16
        } else {
            (sample as i32 + 65536) as u16
        };
        let ghost before = bytes@;
        bytes.push((word % 256) as u8);
        bytes.push((word / 256) as u8);
        i = i + 1;
        proof {
            let now = samples@.take(i as int);
            assert(now.drop_last() =~= samples@.take(i - 1));
            assert(now.last() == sample);
            assert(bytes@ =~= before + le16(sample_word(sample)));
        }
    }
    assert(samples@.take(i as int) =~= samples@);
    bytes
}

/// What happened to the capture loop.
#[derive(Clone, Copy, Debug, PartialEq, Eq, Structural)]
pub enum CaptureEvent {
    /// The device is configured and the output file is open.
    Ready,
    /// A read returned this many frames.
    FramesRead { frames: usize },
    /// A read failed.
    ReadFailed,
    /// The device recovered from the failed read.
    Recovered,
    /// The device did not recover.
    RecoveryFailed,
    /// The samples were appended to the output file.
    Written,
    /// The samples could not be appended.
    WriteFailed,
}

/// What the capture loop does next.
#[derive(Clone, Copy, Debug, PartialEq, Eq, Structural)]
pub enum CaptureAction {
    /// Read the next block from the device.
    ReadBlock,
    /// Append the first `samples` samples of the block to the output file.
    WriteSamples { samples: usize },
    /// Try to recover the device in place.
    Recover,
    /// Flush and close the output file, release the device and exit.
    Finish,
}

/// The number of samples that a read of `frames` frames left in the block:
/// one for each channel and frame, and never more than the block holds.
pub open spec fn samples_read(frames: usize) -> usize {
    if frames <= FRAMES_PER_BLOCK {
        (frames * CAPTURE_CHANNELS) as usize
    } else {
        BLOCK_SAMPLES
    }
}

/// What the loop does at its head: go on reading while it is asked to keep
/// running, finish once it is not.
pub open spec fn at_loop_head(keep_running: bool) -> CaptureAction {
    if keep_running {
        CaptureAction::ReadBlock
    } else {
        CaptureAction::Finish
    }
}

/// What the capture loop does after `event`, given whether it is still
/// asked to keep running. Frames that were read are written before the
/// stop request is looked at again; a failed read is recovered in place;
/// only a failed recovery or a failed write ends the session early.
pub open spec fn spec_next_capture_action(keep_running: bool, event: CaptureEvent) -> CaptureAction {
    match event {
        CaptureEvent::FramesRead { frames } => if frames > 0 {
            CaptureAction::WriteSamples { samples: samples_read(frames) }
        } else {
            at_loop_head(keep_running)
        },
        CaptureEvent::ReadFailed => CaptureAction::Recover,
        CaptureEvent::RecoveryFailed | CaptureEvent::WriteFailed => CaptureAction::Finish,
        CaptureEvent::Ready | CaptureEvent::Recovered | CaptureEvent::Written => at_loop_head(
            keep_running,
        ),
    }
}

/// Decides what the capture loop does after `event`.
pub fn next_capture_action(keep_running: bool, event: CaptureEvent) -> (action: CaptureAction)
    ensures
        action == spec_next_capture_action(keep_running, event),
{
    match event {
        CaptureEvent::FramesRead { frames } => {
            if frames == 0 {
                loop_head(keep_running)
            } else if frames <= FRAMES_PER_BLOCK {
                CaptureAction::WriteSamples { samples: frames * CAPTURE_CHANNELS }
            } else {
                CaptureAction::WriteSamples { samples: BLOCK_SAMPLES }
            }
        },
        CaptureEvent::ReadFailed => CaptureAction::Recover,
        CaptureEvent::RecoveryFailed => CaptureAction::Finish,
        CaptureEvent::WriteFailed => CaptureAction::Finish,
        CaptureEvent::Ready => loop_head(keep_running),
        CaptureEvent::Recovered => loop_head(keep_running),
        CaptureEvent::Written => loop_head(keep_running),
    }
}

fn loop_head(keep_running: bool) -> (action: CaptureAction)
    ensures
        action == at_loop_head(keep_running),
{
    if keep_running {
        CaptureAction::ReadBlock
    } else {
        CaptureAction::Finish
    }
}

/// The block buffer holds one sample for each channel of each frame of a
/// read, in the channel count and sample width that the container's header
/// announces.
pub proof fn lemma_block_layout()
    ensures
        BLOCK_SAMPLES == FRAMES_PER_BLOCK * CAPTURE_CHANNELS,
        CAPTURE_CHANNELS == CHANNELS,
        forall|sample: i16| #[trigger] le16(sample_word(sample)).len() * 8 == BITS_PER_SAMPLE,
{
}

/// The raw file is the samples in the order in which they were read:
/// encoding block after block gives the bytes of encoding all the samples
/// at once.
pub proof fn lemma_encode_blocks(first: Seq<i16>, second: Seq<i16>)
    ensures
        spec_encode_samples(first + second) == spec_encode_samples(first) + spec_encode_samples(
            second,
        ),
        spec_encode_samples(first).len() == 2 * first.len(),
    decreases second.len(),
{
    lemma_encoded_len(first);
    if second.len() == 0 {
        assert(first + second =~= first);
        assert(spec_encode_samples(first) + spec_encode_samples(second) =~= spec_encode_samples(
            first,
        ));
    } else {
        lemma_encode_blocks(first, second.drop_last());
        assert((first + second).drop_last() =~= first + second.drop_last());
        assert((first + second).last() == second.last());
        assert(spec_encode_samples(first + second) =~= spec_encode_samples(first)
            + spec_encode_samples(second));
    }
}

/// Every sample takes two bytes.
pub proof fn lemma_encoded_len(samples: Seq<i16>)
    ensures
        spec_encode_samples(samples).len() == 2 * samples.len(),
    decreases samples.len(),
{
    if samples.len() > 0 {
        lemma_encoded_len(samples.drop_last());
    }
}

/// A stop request is observed within one block. Once the loop is no longer
/// asked to keep running it starts no further read, and whatever it still
/// does, writing the block it holds or recovering the device, is followed
/// by its end.
pub proof fn lemma_stop_is_observed(event: CaptureEvent, after: CaptureEvent)
    ensures
        spec_next_capture_action(false, event) != CaptureAction::ReadBlock,
        spec_next_capture_action(false, event) is WriteSamples && (after == CaptureEvent::Written
            || after == CaptureEvent::WriteFailed) ==> spec_next_capture_action(false, after)
            == CaptureAction::Finish,
        spec_next_capture_action(false, event) == CaptureAction::Recover && (after
            == CaptureEvent::Recovered || after == CaptureEvent::RecoveryFailed)
            ==> spec_next_capture_action(false, after) == CaptureAction::Finish,
{
}

/// What is written never exceeds the block: a write asks for at most
/// `BLOCK_SAMPLES` samples, and for a whole number of frames.
pub proof fn lemma_write_fits_block(keep_running: bool, event: CaptureEvent)
    ensures
        spec_next_capture_action(keep_running, event) matches CaptureAction::WriteSamples {
            samples,
        } ==> 0 < samples <= BLOCK_SAMPLES && samples % CAPTURE_CHANNELS == 0,
{
}

} // verus!
