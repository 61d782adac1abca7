use vad_recorder::capture::{
    encode_samples, next_capture_action, CaptureAction, CaptureEvent, BLOCK_SAMPLES,
    CAPTURE_CHANNELS, FRAMES_PER_BLOCK,
};

#[test]
fn encode_matches_little_endian_bytes() {
    let samples: Vec<i16> = vec![0, 1, -1, 255, 256, -256, 12345, -12345, i16::MAX, i16::MIN];
    let mut expected = Vec::new();
    for s in &samples {
        expected.extend_from_slice(&s.to_le_bytes());
    }
    assert_eq!(encode_samples(&samples), expected);
}

#[test]
fn encode_exact_bytes() {
    assert_eq!(encode_samples(&[1, -2, 0x1234]), vec![0x01, 0x00, 0xFE, 0xFF, 0x34, 0x12]);
    assert_eq!(encode_samples(&[i16::MIN]), vec![0x00, 0x80]);
    assert_eq!(encode_samples(&[i16::MAX]), vec![0xFF, 0x7F]);
}

#[test]
fn encode_every_sample_value() {
    for s in i16::MIN..=i16::MAX {
        let bytes = encode_samples(&[s]);
        assert_eq!(bytes, s.to_le_bytes().to_vec());
    }
}

#[test]
fn encode_empty_block() {
    assert_eq!(encode_samples(&[]), Vec::<u8>::new());
}

#[test]
fn block_holds_one_sample_per_channel_and_frame() {
    assert_eq!(BLOCK_SAMPLES, FRAMES_PER_BLOCK * CAPTURE_CHANNELS);
}

#[test]
fn loop_reads_while_running() {
    for event in [CaptureEvent::Ready, CaptureEvent::Recovered, CaptureEvent::Written] {
        assert_eq!(next_capture_action(true, event), CaptureAction::ReadBlock);
        assert_eq!(next_capture_action(false, event), CaptureAction::Finish);
    }
}

#[test]
fn frames_are_written_before_the_stop_is_seen() {
    for keep in [true, false] {
        assert_eq!(
            next_capture_action(keep, CaptureEvent::FramesRead { frames: 1 }),
            CaptureAction::WriteSamples { samples: 2 }
        );
        assert_eq!(
            next_capture_action(keep, CaptureEvent::FramesRead { frames: 1024 }),
            CaptureAction::WriteSamples { samples: 2048 }
        );
    }
}

#[test]
fn more_frames_than_the_block_holds_are_clamped() {
    assert_eq!(
        next_capture_action(true, CaptureEvent::FramesRead { frames: 1025 }),
        CaptureAction::WriteSamples { samples: 2048 }
    );
    assert_eq!(
        next_capture_action(true, CaptureEvent::FramesRead { frames: usize::MAX }),
        CaptureAction::WriteSamples { samples: 2048 }
    );
}

#[test]
fn empty_read_goes_back_to_the_loop_head() {
    assert_eq!(
        next_capture_action(true, CaptureEvent::FramesRead { frames: 0 }),
        CaptureAction::ReadBlock
    );
    assert_eq!(
        next_capture_action(false, CaptureEvent::FramesRead { frames: 0 }),
        CaptureAction::Finish
    );
}

#[test]
fn overrun_is_recovered_in_place() {
    assert_eq!(next_capture_action(true, CaptureEvent::ReadFailed), CaptureAction::Recover);
    assert_eq!(next_capture_action(false, CaptureEvent::ReadFailed), CaptureAction::Recover);
    assert_eq!(next_capture_action(true, CaptureEvent::Recovered), CaptureAction::ReadBlock);
}

#[test]
fn failed_recovery_or_write_ends_the_session() {
    assert_eq!(next_capture_action(true, CaptureEvent::RecoveryFailed), CaptureAction::Finish);
    assert_eq!(next_capture_action(true, CaptureEvent::WriteFailed), CaptureAction::Finish);
}
