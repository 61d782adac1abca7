//! The voice-detection signal as the segment controller sees it: one status
//! byte for each reading, zero for silence.

use vstd::prelude::*;

verus! {

/// Bytes that the device answers a status read with.
pub const STATUS_REPLY_LEN: usize = 8;

/// Whether a status byte reports voice activity: any non-zero byte does.
pub open spec fn spec_is_active(status: u8) -> bool {
    status != 0
}

/// The status that a read amounts to: the first byte of the reply, and zero
/// where the read failed.
pub open spec fn spec_voice_status(reply: Option<[u8; 8]>) -> u8 {
    match reply {
        Some(bytes) => bytes@[0],
        None => 0,
    }
}

/// Tells whether a status byte reports voice activity.
pub fn is_active(status: u8) -> (active: bool)
    ensures
        active == spec_is_active(status),
{
    status != 0
}

/// Turns the outcome of a status read into the status byte: the first byte
/// of the device's reply. A read that failed, `None`, counts as silence.
pub fn voice_status(reply: Option<[u8; 8]>) -> (status: u8)
    ensures
        status == spec_voice_status(reply),
        reply is None ==> !spec_is_active(status),
{
    match reply {
        Some(bytes) => bytes[0],
        None => 0,
    }
}

/// The debounce duration in milliseconds for a silence of `secs` seconds;
/// a duration too long for the clock is the longest there is.
pub open spec fn spec_debounce_millis(secs: u64) -> u64 {
    if secs * 1000 <= u64::MAX {
        (secs * 1000) as u64
    } else {
        u64::MAX
    }
}

/// Converts the configured silence in seconds into the milliseconds that
/// the controller counts in.
pub fn debounce_millis(secs: u64) -> (millis: u64)
    ensures
        millis == spec_debounce_millis(secs),
{
    if secs <= u64::MAX / 1000 {
        secs * 1000
    } else {
        u64::MAX
    }
}

} // verus!
