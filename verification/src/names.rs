//! How the files of a segment are named: a timestamp, then an extension
//! that tells the raw stream, the converted audio, the transcript and the
//! transcription log apart.

use vstd::prelude::*;
use vstd::string::{StrSliceExecFns, StringExecFns};

verus! {

/// The name of the raw file of the segment stamped `stamp`.
pub open spec fn raw_name(stamp: Seq<char>) -> Seq<char> {
    stamp + ".raw"@
}

/// A segment's name without its four-character extension. A shorter name
/// has no base.
pub open spec fn base_of(raw: Seq<char>) -> Seq<char> {
    if raw.len() >= 4 {
        raw.take(raw.len() - 4)
    } else {
        Seq::empty()
    }
}

/// The name of the converted audio of a segment.
pub open spec fn wav_name(raw: Seq<char>) -> Seq<char> {
    base_of(raw) + ".wav"@
}

/// The name of the transcript of a segment.
pub open spec fn txt_name(raw: Seq<char>) -> Seq<char> {
    base_of(raw) + ".txt"@
}

/// The name of the diagnostic log of a segment.
pub open spec fn log_name(raw: Seq<char>) -> Seq<char> {
    base_of(raw) + ".log"@
}

/// Whether `name` is the name of a raw file: some stamp, then `.raw`.
pub open spec fn is_raw_name(name: Seq<char>) -> bool {
    exists|stamp: Seq<char>| name == #[trigger] raw_name(stamp)
}

/// The names of the files that are derived from one segment.
#[derive(Debug)]
pub struct OutputNames {
    /// The converted audio.
    pub wav: String,
    /// The transcript.
    pub txt: String,
    /// The transcription tool's diagnostic log.
    pub log: String,
}

/// Reads the local wall-clock time with `chrono::Local::now` and has
/// `chrono` format it as year, month, day, an underscore, hour, minute and
/// second. The text depends on the clock and on the time zone, so nothing
/// is claimed of it. `chrono` gives up on a system clock that reads a time
/// before 1970.
#[verifier::external_body]
fn local_timestamp() -> String {
    chrono::Local::now().format("%Y%m%d_%H%M%S").to_string()
}

/// Names the raw file of the segment stamped `stamp`.
pub fn segment_filename(stamp: &str) -> (name: String)
    ensures
        name@ == raw_name(stamp@),
{
    String::from_str(stamp).concat(".raw")
}

/// Names the raw file of a segment that starts now, after the local time
/// to the second.
pub fn fresh_segment_name() -> (name: String)
    ensures
        is_raw_name(name@),
{
    let stamp = local_timestamp();
    let name = segment_filename(stamp.as_str());
    assert(name@ == raw_name(stamp@));
    name
}

/// Derives the names of a segment's converted audio, transcript and log
/// from the name of its raw file: the same base, other extensions.
pub fn output_names(raw: &str) -> (names: OutputNames)
    ensures
        names.wav@ == wav_name(raw@),
        names.txt@ == txt_name(raw@),
        names.log@ == log_name(raw@),
{
    let n = raw.unicode_len();
    let base = if n >= 4 {
        raw.substring_char(0, n - 4)
    } else {
        raw.substring_char(0, 0)
    };
    assert(base@ =~= base_of(raw@));
    OutputNames {
        wav: String::from_str(base).concat(".wav"),
        txt: String::from_str(base).concat(".txt"),
        log: String::from_str(base).concat(".log"),
    }
}

/// The files of one segment share the stamp: the names derived from a raw
/// file's name are its stamp with the other extensions.
pub proof fn lemma_names_share_stamp(stamp: Seq<char>)
    ensures
        base_of(raw_name(stamp)) == stamp,
        wav_name(raw_name(stamp)) == stamp + ".wav"@,
        txt_name(raw_name(stamp)) == stamp + ".txt"@,
        log_name(raw_name(stamp)) == stamp + ".log"@,
{
    reveal_strlit(".raw");
    assert(raw_name(stamp).take(raw_name(stamp).len() - 4) =~= stamp);
}

} // verus!
