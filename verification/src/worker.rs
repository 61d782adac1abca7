//! The postprocessing worker's cycle over one snapshot of the pending
//! queue. Every segment of the snapshot is converted, in order; a segment
//! whose conversion succeeded is transcribed; then as many segments as the
//! snapshot held are retired, whatever became of each.
//!
//! Converting and transcribing are work that the caller does. The batch
//! says what is next, and the caller reports how it went.

use vstd::prelude::*;
use crate::names::{log_name, output_names, txt_name, wav_name};
use crate::queue::names_of;

verus! {

/// Where a batch stands.
#[derive(Clone, Copy, Debug, PartialEq, Eq, Structural)]
pub enum Stage {
    /// The segment at the cursor is to be converted.
    Convert,
    /// The segment at the cursor was converted and is to be transcribed.
    Transcribe,
    /// Every segment was attempted; the snapshot is to be retired.
    Retire,
    /// The cycle is over.
    Done,
}

/// What the caller is to do next.
#[derive(Debug)]
pub enum WorkerAction {
    /// Convert the raw file `raw` into the container file `wav`.
    Convert { raw: String, wav: String },
    /// Run the transcription tool on `wav`; its output goes to `txt`, its
    /// diagnostics to `log`.
    Transcribe { wav: String, txt: String, log: String },
    /// Remove the first `count` segments from the pending queue.
    Retire { count: usize },
    /// Nothing: the cycle is over.
    Finished,
}

/// A worker action as a mathematical value.
pub enum Step {
    Convert { raw: Seq<char>, wav: Seq<char> },
    Transcribe { wav: Seq<char>, txt: Seq<char>, log: Seq<char> },
    Retire { count: nat },
    Finished,
}

impl View for WorkerAction {
    type V = Step;

    open spec fn view(&self) -> Step {
        match *self {
            WorkerAction::Convert { raw, wav } => Step::Convert { raw: raw@, wav: wav@ },
            WorkerAction::Transcribe { wav, txt, log } => Step::Transcribe {
                wav: wav@,
                txt: txt@,
                log: log@,
            },
            WorkerAction::Retire { count } => Step::Retire { count: count as nat },
            WorkerAction::Finished => Step::Finished,
        }
    }
}

/// A batch as a mathematical value.
pub struct BatchView {
    /// The snapshot: the segments of this cycle, oldest first.
    pub files: Seq<Seq<char>>,
    /// The number of segments that the cycle is through with.
    pub cursor: nat,
    /// What is to be done next.
    pub stage: Stage,
}

/// The invariant of a batch: the cursor stands on a segment while there is
/// one to convert or transcribe, and behind the last once there is none.
pub open spec fn batch_wf(b: BatchView) -> bool {
    match b.stage {
        Stage::Convert | Stage::Transcribe => b.cursor < b.files.len(),
        Stage::Retire | Stage::Done => b.cursor == b.files.len(),
    }
}

/// The batch at the start of a cycle over `files`.
pub open spec fn started(files: Seq<Seq<char>>) -> BatchView {
    BatchView {
        files,
        cursor: 0,
        stage: if files.len() == 0 {
            Stage::Retire
        } else {
            Stage::Convert
        },
    }
}

/// The batch once it is through with the segment at the cursor.
pub open spec fn advanced(b: BatchView) -> BatchView {
    if b.cursor + 1 < b.files.len() {
        BatchView { cursor: b.cursor + 1, stage: Stage::Convert, ..b }
    } else {
        BatchView { cursor: b.files.len(), stage: Stage::Retire, ..b }
    }
}

/// The batch after the report on its current step. A failed conversion
/// skips the transcription of that segment; nothing else depends on
/// success.
pub open spec fn reported(b: BatchView, succeeded: bool) -> BatchView {
    match b.stage {
        Stage::Convert => if succeeded {
            BatchView { stage: Stage::Transcribe, ..b }
        } else {
            advanced(b)
        },
        Stage::Transcribe => advanced(b),
        Stage::Retire => BatchView { stage: Stage::Done, ..b },
        Stage::Done => b,
    }
}

/// The step that a batch asks for.
pub open spec fn step_of(b: BatchView) -> Step {
    match b.stage {
        Stage::Convert => Step::Convert {
            raw: b.files[b.cursor as int],
            wav: wav_name(b.files[b.cursor as int]),
        },
        Stage::Transcribe => Step::Transcribe {
            wav: wav_name(b.files[b.cursor as int]),
            txt: txt_name(b.files[b.cursor as int]),
            log: log_name(b.files[b.cursor as int]),
        },
        Stage::Retire => Step::Retire { count: b.files.len() },
        Stage::Done => Step::Finished,
    }
}

/// One cycle of the worker over a snapshot of the pending queue.
#[derive(Debug)]
pub struct Batch {
    files: Vec<String>,
    cursor: usize,
    stage: Stage,
}

impl View for Batch {
    type V = BatchView;

    closed spec fn view(&self) -> BatchView {
        BatchView { files: names_of(self.files@), cursor: self.cursor as nat, stage: self.stage }
    }
}

impl Batch {
    /// The invariant that every batch made by `new` has and `report` keeps.
    pub open spec fn wf(&self) -> bool {
        batch_wf(self@)
    }

    /// Starts a cycle over a snapshot of the pending queue.
    pub fn new(files: Vec<String>) -> (batch: Batch)
        ensures
            batch.wf(),
            batch@ == started(names_of(files@)),
    {
        let stage = if files.len() == 0 {
            Stage::Retire
        } else {
            Stage::Convert
        };
        Batch { files, cursor: 0, stage }
    }

    /// What is to be done next.
    pub fn action(&self) -> (action: WorkerAction)
        requires
            self.wf(),
        ensures
            action@ == step_of(self@),
    {
        match self.stage {
            Stage::Convert => {
                let raw = self.files[self.cursor].clone();
                let names = output_names(raw.as_str());
                WorkerAction::Convert { raw, wav: names.wav }
            },
            Stage::Transcribe => {
                let names = output_names(self.files[self.cursor].as_str());
                WorkerAction::Transcribe { wav: names.wav, txt: names.txt, log: names.log }
            },
            Stage::Retire => WorkerAction::Retire { count: self.files.len() },
            Stage::Done => WorkerAction::Finished,
        }
    }

    /// Takes the report on the step that `action` asked for and moves on.
    pub fn report(&mut self, succeeded: bool)
        requires
            old(self).wf(),
        ensures
            final(self).wf(),
            final(self)@ == reported(old(self)@, succeeded),
    {
        match self.stage {
            Stage::Convert => {
                if succeeded {
                    self.stage = Stage::Transcribe;
                } else {
                    self.advance();
                }
            },
            Stage::Transcribe => {
                self.advance();
            },
            Stage::Retire => {
                self.stage = Stage::Done;
            },
            Stage::Done => {},
        }
    }

    fn advance(&mut self)
        requires
            old(self).wf(),
            old(self)@.stage == Stage::Convert || old(self)@.stage == Stage::Transcribe,
        ensures
            final(self).wf(),
            final(self)@ == advanced(old(self)@),
    {
        assert(self@.files.len() == self.files@.len());
        assert(self.cursor < self.files.len());
        if self.cursor + 1 < self.files.len() {
            self.cursor = self.cursor + 1;
            self.stage = Stage::Convert;
        } else {
            self.cursor = self.files.len();
            self.stage = Stage::Retire;
        }
    }

    /// Whether the cycle is over.
    pub fn is_finished(&self) -> (finished: bool)
        ensures
            finished == (self@.stage == Stage::Done),
    {
        match self.stage {
            Stage::Done => true,
            _ => false,
        }
    }
}

/// The batch after a sequence of reports.
pub open spec fn batch_run(b: BatchView, reports: Seq<bool>) -> BatchView
    decreases reports.len(),
{
    if reports.len() == 0 {
        b
    } else {
        reported(batch_run(b, reports.drop_last()), reports.last())
    }
}

/// The segments whose conversion was asked for, in that order, over a
/// sequence of reports.
pub open spec fn attempts(b: BatchView, reports: Seq<bool>) -> Seq<Seq<char>>
    decreases reports.len(),
{
    if reports.len() == 0 {
        Seq::empty()
    } else {
        let before = batch_run(b, reports.drop_last());
        if before.stage == Stage::Convert {
            attempts(b, reports.drop_last()).push(before.files[before.cursor as int])
        } else {
            attempts(b, reports.drop_last())
        }
    }
}

/// The number of segments whose conversion a batch has asked for and had
/// reported.
pub open spec fn attempted(b: BatchView) -> nat {
    match b.stage {
        Stage::Convert => b.cursor,
        Stage::Transcribe => b.cursor + 1,
        Stage::Retire | Stage::Done => b.files.len(),
    }
}

/// The number of reports after which a batch is over at the latest.
pub open spec fn steps_left(b: BatchView) -> nat {
    match b.stage {
        Stage::Convert => (2 * (b.files.len() - b.cursor) + 1) as nat,
        Stage::Transcribe => (2 * (b.files.len() - b.cursor)) as nat,
        Stage::Retire => 1,
        Stage::Done => 0,
    }
}

/// Every report keeps the invariant and the snapshot, and brings a batch
/// that is not over closer to its end.
pub proof fn lemma_report_makes_progress(b: BatchView, succeeded: bool)
    requires
        batch_wf(b),
    ensures
        batch_wf(reported(b, succeeded)),
        reported(b, succeeded).files == b.files,
        b.stage != Stage::Done ==> steps_left(reported(b, succeeded)) < steps_left(b),
        b.stage == Stage::Done ==> reported(b, succeeded) == b,
{
}

/// A failed step never ends the cycle early. A failed transcription is
/// followed by what would have followed a successful one, and a failed
/// conversion by the next segment or, after the last, by the retirement of
/// the whole snapshot.
pub proof fn lemma_failure_is_not_fatal(b: BatchView)
    requires
        batch_wf(b),
    ensures
        b.stage == Stage::Transcribe ==> reported(b, false) == reported(b, true),
        b.stage == Stage::Convert ==> reported(b, false) == advanced(b),
        b.stage == Stage::Convert || b.stage == Stage::Transcribe ==> reported(b, false).stage
            != Stage::Done,
        advanced(b).stage == Stage::Retire ==> step_of(advanced(b)) == (Step::Retire {
            count: b.files.len(),
        }),
{
}

/// Whatever is reported, a cycle over a snapshot asks for the conversion of
/// the snapshot's segments one after the other, each once, and when it
/// asks to retire, then as many segments as the snapshot held. After twice
/// as many reports as the snapshot has segments it has come that far.
pub proof fn lemma_cycle_attempts_snapshot(files: Seq<Seq<char>>, reports: Seq<bool>)
    ensures
        batch_wf(batch_run(started(files), reports)),
        batch_run(started(files), reports).files == files,
        attempts(started(files), reports) == files.take(
            if batch_run(started(files), reports).stage == Stage::Convert {
                batch_run(started(files), reports).cursor as int
            } else {
                attempted(batch_run(started(files), reports)) as int
            },
        ),
        steps_left(batch_run(started(files), reports)) + reports.len() <= 2 * files.len() + 1
            || batch_run(started(files), reports).stage == Stage::Done,
        batch_run(started(files), reports).stage == Stage::Retire ==> step_of(
            batch_run(started(files), reports),
        ) == (Step::Retire { count: files.len() }) && attempts(started(files), reports) == files,
        batch_run(started(files), reports).stage == Stage::Done ==> attempts(
            started(files),
            reports,
        ) == files,
    decreases reports.len(),
{
    let start = started(files);
    if reports.len() == 0 {
        assert(attempts(start, reports) =~= files.take(0));
        if files.len() == 0 {
            assert(files.take(0) =~= files);
        }
    } else {
        let head = reports.drop_last();
        lemma_cycle_attempts_snapshot(files, head);
        let before = batch_run(start, head);
        let after = batch_run(start, reports);
        lemma_report_makes_progress(before, reports.last());
        if before.stage == Stage::Convert {
            let i = before.cursor as int;
            assert(files.take(i).push(files[i]) =~= files.take(i + 1));
        }
        if after.cursor == files.len() {
            assert(files.take(files.len() as int) =~= files);
        }
    }
}

} // verus!
