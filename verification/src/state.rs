//! The state that the poller and the postprocessing worker share, and the
//! transitions of the segment controller on it.
//!
//! The controller is in one of three phases. It is idle until the signal
//! reads active; it records until the signal has read inactive for the
//! debounce duration, counted from the first inactive reading; any active
//! reading in between cancels the pending stop. Starting and stopping a
//! capture session is work that the caller does: `poll` says when, and the
//! caller confirms with `begin_recording` once the capture device is held,
//! and with `seal` once the capture loop has exited and flushed its file.

use vstd::prelude::*;
use crate::queue::{without_prefix, PendingQueue};
use crate::signal::spec_is_active;

verus! {

/// The three phases of the segment controller.
#[derive(Clone, Copy, Debug, PartialEq, Eq, Structural)]
pub enum Phase {
    /// No capture session is alive.
    Idle,
    /// A capture session is alive and no stop is pending.
    Recording,
    /// A capture session is alive and the signal has read inactive since the
    /// time the stop timer holds.
    StopPending,
}

/// What a reading asks of the caller, or what it did to the stop timer.
#[derive(Clone, Copy, Debug, PartialEq, Eq, Structural)]
pub enum Action {
    /// Nothing changed and nothing is to be done.
    Nothing,
    /// The signal is active and nothing is recording: a capture session is
    /// to be started and confirmed with `begin_recording`.
    StartCapture,
    /// The first inactive reading while recording: the stop timer was set.
    DebounceArmed,
    /// An active reading while a stop was pending: the stop timer was
    /// cleared.
    DebounceCancelled,
    /// The signal has been inactive for the debounce duration: the capture
    /// session is to be stopped and, once it has exited, confirmed with
    /// `seal`. Until then every further inactive reading asks again.
    StopCapture,
}

/// Why a recording was not begun.
#[derive(Clone, Copy, Debug, PartialEq, Eq, Structural)]
pub enum StartError {
    /// A capture session is alive already.
    AlreadyRecording,
    /// The name is that of a segment that still awaits postprocessing.
    DuplicateName,
}

/// The shared state as a mathematical value.
pub struct StateView {
    /// Whether a capture session is alive.
    pub recording: bool,
    /// The name of the segment being recorded.
    pub current: Option<Seq<char>>,
    /// The time of the first inactive reading since the signal was last
    /// active, while recording.
    pub stop_timer: Option<u64>,
    /// The sealed segments that await postprocessing, in the order in which
    /// they were sealed.
    pub pending: Seq<Seq<char>>,
    /// The silence, in milliseconds, after which a recording stops.
    pub debounce: u64,
    /// The directory of the transcription model.
    pub modeldir: Seq<char>,
    /// The directory of the recordings.
    pub datadir: Seq<char>,
    /// The language code handed to the transcription tool.
    pub language: Seq<char>,
}

/// The invariant of the shared state: a segment name is held exactly while a
/// session is alive, a stop can only be pending while one is, no name is
/// pending twice, and the segment being recorded is not pending.
pub open spec fn state_wf(v: StateView) -> bool {
    &&& v.recording <==> v.current is Some
    &&& v.stop_timer is Some ==> v.recording
    &&& v.pending.no_duplicates()
    &&& v.current is Some ==> !v.pending.contains(v.current->0)
}

/// The phase that a state is in.
pub open spec fn phase_of(v: StateView) -> Phase {
    if !v.recording {
        Phase::Idle
    } else if v.stop_timer is Some {
        Phase::StopPending
    } else {
        Phase::Recording
    }
}

/// The time that has passed at `now` since `since`, in the clock's unit. A
/// clock that reads earlier than `since` counts as no time passed.
pub open spec fn elapsed(now: u64, since: u64) -> int {
    if now >= since {
        now - since
    } else {
        0
    }
}

/// What a reading of `status` at time `now` asks for in state `v`.
pub open spec fn poll_action(v: StateView, status: u8, now: u64) -> Action {
    if spec_is_active(status) {
        if !v.recording {
            Action::StartCapture
        } else if v.stop_timer is Some {
            Action::DebounceCancelled
        } else {
            Action::Nothing
        }
    } else {
        if !v.recording {
            Action::Nothing
        } else if v.stop_timer is None {
            Action::DebounceArmed
        } else if elapsed(now, v.stop_timer->0) >= v.debounce {
            Action::StopCapture
        } else {
            Action::Nothing
        }
    }
}

/// The state after a reading of `status` at time `now` in state `v`: only
/// the stop timer can change.
pub open spec fn poll_state(v: StateView, status: u8, now: u64) -> StateView {
    match poll_action(v, status, now) {
        Action::DebounceArmed => StateView { stop_timer: Some(now), ..v },
        Action::DebounceCancelled => StateView { stop_timer: None, ..v },
        _ => v,
    }
}

/// The error that beginning a recording under `name` meets in state `v`, if
/// any.
pub open spec fn begin_error(v: StateView, name: Seq<char>) -> Option<StartError> {
    if v.recording {
        Some(StartError::AlreadyRecording)
    } else if v.pending.contains(name) {
        Some(StartError::DuplicateName)
    } else {
        None
    }
}

/// The state once a recording under `name` has begun; a state in which it
/// cannot begin is left as it is.
pub open spec fn begun(v: StateView, name: Seq<char>) -> StateView {
    if begin_error(v, name) is None {
        StateView { recording: true, current: Some(name), stop_timer: None, ..v }
    } else {
        v
    }
}

/// The state once the session that is alive has been sealed: its name is
/// the newest pending segment and the controller is idle. An idle state is
/// left as it is.
pub open spec fn sealed(v: StateView) -> StateView {
    if v.recording && v.current is Some {
        StateView {
            recording: false,
            current: None,
            stop_timer: None,
            pending: v.pending.push(v.current->0),
            ..v
        }
    } else {
        v
    }
}

/// The state once the worker has retired the first `count` pending
/// segments.
pub open spec fn retired(v: StateView, count: nat) -> StateView {
    StateView { pending: without_prefix(v.pending, count), ..v }
}

/// The view of an optional name.
pub open spec fn name_view(name: Option<String>) -> Option<Seq<char>> {
    match name {
        Some(s) => Some(s@),
        None => None,
    }
}

/// The state shared by the poller and the postprocessing worker.
#[derive(Debug)]
pub struct SystemState {
    is_recording: bool,
    current_filename: Option<String>,
    unprocessed_files: PendingQueue,
    stop_timer_start: Option<u64>,
    debounce_ms: u64,
    /// The directory of the transcription model.
    pub modeldir: String,
    /// The directory of the recordings.
    pub datadir: String,
    /// The language code handed to the transcription tool.
    pub language: String,
}

impl View for SystemState {
    type V = StateView;

    closed spec fn view(&self) -> StateView {
        StateView {
            recording: self.is_recording,
            current: name_view(self.current_filename),
            stop_timer: self.stop_timer_start,
            pending: self.unprocessed_files@,
            debounce: self.debounce_ms,
            modeldir: self.modeldir@,
            datadir: self.datadir@,
            language: self.language@,
        }
    }
}

impl SystemState {
    /// The invariant that every state made by `new` has and every method
    /// keeps.
    pub open spec fn wf(&self) -> bool {
        state_wf(self@)
    }

    /// The initial state: idle, with nothing pending.
    pub fn new(modeldir: String, datadir: String, language: String, debounce_ms: u64) -> (state:
        SystemState)
        ensures
            state.wf(),
            state@ == (StateView {
                recording: false,
                current: None,
                stop_timer: None,
                pending: Seq::empty(),
                debounce: debounce_ms,
                modeldir: modeldir@,
                datadir: datadir@,
                language: language@,
            }),
    {
        SystemState {
            is_recording: false,
            current_filename: None,
            unprocessed_files: PendingQueue::new(),
            stop_timer_start: None,
            debounce_ms,
            modeldir,
            datadir,
            language,
        }
    }

    /// Takes one reading of the signal at time `now`, in milliseconds of a
    /// monotonic clock. The stop timer is set by the first inactive reading
    /// while recording and cleared by any active one; no other part of the
    /// state changes. The result says what the caller is to do.
    pub fn poll(&mut self, status: u8, now: u64) -> (action: Action)
        requires
            old(self).wf(),
        ensures
            final(self).wf(),
            action == poll_action(old(self)@, status, now),
            final(self)@ == poll_state(old(self)@, status, now),
    {
        if status != 0 {
            if !self.is_recording {
                Action::StartCapture
            } else if self.stop_timer_start.is_some() {
                self.stop_timer_start = None;
                Action::DebounceCancelled
            } else {
                Action::Nothing
            }
        } else {
            if !self.is_recording {
                Action::Nothing
            } else {
                match self.stop_timer_start {
                    None => {
                        self.stop_timer_start = Some(now);
                        Action::DebounceArmed
                    },
                    Some(since) => {
                        let passed: u64 = if now >= since {
                            now - since
                        } else {
                            0
                        };
                        if passed >= self.debounce_ms {
                            Action::StopCapture
                        } else {
                            Action::Nothing
                        }
                    },
                }
            }
        }
    }

    /// Records that a capture session writing to `name` is alive. It is
    /// refused, and nothing changes, while another session is alive or while
    /// a segment of that name is pending.
    pub fn begin_recording(&mut self, name: String) -> (outcome: Result<(), StartError>)
        requires
            old(self).wf(),
        ensures
            final(self).wf(),
            final(self)@ == begun(old(self)@, name@),
            match outcome {
                Ok(_) => begin_error(old(self)@, name@) is None,
                Err(e) => begin_error(old(self)@, name@) == Some(e),
            },
    {
        if self.is_recording {
            return Err(StartError::AlreadyRecording);
        }
        if self.unprocessed_files.contains(name.as_str()) {
            return Err(StartError::DuplicateName);
        }
        self.is_recording = true;
        self.stop_timer_start = None;
        self.current_filename = Some(name);
        Ok(())
    }

    /// Seals the segment being recorded, to be called once its capture loop
    /// has exited: the name moves to the tail of the pending queue and the
    /// controller is idle. Returns the name, or `None` if nothing was
    /// recording.
    pub fn seal(&mut self) -> (name: Option<String>)
        requires
            old(self).wf(),
        ensures
            final(self).wf(),
            final(self)@ == sealed(old(self)@),
            name_view(name) == old(self)@.current,
    {
        let ghost before = self@;
        match self.current_filename.take() {
            None => None,
            Some(name) => {
                let copy = name.clone();
                self.is_recording = false;
                self.stop_timer_start = None;
                let appended = self.unprocessed_files.append(name);
                proof {
                    assert(appended);
                    let after = self@;
                    assert forall|i: int, j: int|
                        0 <= i < after.pending.len() && 0 <= j < after.pending.len() && i
                            != j implies after.pending[i] != after.pending[j] by {
                        if i < before.pending.len() && j < before.pending.len() {
                            assert(before.pending[i] != before.pending[j]);
                        } else if i < before.pending.len() {
                            assert(before.pending.contains(before.pending[i]));
                        } else {
                            assert(before.pending.contains(before.pending[j]));
                        }
                    }
                }
                Some(copy)
            },
        }
    }

    /// Removes the first `count` pending segments, or all of them if there
    /// are fewer, and returns how many were removed. Segments sealed since
    /// the worker took its snapshot stand behind those and stay.
    pub fn retire(&mut self, count: usize) -> (removed: usize)
        requires
            old(self).wf(),
        ensures
            final(self).wf(),
            final(self)@ == retired(old(self)@, count as nat),
            removed == if count <= old(self)@.pending.len() {
                count as int
            } else {
                old(self)@.pending.len() as int
            },
    {
        let ghost before = self@;
        let removed = self.unprocessed_files.remove_prefix(count);
        proof {
            let after = self@;
            if after.current is Some && after.pending.contains(after.current->0) {
                let i = choose|i: int|
                    0 <= i < after.pending.len() && after.pending[i] == after.current->0;
                assert(before.pending[i + removed] == after.current->0);
            }
        }
        removed
    }

    /// The names of the pending segments as they stand, oldest first.
    pub fn snapshot(&self) -> (names: Vec<String>)
        ensures
            crate::queue::names_of(names@) == self@.pending,
    {
        self.unprocessed_files.snapshot()
    }

    /// Whether a capture session is alive.
    pub fn is_recording(&self) -> (recording: bool)
        ensures
            recording == self@.recording,
    {
        self.is_recording
    }

    /// The name of the segment being recorded.
    pub fn current_filename(&self) -> (name: Option<String>)
        ensures
            name_view(name) == self@.current,
    {
        match &self.current_filename {
            Some(name) => Some(name.clone()),
            None => None,
        }
    }

    /// The time of the first inactive reading of the pending stop.
    pub fn stop_timer_start(&self) -> (since: Option<u64>)
        ensures
            since == self@.stop_timer,
    {
        self.stop_timer_start
    }

    /// The phase that the controller is in.
    pub fn phase(&self) -> (phase: Phase)
        ensures
            phase == phase_of(self@),
    {
        if !self.is_recording {
            Phase::Idle
        } else if self.stop_timer_start.is_some() {
            Phase::StopPending
        } else {
            Phase::Recording
        }
    }
}

} // verus!
