//! Voice-activity-triggered audio segmentation for a USB microphone array.
//!
//! The library holds what can be decided without touching a device, a file
//! or a process: the segment controller's state machine with its debounce
//! (`state`), the queue of sealed segments (`queue`), the postprocessing
//! worker's cycle (`worker`), the container format that raw captures are
//! converted into (`wav`), the capture loop's decisions and sample encoding
//! (`capture`), file naming (`names`), the transcription tool's command
//! line (`transcribe`) and the device's control transfers (`signal`,
//! `usbctrl`). What holds of the shared state over time is proved in
//! `timeline`.

pub mod capture;
pub mod names;
pub mod queue;
pub mod signal;
pub mod state;
pub mod timeline;
pub mod transcribe;
pub mod usbctrl;
pub mod wav;
pub mod worker;
