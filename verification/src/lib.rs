//! Core of a terminal status line: a run timer with pause/resume accounting,
//! an immutable per-frame snapshot of everything the renderer needs, the
//! orchestrating state machine that folds asynchronous events into that
//! snapshot and decides when a repaint is due, and the registry of enabled
//! server integrations that backs the persisted enable/disable file.
//!
//! All time is carried as milliseconds on a monotonic clock; the host reads
//! the clock and passes instants in. Redraw requests are recorded as values
//! for the host's frame scheduler to drain and coalesce.

pub mod registry;
pub mod snapshot;
pub mod state;
pub mod timer;
pub mod tokens;
