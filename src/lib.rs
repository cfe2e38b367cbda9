//! Brightness control for displays reached over their control channel.
//!
//! The library holds the decisions: what a requested change makes of the
//! current value, what each step of a display's read/write cycle does next,
//! which displays a run visits, and whether the run as a whole succeeded.
//! Talking to the hardware is left to the caller, who performs each command
//! and hands back what the display answered.
pub mod batch;
pub mod brightness;
pub mod cycle;
pub mod listing;
pub mod options;

pub use batch::{resolve_targets, run_succeeded, target_of, BatchError, Target};
pub use brightness::{Action, BrightnessChange, MAX_PERCENT};
pub use cycle::{decide, Command, Cycle, Event, Outcome};
pub use options::{Args, InputError, Opt};
