//! Verified core of an MPEG audio decoding front end built around libmad.

pub mod callbacks;
pub mod error;
pub mod flow;
pub mod frame;
pub mod input;
pub mod receive;

pub use callbacks::{error_event, input_read, input_wanted, output_event, InputStep};
pub use error::MadError;
pub use flow::MadFlow;
pub use frame::{Frame, MAX_CHANNELS, MAX_FRAME_SAMPLES};
pub use input::{FillOutcome, InputBuffer, RefillPlan, INPUT_BUFFER_SIZE};
pub use receive::{frame_from_received, next_item, Error};
