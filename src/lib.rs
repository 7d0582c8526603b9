//! Command ingestion, execution outcomes and axis signaling for a
//! motion-control firmware core.

pub mod stepper_channel;
pub mod motion;
pub mod gcode;
pub mod line;
pub mod parser;
pub mod channel;
pub mod outcome;
pub mod deferred;
pub mod multiplexer;
