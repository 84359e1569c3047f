//! Timing core of a screen-break reminder: a colour cycle, a frame filler and
//! the state machine that decides when the overlay is shown and hidden.

pub mod palette;
pub mod timing;
pub mod scheduler;
pub mod render;
pub mod laws;
