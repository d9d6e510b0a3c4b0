//! What runs on the timer.

pub mod check;
