//! A Pomodoro timer core: a task-preset model, a timer state machine that
//! counts a work phase down and (in the break-capable variant) chains into a
//! break phase, and pure rendering of the countdown as a clock string.

pub mod app;
pub mod model;
pub mod render;
