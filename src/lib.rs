//! Driver logic for a monochrome e-paper panel: the bit-packed frame, the
//! controller's command protocol and refresh state machine, and the
//! arbitration of one serial bus between several devices.
//!
//! The driver never touches hardware itself. Each operation yields the exact
//! sequence of bus steps to perform, and a second call turns the outcome of
//! performing them into the operation's result and the controller's new state.
pub mod panel;
pub mod command;
pub mod frame;
pub mod error;
pub mod protocol;
pub mod controller;
pub mod wait;
pub mod input;
pub mod bus;
pub mod power;
