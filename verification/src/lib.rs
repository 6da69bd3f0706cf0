//! Turns a live audio signal into intensity commands for a haptic device.
//!
//! The audio side fills a [`window::Window`] with samples and, once a window
//! is transformed, reduces its spectrum to one [`intensity::Intensity`]. The
//! control side feeds a [`session::Session`] with what the remote server and
//! the pacing timer report, and is told what to send.

pub mod channel;
pub mod event_loop;
pub mod intensity;
pub mod rounding;
pub mod session;
pub mod spectrum;
pub mod window;
