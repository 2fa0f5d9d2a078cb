//! Colour-guided pointer control.
//!
//! A fixed screen region is captured into a single shared slot, scanned for
//! pixels inside a hue/saturation/value range, and the centroid of the match
//! is turned into relative motion and click frames for a serial pointer
//! device. This crate holds the rules of that pipeline as plain state
//! machines: every function here is free of I/O and proved against its
//! contract. The caller owns the screen, the clock, the threads and the
//! serial handle, and reports what happened to them.

pub mod capture;
pub mod color;
pub mod colorant;
pub mod filter;
pub mod frame;
pub mod locator;
pub mod mouse;

pub use capture::{Capture, CaptureConfig, CaptureError, CaptureStep, FramePoll, FrameSlot};
pub use color::{rgb_to_hsv_opencv, ColorRange};
pub use colorant::{Action, ColorantEngine, Config, MouseCommand};
pub use filter::{SmoothingFilter, UNITS_PER_COUNT};
pub use frame::{bgr_to_rgb, Frame, FrameView, MAX_DIMENSION};
pub use locator::locate;
pub use mouse::{
    find_arduino_port, ArduinoMouse, LinkAction, LinkError, LinkState, MouseConfig,
};
