//! Verified core of a driver for the Raspberry Pi Sense HAT: the pixel
//! addressing and colour packing of its 8×8 LED matrix, and the cursor state
//! machine behind its five-button joystick.
//!
//! Nothing here touches a device. The LED side computes the positioned writes
//! that a frame buffer device has to receive; the joystick side turns raw key
//! events into cursor moves and confirmations. A caller that owns the device
//! handles performs the writes and feeds in the events.

pub mod grid;
pub mod input;
pub mod joystick;
pub mod led;

pub use input::{Direction, Key, RawEvent};
pub use joystick::{Joystick, JoystickEvent, MovementMode};
pub use led::{Frame, FrameWrite, LedError};
