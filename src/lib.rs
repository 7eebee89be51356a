//! Capturing an off-screen render target into an RGBA image.
//!
//! The library computes the row layout that a texture-to-buffer copy needs,
//! drives one capture as a sequence of device actions, strips the per-row
//! padding from the mapped readback memory and encodes the dense pixels.
//! The device work itself (allocation, submission, mapping, polling) is done
//! by the caller, who performs each action and reports back how it went.

pub mod encode;
pub mod error;
pub mod layout;
pub mod session;
pub mod unpad;

pub use error::{CaptureError, Resource};
pub use layout::BufferDimensions;
pub use encode::encode_capture;
pub use session::{Action, CaptureSession, Event, Phase, SessionState};
pub use unpad::unpad_rows;
