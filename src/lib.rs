//! Core of a fantasy-console runtime: input edge detection, the input
//! snapshot handed to a cartridge, the draw commands a cartridge may issue,
//! the fixed-rate tick scheduler and the layout rules of the compositor.

pub mod input;
pub mod snapshot;
pub mod glyph;
pub mod quad;
pub mod host;
pub mod scheduler;
pub mod compositor;
pub mod session;

pub use input::{Button, Buttons, ElementState, InputState, MouseButtons, PointerButton, UserInput};
