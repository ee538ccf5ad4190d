//! Pixel-grid-snapped 2D rendering: the policy that scales a fixed-size
//! low-resolution canvas onto the window by whole factors, the two-pass
//! camera composition, and the static scene laid out on the canvas.

pub mod compose;
pub mod fit;
pub mod scene;
pub mod text;
