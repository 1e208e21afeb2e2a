//! Input handling, draw gating and reference-grid layout for a small 3D
//! overlay drawn on a 2D immediate-mode canvas.
pub mod gate;
pub mod grid;
pub mod input;
