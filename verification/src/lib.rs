//! A two-dimensional camera for a windowed rendering surface, computed in
//! exact rational arithmetic, and the small editor state that sits beside it.

pub mod number_theory;
pub mod ratio;
pub mod transform;
pub mod projection;
pub mod camera2d;
pub mod theorems;
pub mod buffer;
pub mod editor;
