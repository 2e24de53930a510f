//! Core value types for a raymarching renderer: the packed color codec,
//! the render-target selector with its stable numeric and string encodings,
//! and the raymarch step-budget settings.
//!
//! The floating-point camera transform and the configuration aggregate that
//! embeds it live outside this crate; everything here is exact integer and
//! string logic, verified.

pub mod color;
pub mod settings;
pub mod target;
