//! A drifting-logo screensaver engine: sprites that move outward from the
//! centre of the viewport, grow with their distance from it, and respawn when
//! they leave the visible area, advanced by a clock that caps the tick rate.
//!
//! Positions and sizes are held in thousandths of a pixel, speeds in
//! thousandths per second and time in milliseconds, so that every step of the
//! motion law is exact integer arithmetic.

pub mod color;
pub mod laws;
pub mod scheduler;
pub mod simulation;
pub mod sprite;

pub use color::{color_at, Color, PALETTE_SIZE};
pub use scheduler::{tick_delta, FrameClock, TIME_SLICE};
pub use simulation::ScreenSaver;
pub use sprite::{Coords2d, Dimensions, LogoSize, RandomDraw, WindowsLogo, SUBPIXELS};
