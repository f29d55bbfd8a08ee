//! Generative line art for a two-dimensional drawing surface.
//!
//! A composition is a soft background and a scatter of lines, arcs and dots.
//! Nothing here touches a surface: drawing yields the sequence of canvas
//! calls that paints the composition, and the caller replays it.
//!
//! Lengths that need not be whole pixels are kept in thousandths of a pixel,
//! directions in millionths of a radian, and shares in hundredths or in
//! thousandths, so that every quantity is a whole number.

pub mod canvas;
pub mod chance;
pub mod composer;
pub mod laws;
pub mod shapes;

pub use canvas::{CanvasCall, Offset};
pub use composer::{App, ConstructionError, Kind};
pub use shapes::{ArcShape, DotShape, LineShape};
