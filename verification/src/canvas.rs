//! The drawing surface, seen as the calls one can make on it.

use vstd::prelude::*;

verus! {

/// Thousandths of a pixel in one pixel: the unit in which an [`Offset`]
/// measures length.
pub const PIXEL: u64 = 1000;

/// Millionths of a radian in one radian: the unit in which an [`Offset`]
/// measures direction.
pub const RADIAN: u64 = 1_000_000;

/// An angle of this many millionths of a radian is the first to pass a full
/// turn: the angles `0..FULL_TURN` are those in `[0, 2π)`.
pub const FULL_TURN: u64 = 6_283_186;

/// A vector from the origin in polar form. Whoever paints it lands on
/// `x = radius · cos(angle)`, `y = radius · sin(angle)`.
#[derive(Clone, Copy, Debug, PartialEq, Eq, Structural)]
pub struct Offset {
    /// Direction, in millionths of a radian.
    pub angle: u32,
    /// Length, in thousandths of a pixel.
    pub radius: u64,
}

/// One call on the drawing surface. Coordinates and radii are whole pixels,
/// the angles of arcs and ellipses are numbers that the surface receives
/// unchanged, and colors are CSS color strings.
#[derive(Debug, PartialEq, Eq)]
pub enum CanvasCall {
    /// Start a linear gradient that runs from `(x0, y0)` to `(x1, y1)`.
    CreateLinearGradient { x0: u32, y0: u32, x1: u32, y1: u32 },
    /// Add a stop to the gradient, `percent` hundredths of the way along it.
    AddColorStop { percent: u32, color: String },
    /// Make the gradient the fill style.
    FillWithGradient,
    /// Fill a rectangle with the fill style.
    FillRect { x: u32, y: u32, width: u32, height: u32 },
    /// Forget the current path and start a new one.
    BeginPath,
    /// Move the pen without drawing.
    MoveTo { to: Offset },
    /// Add a straight segment from the pen to `to`.
    LineTo { to: Offset },
    /// Add a circular arc around `(x, y)`.
    Arc { x: u32, y: u32, radius: u32, start: u32, end: u32 },
    /// Add an elliptical arc around `(x, y)`.
    Ellipse { x: u32, y: u32, radius_x: u32, radius_y: u32, rotation: u32, start: u32, end: u32 },
    /// Set the width of strokes, in pixels.
    SetLineWidth { width: u32 },
    /// Set the color of strokes.
    SetStrokeStyle { color: String },
    /// Set the color of fills.
    SetFillStyle { color: String },
    /// Set the opacity of what is painted next, in hundredths.
    SetGlobalAlpha { percent: u32 },
    /// Fill the current path.
    Fill,
    /// Stroke the current path.
    Stroke,
}

/// What a [`CanvasCall`] says, variant by variant, with each color as the
/// characters it holds.
pub enum Call {
    CreateLinearGradient { x0: u32, y0: u32, x1: u32, y1: u32 },
    AddColorStop { percent: u32, color: Seq<char> },
    FillWithGradient,
    FillRect { x: u32, y: u32, width: u32, height: u32 },
    BeginPath,
    MoveTo { to: Offset },
    LineTo { to: Offset },
    Arc { x: u32, y: u32, radius: u32, start: u32, end: u32 },
    Ellipse { x: u32, y: u32, radius_x: u32, radius_y: u32, rotation: u32, start: u32, end: u32 },
    SetLineWidth { width: u32 },
    SetStrokeStyle { color: Seq<char> },
    SetFillStyle { color: Seq<char> },
    SetGlobalAlpha { percent: u32 },
    Fill,
    Stroke,
}

impl DeepView for CanvasCall {
    type V = Call;

    open spec fn deep_view(&self) -> Call {
        match *self {
            CanvasCall::CreateLinearGradient { x0, y0, x1, y1 } => Call::CreateLinearGradient {
                x0,
                y0,
                x1,
                y1,
            },
            CanvasCall::AddColorStop { percent, color } => Call::AddColorStop {
                percent,
                color: color@,
            },
            CanvasCall::FillWithGradient => Call::FillWithGradient,
            CanvasCall::FillRect { x, y, width, height } => Call::FillRect { x, y, width, height },
            CanvasCall::BeginPath => Call::BeginPath,
            CanvasCall::MoveTo { to } => Call::MoveTo { to },
            CanvasCall::LineTo { to } => Call::LineTo { to },
            CanvasCall::Arc { x, y, radius, start, end } => Call::Arc { x, y, radius, start, end },
            CanvasCall::Ellipse { x, y, radius_x, radius_y, rotation, start, end } => Call::Ellipse {
                x,
                y,
                radius_x,
                radius_y,
                rotation,
                start,
                end,
            },
            CanvasCall::SetLineWidth { width } => Call::SetLineWidth { width },
            CanvasCall::SetStrokeStyle { color } => Call::SetStrokeStyle { color: color@ },
            CanvasCall::SetFillStyle { color } => Call::SetFillStyle { color: color@ },
            CanvasCall::SetGlobalAlpha { percent } => Call::SetGlobalAlpha { percent },
            CanvasCall::Fill => Call::Fill,
            CanvasCall::Stroke => Call::Stroke,
        }
    }
}

impl Clone for CanvasCall {
    fn clone(&self) -> (copy: Self)
        ensures
            copy.deep_view() == self.deep_view(),
    {
        match self {
            CanvasCall::CreateLinearGradient { x0, y0, x1, y1 } => CanvasCall::CreateLinearGradient {
                x0: *x0,
                y0: *y0,
                x1: *x1,
                y1: *y1,
            },
            CanvasCall::AddColorStop { percent, color } => CanvasCall::AddColorStop {
                percent: *percent,
                color: color.clone(),
            },
            CanvasCall::FillWithGradient => CanvasCall::FillWithGradient,
            CanvasCall::FillRect { x, y, width, height } => CanvasCall::FillRect {
                x: *x,
                y: *y,
                width: *width,
                height: *height,
            },
            CanvasCall::BeginPath => CanvasCall::BeginPath,
            CanvasCall::MoveTo { to } => CanvasCall::MoveTo { to: *to },
            CanvasCall::LineTo { to } => CanvasCall::LineTo { to: *to },
            CanvasCall::Arc { x, y, radius, start, end } => CanvasCall::Arc {
                x: *x,
                y: *y,
                radius: *radius,
                start: *start,
                end: *end,
            },
            CanvasCall::Ellipse {
                x,
                y,
                radius_x,
                radius_y,
                rotation,
                start,
                end,
            } => CanvasCall::Ellipse {
                x: *x,
                y: *y,
                radius_x: *radius_x,
                radius_y: *radius_y,
                rotation: *rotation,
                start: *start,
                end: *end,
            },
            CanvasCall::SetLineWidth { width } => CanvasCall::SetLineWidth { width: *width },
            CanvasCall::SetStrokeStyle { color } => CanvasCall::SetStrokeStyle {
                color: color.clone(),
            },
            CanvasCall::SetFillStyle { color } => CanvasCall::SetFillStyle { color: color.clone() },
            CanvasCall::SetGlobalAlpha { percent } => CanvasCall::SetGlobalAlpha {
                percent: *percent,
            },
            CanvasCall::Fill => CanvasCall::Fill,
            CanvasCall::Stroke => CanvasCall::Stroke,
        }
    }
}

/// Puts `next` behind `calls`.
pub(crate) fn extend(calls: &mut Vec<CanvasCall>, next: Vec<CanvasCall>)
    ensures
        final(calls).deep_view() == old(calls).deep_view() + next.deep_view(),
{
    let mut rest = next;
    calls.append(&mut rest);
}

} // verus!
