//! The three primitives, and the canvas calls that paint each of them.

use crate::canvas::{Call, CanvasCall, Offset};
use vstd::prelude::*;

verus! {

/// The color of every stroke.
pub open spec fn black() -> Seq<char> {
    "black"@
}

/// The calls that stroke the current path in black, `width` pixels wide.
pub open spec fn stroked(width: u32) -> Seq<Call> {
    seq![
        Call::SetLineWidth { width },
        Call::SetStrokeStyle { color: black() },
        Call::Stroke,
    ]
}

/// The calls that fill the current path with `color`, at an opacity of
/// `percent` hundredths.
pub open spec fn filled(percent: u32, color: Seq<char>) -> Seq<Call> {
    seq![Call::SetGlobalAlpha { percent }, Call::SetFillStyle { color }, Call::Fill]
}

fn stroke(calls: &mut Vec<CanvasCall>, width: u32)
    ensures
        final(calls).deep_view() == old(calls).deep_view() + stroked(width),
{
    calls.push(CanvasCall::SetLineWidth { width });
    calls.push(CanvasCall::SetStrokeStyle { color: "black".to_owned() });
    calls.push(CanvasCall::Stroke);
}

fn fill(calls: &mut Vec<CanvasCall>, percent: u32, color: &String)
    ensures
        final(calls).deep_view() == old(calls).deep_view() + filled(percent, color@),
{
    calls.push(CanvasCall::SetGlobalAlpha { percent });
    calls.push(CanvasCall::SetFillStyle { color: color.clone() });
    calls.push(CanvasCall::Fill);
}

/// A straight stroke between two offsets.
#[derive(Clone, Copy, Debug, PartialEq, Eq, Structural)]
pub struct LineShape {
    /// Where the stroke starts.
    pub from: Offset,
    /// Where the stroke ends.
    pub to: Offset,
    /// The width of the stroke, in pixels.
    pub weight: u32,
}

impl LineShape {
    /// A line is a path of one segment, stroked in black at its own weight
    /// and never filled.
    pub open spec fn painted(self) -> Seq<Call> {
        seq![Call::BeginPath, Call::MoveTo { to: self.from }, Call::LineTo { to: self.to }]
            + stroked(self.weight)
    }

    /// The calls that paint this line.
    pub fn calls(&self) -> (calls: Vec<CanvasCall>)
        ensures
            calls.deep_view() == self.painted(),
    {
        let mut calls: Vec<CanvasCall> = Vec::new();
        calls.push(CanvasCall::BeginPath);
        calls.push(CanvasCall::MoveTo { to: self.from });
        calls.push(CanvasCall::LineTo { to: self.to });
        stroke(&mut calls, self.weight);
        calls
    }
}

/// A circular arc with its style: filled, stroked, both or neither.
#[derive(Clone, Copy, Debug, PartialEq, Eq, Structural)]
pub struct ArcShape {
    /// The center, in pixels from the left.
    pub x: u32,
    /// The center, in pixels from the top.
    pub y: u32,
    /// The radius, in pixels.
    pub radius: u32,
    /// Where the arc starts: a number below 360 that the canvas receives
    /// unchanged, in its own unit of angle.
    pub start: u32,
    /// Where the arc ends: a number below 360 that the canvas receives
    /// unchanged, in its own unit of angle.
    pub end: u32,
    /// Whether the arc is filled with a color.
    pub with_fill: bool,
    /// Whether the arc is stroked.
    pub with_stroke: bool,
    /// Whether a fill is half transparent.
    pub with_alpha: bool,
}

impl ArcShape {
    /// The opacity of a fill, in hundredths.
    pub open spec fn alpha(self) -> u32 {
        if self.with_alpha {
            50
        } else {
            100
        }
    }

    /// An arc is a path of one arc; a fill in `color` comes first where the
    /// arc has one, then a black stroke one pixel wide where it has one. With
    /// neither, the path is laid and nothing shows.
    pub open spec fn painted(self, color: Seq<char>) -> Seq<Call> {
        seq![
            Call::BeginPath,
            Call::Arc {
                x: self.x,
                y: self.y,
                radius: self.radius,
                start: self.start,
                end: self.end,
            },
        ] + (if self.with_fill {
            filled(self.alpha(), color)
        } else {
            Seq::empty()
        }) + (if self.with_stroke {
            stroked(1)
        } else {
            Seq::empty()
        })
    }

    /// The calls that paint this arc, with `color` for its fill.
    pub fn calls(&self, color: &String) -> (calls: Vec<CanvasCall>)
        ensures
            calls.deep_view() == self.painted(color@),
    {
        let mut calls: Vec<CanvasCall> = Vec::new();
        calls.push(CanvasCall::BeginPath);
        calls.push(
            CanvasCall::Arc {
                x: self.x,
                y: self.y,
                radius: self.radius,
                start: self.start,
                end: self.end,
            },
        );
        if self.with_fill {
            if self.with_alpha {
                fill(&mut calls, 50, color);
            } else {
                fill(&mut calls, 100, color);
            }
        }
        if self.with_stroke {
            stroke(&mut calls, 1);
        }
        calls
    }
}

/// A small filled disc, with or without an outline.
#[derive(Clone, Copy, Debug, PartialEq, Eq, Structural)]
pub struct DotShape {
    /// The center, in pixels from the left.
    pub x: u32,
    /// The center, in pixels from the top.
    pub y: u32,
    /// The radius, in pixels.
    pub radius: u32,
    /// Whether the disc is outlined.
    pub with_stroke: bool,
}

impl DotShape {
    /// A dot is a path of one full ellipse with both radii equal; a black
    /// outline one pixel wide comes first where the dot has one, and the
    /// opaque fill in `color` always follows.
    pub open spec fn painted(self, color: Seq<char>) -> Seq<Call> {
        seq![
            Call::BeginPath,
            Call::Ellipse {
                x: self.x,
                y: self.y,
                radius_x: self.radius,
                radius_y: self.radius,
                rotation: 0,
                start: 0,
                end: 360,
            },
        ] + (if self.with_stroke {
            stroked(1)
        } else {
            Seq::empty()
        }) + filled(100, color)
    }

    /// The calls that paint this dot in `color`.
    pub fn calls(&self, color: &String) -> (calls: Vec<CanvasCall>)
        ensures
            calls.deep_view() == self.painted(color@),
    {
        let mut calls: Vec<CanvasCall> = Vec::new();
        calls.push(CanvasCall::BeginPath);
        calls.push(
            CanvasCall::Ellipse {
                x: self.x,
                y: self.y,
                radius_x: self.radius,
                radius_y: self.radius,
                rotation: 0,
                start: 0,
                end: 360,
            },
        );
        if self.with_stroke {
            stroke(&mut calls, 1);
        }
        fill(&mut calls, 100, color);
        calls
    }
}

} // verus!
