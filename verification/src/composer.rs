//! The composer: a surface, a palette and a focal point, and the drawing
//! made from them.

use crate::canvas::{extend, Call, CanvasCall, Offset, FULL_TURN};
use crate::chance::{flip, pick, roll};
use crate::shapes::{ArcShape, DotShape, LineShape};
use rand::rngs::StdRng;
use vstd::prelude::*;

verus! {

/// The number of colors in a palette.
pub const PALETTE_SIZE: usize = 10;

/// A density is a count of primitives on this many square pixels.
pub const DENSITY_SCALE: u64 = 1_000_000_000;

/// The least density of a drawing: 0.002 primitives on a square pixel.
pub const MIN_DENSITY: u64 = 2_000_000;

/// The density that no drawing attains: 0.005 primitives on a square pixel.
pub const MAX_DENSITY: u64 = 5_000_000;

/// Where the middle band of an axis starts, in thousandths of its extent.
pub const BAND_START: u64 = 300;

/// Where the middle band of an axis ends, in thousandths of its extent.
pub const BAND_END: u64 = 700;

/// The short reach of a line, in thousandths of the width.
pub const SHORT_REACH: u64 = 300;

/// The middle reach of a line, in thousandths of the height.
pub const MIDDLE_REACH: u64 = 600;

/// The long reach of a line, in thousandths of the height.
pub const LONG_REACH: u64 = 900;

/// The color at both ends of the background gradient.
pub open spec fn sand() -> Seq<char> {
    "#E6D5C0"@
}

/// The color in the middle of the background gradient.
pub open spec fn linen() -> Seq<char> {
    "#EBE3D8"@
}

/// Why a composer could not be made.
#[derive(Clone, Copy, Debug, PartialEq, Eq, Structural)]
pub enum ConstructionError {
    /// The surface has no width or no height.
    EmptySurface,
    /// The palette does not hold exactly ten colors.
    MalformedPalette,
}

/// What a composer is made of.
pub struct AppView {
    /// The width of the surface, in pixels.
    pub width: u32,
    /// The height of the surface, in pixels.
    pub height: u32,
    /// The colors that fills are picked from.
    pub palette: Seq<Seq<char>>,
    /// The focal point, in thousandths of a pixel from the left.
    pub focal_x: u64,
    /// The focal point, in thousandths of a pixel from the top.
    pub focal_y: u64,
}

/// Whether `at`, in thousandths of a pixel, lies in the middle band of an
/// axis `extent` pixels long: no nearer to either end than three tenths of
/// the extent.
pub open spec fn in_band(at: u64, extent: u32) -> bool {
    BAND_START * extent <= at <= BAND_END * extent
}

impl AppView {
    /// A composer has a surface of some extent, ten colors, and a focal
    /// point in the middle band of each axis.
    pub open spec fn wf(self) -> bool {
        &&& self.width > 0
        &&& self.height > 0
        &&& self.palette.len() == PALETTE_SIZE
        &&& in_band(self.focal_x, self.width)
        &&& in_band(self.focal_y, self.height)
    }

    /// The background: a gradient along the diagonal of the surface, sand
    /// at both ends and linen in the middle, filled over the whole surface.
    pub open spec fn background(self) -> Seq<Call> {
        seq![
            Call::CreateLinearGradient { x0: 0, y0: 0, x1: self.width, y1: self.height },
            Call::AddColorStop { percent: 0, color: sand() },
            Call::AddColorStop { percent: 50, color: linen() },
            Call::AddColorStop { percent: 100, color: sand() },
            Call::FillWithGradient,
            Call::FillRect { x: 0, y: 0, width: self.width, height: self.height },
        ]
    }

    /// How far past its least length the end of a line may lie, in
    /// thousandths of a pixel: three rolls in ten keep it within three
    /// tenths of the width, four within six tenths of the height, and three
    /// within nine tenths of the height.
    pub open spec fn reach(self, roll: int) -> int {
        if roll < 3 {
            SHORT_REACH * self.width
        } else if roll < 7 {
            MIDDLE_REACH * self.height
        } else {
            LONG_REACH * self.height
        }
    }

    /// Whether the end of a line may lie `radius` thousandths of a pixel
    /// from the origin when `roll` gave its reach. The least length is the
    /// focal point's distance from the left edge, whatever the reach.
    pub open spec fn within(self, radius: u64, roll: int) -> bool {
        self.focal_x <= radius < self.focal_x + self.reach(roll)
    }

    /// Whether `p` can be the end of a line: any direction short of a full
    /// turn, and a length within one of the three reaches.
    pub open spec fn reaches(self, p: Offset) -> bool {
        &&& p.angle < FULL_TURN
        &&& exists|roll: int| 0 <= roll && roll < 10 && #[trigger] self.within(p.radius, roll)
    }

    /// The lines of a drawing: both ends within reach, one or two pixels
    /// wide.
    pub open spec fn admits_line(self, line: LineShape) -> bool {
        &&& self.reaches(line.from)
        &&& self.reaches(line.to)
        &&& 1 <= line.weight < 3
    }

    /// Whether `calls` paint one line of a drawing.
    pub open spec fn is_line(self, calls: Seq<Call>) -> bool {
        exists|line: LineShape| self.admits_line(line) && calls == #[trigger] line.painted()
    }

    /// The arcs of a drawing: centered on a pixel of the surface, with a
    /// radius of 5 to 39 pixels, and starting and ending at any of 360
    /// angles. Any style goes.
    pub open spec fn admits_arc(self, arc: ArcShape) -> bool {
        &&& arc.x < self.width
        &&& arc.y < self.height
        &&& 5 <= arc.radius < 40
        &&& arc.start < 360
        &&& arc.end < 360
    }

    /// Whether `calls` paint one arc of a drawing, in a color of the
    /// palette.
    pub open spec fn is_arc(self, calls: Seq<Call>) -> bool {
        exists|arc: ArcShape, color: Seq<char>|
            self.admits_arc(arc) && self.palette.contains(color) && calls == #[trigger] arc.painted(
                color,
            )
    }

    /// The dots of a drawing: centered on a pixel of the surface, with a
    /// radius of one or two pixels, outlined or not.
    pub open spec fn admits_dot(self, dot: DotShape) -> bool {
        &&& dot.x < self.width
        &&& dot.y < self.height
        &&& 1 <= dot.radius < 3
    }

    /// Whether `calls` paint one dot of a drawing, in a color of the
    /// palette.
    pub open spec fn is_dot(self, calls: Seq<Call>) -> bool {
        exists|dot: DotShape, color: Seq<char>|
            self.admits_dot(dot) && self.palette.contains(color) && calls == #[trigger] dot.painted(
                color,
            )
    }

    /// Whether `calls` paint one primitive of a drawing, of the given kind.
    pub open spec fn is_of_kind(self, kind: Kind, calls: Seq<Call>) -> bool {
        match kind {
            Kind::Line => self.is_line(calls),
            Kind::Arc => self.is_arc(calls),
            Kind::Dot => self.is_dot(calls),
        }
    }

    /// Whether `calls` paint one primitive of a drawing.
    pub open spec fn is_primitive(self, calls: Seq<Call>) -> bool {
        self.is_line(calls) || self.is_arc(calls) || self.is_dot(calls)
    }

    /// The number of primitives that `density` puts on the surface: the
    /// density times the area, without the fraction.
    pub open spec fn primitive_count(self, density: int) -> int {
        density * (self.width * self.height) / (DENSITY_SCALE as int)
    }

    /// Whether `calls` paint a drawing of the primitives `parts`, as many as
    /// `density` asks for: the background, then the primitives one after
    /// another.
    pub open spec fn composes(self, density: int, parts: Seq<Seq<Call>>, calls: Seq<Call>) -> bool {
        &&& MIN_DENSITY <= density < MAX_DENSITY
        &&& parts.len() == self.primitive_count(density)
        &&& forall|i: int| 0 <= i < parts.len() ==> self.is_primitive(#[trigger] parts[i])
        &&& calls == self.background() + parts.flatten()
    }

    /// Whether `calls` paint a drawing.
    pub open spec fn is_drawing(self, calls: Seq<Call>) -> bool {
        exists|density: int, parts: Seq<Seq<Call>>| #[trigger] self.composes(density, parts, calls)
    }
}

/// The kinds of primitive.
#[derive(Clone, Copy, Debug, PartialEq, Eq, Structural)]
pub enum Kind {
    /// A straight stroke.
    Line,
    /// A circular arc.
    Arc,
    /// A small disc.
    Dot,
}

impl Kind {
    /// The kind that a roll of ten gives: a line for six of the rolls, an
    /// arc for three, a dot for one.
    pub open spec fn of(roll: int) -> Kind {
        if roll < 6 {
            Kind::Line
        } else if roll < 9 {
            Kind::Arc
        } else {
            Kind::Dot
        }
    }

    /// The kind that `roll` gives.
    pub fn from_roll(roll: u64) -> (kind: Kind)
        ensures
            kind == Kind::of(roll as int),
    {
        if roll < 6 {
            Kind::Line
        } else if roll < 9 {
            Kind::Arc
        } else {
            Kind::Dot
        }
    }
}

/// A composer of drawings for one surface.
pub struct App {
    width: u32,
    height: u32,
    palette: Vec<String>,
    central_point: (u64, u64),
}

impl View for App {
    type V = AppView;

    closed spec fn view(&self) -> AppView {
        AppView {
            width: self.width,
            height: self.height,
            palette: self.palette.deep_view(),
            focal_x: self.central_point.0,
            focal_y: self.central_point.1,
        }
    }
}

impl App {
    #[verifier::type_invariant]
    spec fn inv(&self) -> bool {
        self@.wf()
    }

    /// Makes the composer for a surface of `width` by `height` pixels, and
    /// samples its focal point: uniformly, and independently on each axis,
    /// among the thousandths of a pixel in the middle band.
    ///
    /// A surface without extent is refused first, then a palette of any size
    /// but ten.
    pub fn new(width: u32, height: u32, palette: Vec<String>, rng: &mut StdRng) -> (made: Result<
        App,
        ConstructionError,
    >)
        ensures
            width == 0 || height == 0 ==> made == Err::<App, ConstructionError>(
                ConstructionError::EmptySurface,
            ),
            width > 0 && height > 0 && palette.len() != PALETTE_SIZE ==> made == Err::<
                App,
                ConstructionError,
            >(ConstructionError::MalformedPalette),
            width > 0 && height > 0 && palette.len() == PALETTE_SIZE ==> made is Ok,
            made matches Ok(app) ==> {
                &&& app@.wf()
                &&& app@.width == width
                &&& app@.height == height
                &&& app@.palette == palette.deep_view()
            },
    {
        if width == 0 || height == 0 {
            return Err(ConstructionError::EmptySurface);
        }
        if palette.len() != PALETTE_SIZE {
            return Err(ConstructionError::MalformedPalette);
        }
        let x = roll(rng, BAND_START * (width as u64), BAND_END * (width as u64) + 1);
        let y = roll(rng, BAND_START * (height as u64), BAND_END * (height as u64) + 1);
        Ok(App { width, height, palette, central_point: (x, y) })
    }

    /// The width of the surface, in pixels.
    pub fn width(&self) -> (width: u32)
        ensures
            width == self@.width,
    {
        self.width
    }

    /// The height of the surface, in pixels.
    pub fn height(&self) -> (height: u32)
        ensures
            height == self@.height,
    {
        self.height
    }

    /// The colors that fills are picked from.
    pub fn palette(&self) -> (palette: &Vec<String>)
        ensures
            palette.deep_view() == self@.palette,
    {
        &self.palette
    }

    /// The focal point, in thousandths of a pixel from the left and from the
    /// top.
    pub fn central_point(&self) -> (point: (u64, u64))
        ensures
            point.0 == self@.focal_x,
            point.1 == self@.focal_y,
            in_band(point.0, self@.width),
            in_band(point.1, self@.height),
    {
        proof {
            use_type_invariant(self);
        }
        self.central_point
    }

    /// The calls that paint the background. Nothing in them is left to
    /// chance.
    pub fn bg(&self) -> (calls: Vec<CanvasCall>)
        ensures
            calls.deep_view() == self@.background(),
    {
        let mut calls: Vec<CanvasCall> = Vec::new();
        calls.push(
            CanvasCall::CreateLinearGradient { x0: 0, y0: 0, x1: self.width, y1: self.height },
        );
        calls.push(CanvasCall::AddColorStop { percent: 0, color: "#E6D5C0".to_owned() });
        calls.push(CanvasCall::AddColorStop { percent: 50, color: "#EBE3D8".to_owned() });
        calls.push(CanvasCall::AddColorStop { percent: 100, color: "#E6D5C0".to_owned() });
        calls.push(CanvasCall::FillWithGradient);
        calls.push(CanvasCall::FillRect { x: 0, y: 0, width: self.width, height: self.height });
        calls
    }

    /// The reach that `roll` gives the end of a line, in thousandths of a
    /// pixel.
    pub fn reach(&self, roll: u64) -> (span: u64)
        ensures
            span == self@.reach(roll as int),
    {
        if roll < 3 {
            SHORT_REACH * (self.width as u64)
        } else if roll < 7 {
            MIDDLE_REACH * (self.height as u64)
        } else {
            LONG_REACH * (self.height as u64)
        }
    }

    /// Samples the end of a line: a direction, uniform over the full turn;
    /// one of the three reaches, by a roll of ten; and a length, uniform
    /// from the focal point's distance from the left edge up to that reach
    /// beyond it.
    pub fn next_random(&self, rng: &mut StdRng) -> (p: Offset)
        ensures
            self@.reaches(p),
    {
        proof {
            use_type_invariant(self);
        }
        let angle = roll(rng, 0, FULL_TURN);
        let chance = roll(rng, 0, 10);
        let span = self.reach(chance);
        let nearest = self.central_point.0;
        let radius = roll(rng, nearest, nearest + span);
        let p = Offset { angle: angle as u32, radius };
        assert(self@.within(p.radius, chance as int));
        p
    }

    /// Samples a line and gives the calls that paint it: two ends, each by
    /// [`App::next_random`], and a width of one or two pixels.
    pub fn lines(&self, rng: &mut StdRng) -> (calls: Vec<CanvasCall>)
        ensures
            self@.is_line(calls.deep_view()),
    {
        let from = self.next_random(rng);
        let to = self.next_random(rng);
        let weight = roll(rng, 1, 3);
        let line = LineShape { from, to, weight: weight as u32 };
        line.calls()
    }

    /// Samples a color of the palette.
    fn color(&self, rng: &mut StdRng) -> (color: &String)
        ensures
            self@.palette.contains(color@),
    {
        proof {
            use_type_invariant(self);
        }
        let picked = pick(&self.palette, rng);
        let color = picked.unwrap();
        proof {
            let i = choose|i: int| 0 <= i < self.palette@.len() && self.palette@[i] == *color;
            assert(self.palette.deep_view()[i] == color@);
        }
        color
    }

    /// Samples an arc and gives the calls that paint it: a center on the
    /// surface, a radius, two angles, and a color of the palette, each
    /// uniform; and three flags, each set one time in three, for a fill, for
    /// a stroke, and for a fill that is half transparent.
    pub fn arcs(&self, rng: &mut StdRng) -> (calls: Vec<CanvasCall>)
        ensures
            self@.is_arc(calls.deep_view()),
    {
        proof {
            use_type_invariant(self);
        }
        let x = roll(rng, 0, self.width as u64);
        let y = roll(rng, 0, self.height as u64);
        let radius = roll(rng, 5, 40);
        let start = roll(rng, 0, 360);
        let end = roll(rng, 0, 360);
        let with_fill = flip(rng, 1, 3);
        let with_stroke = flip(rng, 1, 3);
        let with_alpha = flip(rng, 1, 3);
        let color = self.color(rng);
        let arc = ArcShape {
            x: x as u32,
            y: y as u32,
            radius: radius as u32,
            start: start as u32,
            end: end as u32,
            with_fill,
            with_stroke,
            with_alpha,
        };
        arc.calls(color)
    }

    /// Samples a dot and gives the calls that paint it: a center on the
    /// surface, a radius and a color of the palette, each uniform; and an
    /// outline one time in three.
    pub fn dots(&self, rng: &mut StdRng) -> (calls: Vec<CanvasCall>)
        ensures
            self@.is_dot(calls.deep_view()),
    {
        proof {
            use_type_invariant(self);
        }
        let x = roll(rng, 0, self.width as u64);
        let y = roll(rng, 0, self.height as u64);
        let radius = roll(rng, 1, 3);
        let with_stroke = flip(rng, 1, 3);
        let color = self.color(rng);
        let dot = DotShape { x: x as u32, y: y as u32, radius: radius as u32, with_stroke };
        dot.calls(color)
    }

    /// Samples a primitive of the given kind and gives the calls that paint
    /// it.
    pub fn primitive(&self, kind: Kind, rng: &mut StdRng) -> (calls: Vec<CanvasCall>)
        ensures
            self@.is_of_kind(kind, calls.deep_view()),
    {
        match kind {
            Kind::Line => self.lines(rng),
            Kind::Arc => self.arcs(rng),
            Kind::Dot => self.dots(rng),
        }
    }

    /// The number of primitives that `density` puts on the surface.
    /// A density is a share of the area: it does not pass
    /// [`DENSITY_SCALE`].
    pub fn primitive_count(&self, density: u64) -> (total: u64)
        requires
            density <= DENSITY_SCALE,
        ensures
            total == self@.primitive_count(density as int),
    {
        assert(self.width * self.height <= 0xffff_ffff * 0xffff_ffff) by (nonlinear_arith)
            requires
                self.width <= 0xffff_ffff,
                self.height <= 0xffff_ffff,
        ;
        let area: u64 = (self.width as u64) * (self.height as u64);
        assert(density * area <= DENSITY_SCALE * area) by (nonlinear_arith)
            requires
                density <= DENSITY_SCALE,
                0 <= area,
        ;
        let scaled: u128 = (density as u128) * (area as u128);
        let total: u128 = scaled / (DENSITY_SCALE as u128);
        total as u64
    }

    /// Samples a drawing and gives the calls that paint it: the background,
    /// then as many primitives as a density sampled uniformly between
    /// [`MIN_DENSITY`] and [`MAX_DENSITY`] puts on the surface, each of the
    /// kind that a roll of ten gives it.
    pub fn draw(&self, rng: &mut StdRng) -> (calls: Vec<CanvasCall>)
        ensures
            self@.is_drawing(calls.deep_view()),
    {
        let mut calls = self.bg();
        let density = roll(rng, MIN_DENSITY, MAX_DENSITY);
        let total = self.primitive_count(density);
        let ghost mut parts: Seq<Seq<Call>> = Seq::empty();
        let mut done: u64 = 0;
        while done < total
            invariant
                done <= total,
                parts.len() == done,
                forall|i: int| 0 <= i < parts.len() ==> self@.is_primitive(#[trigger] parts[i]),
                calls.deep_view() == self@.background() + parts.flatten(),
            decreases total - done,
        {
            let kind = Kind::from_roll(roll(rng, 0, 10));
            let part = self.primitive(kind, rng);
            proof {
                broadcast use Seq::lemma_flatten_push;

                parts = parts.push(part.deep_view());
            }
            extend(&mut calls, part);
            done = done + 1;
        }
        assert(self@.composes(density as int, parts, calls.deep_view()));
        calls
    }
}

} // verus!
