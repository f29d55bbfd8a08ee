//! What holds of every composer and of every drawing, whatever was sampled.

use crate::canvas::{Call, PIXEL};
use crate::composer::{AppView, Kind, MAX_DENSITY, MIN_DENSITY};
use vstd::prelude::*;
use vstd::set_lib::{lemma_int_range, set_int_range};

verus! {

/// The focal point of a composer lies in the middle of the surface: on each
/// axis, its distance from the edge is no less than three tenths of the
/// extent and no more than seven tenths of it.
pub proof fn lemma_focal_point_centered(app: AppView)
    requires
        app.wf(),
    ensures
        3 * (app.width * PIXEL) <= 10 * app.focal_x <= 7 * (app.width * PIXEL),
        3 * (app.height * PIXEL) <= 10 * app.focal_y <= 7 * (app.height * PIXEL),
{
}

/// The smallest whole number that is no less than five thousandths of the
/// area: the most primitives that a drawing can hold.
pub open spec fn most_primitives(app: AppView) -> int {
    (5 * (app.width * app.height) + 999) / 1000
}

/// The largest whole number that is no more than two thousandths of the
/// area: the fewest primitives that a drawing can hold.
pub open spec fn fewest_primitives(app: AppView) -> int {
    2 * (app.width * app.height) / 1000
}

/// A drawing holds no more primitives than five thousandths of the area of
/// its surface, rounded up, and no fewer than two thousandths of it, rounded
/// down.
pub proof fn lemma_count_bounded(
    app: AppView,
    density: int,
    parts: Seq<Seq<Call>>,
    calls: Seq<Call>,
)
    requires
        app.composes(density, parts, calls),
    ensures
        0 <= fewest_primitives(app) <= parts.len() <= most_primitives(app),
{
    let area = app.width * app.height;
    assert(MIN_DENSITY * area <= density * area <= MAX_DENSITY * area) by (nonlinear_arith)
        requires
            0 <= area,
            MIN_DENSITY <= density < MAX_DENSITY,
    ;
}

/// The rolls of ten that give `kind`.
pub open spec fn rolls_for(kind: Kind) -> Set<int> {
    Set::new(|roll: int| 0 <= roll < 10 && Kind::of(roll) == kind)
}

/// Of the ten rolls, six give a line, three an arc and one a dot.
pub proof fn lemma_kind_shares()
    ensures
        rolls_for(Kind::Line).len() == 6,
        rolls_for(Kind::Arc).len() == 3,
        rolls_for(Kind::Dot).len() == 1,
{
    assert(rolls_for(Kind::Line) =~= set_int_range(0, 6));
    assert(rolls_for(Kind::Arc) =~= set_int_range(6, 9));
    assert(rolls_for(Kind::Dot) =~= set_int_range(9, 10));
    lemma_int_range(0, 6);
    lemma_int_range(6, 9);
    lemma_int_range(9, 10);
}

/// The stroke of a line is one or two pixels wide.
pub proof fn lemma_line_weight(app: AppView, calls: Seq<Call>)
    requires
        app.is_line(calls),
    ensures
        calls.len() == 6,
        calls[3] matches Call::SetLineWidth { width } && (width == 1 || width == 2),
{
}

/// The radius of an arc is at least 5 pixels and less than 40.
pub proof fn lemma_arc_radius(app: AppView, calls: Seq<Call>)
    requires
        app.is_arc(calls),
    ensures
        calls.len() >= 2,
        calls[1] matches Call::Arc { radius, .. } && 5 <= radius < 40,
{
}

/// A dot is round, and its radius is one or two pixels.
pub proof fn lemma_dot_radius(app: AppView, calls: Seq<Call>)
    requires
        app.is_dot(calls),
    ensures
        calls.len() >= 5,
        calls[1] matches Call::Ellipse { radius_x, radius_y, .. } && radius_x == radius_y && 1
            <= radius_x < 3,
{
}

/// Whether `call` is one of those that lay a background: a call that builds
/// a gradient, or one that fills a rectangle.
pub open spec fn lays_background(call: Call) -> bool {
    call is CreateLinearGradient || call is AddColorStop || call is FillWithGradient
        || call is FillRect
}

proof fn lemma_primitive_spares_background(app: AppView, calls: Seq<Call>)
    requires
        app.is_primitive(calls),
    ensures
        forall|k: int| 0 <= k < calls.len() ==> !lays_background(#[trigger] calls[k]),
{
}

proof fn lemma_primitives_spare_background(app: AppView, parts: Seq<Seq<Call>>)
    requires
        forall|i: int| 0 <= i < parts.len() ==> app.is_primitive(#[trigger] parts[i]),
    ensures
        forall|k: int|
            0 <= k < parts.flatten().len() ==> !lays_background(#[trigger] parts.flatten()[k]),
    decreases parts.len(),
{
    if parts.len() > 0 {
        let first = parts.first();
        let rest = parts.drop_first();
        assert forall|i: int| 0 <= i < rest.len() implies app.is_primitive(#[trigger] rest[i]) by {
            assert(rest[i] == parts[i + 1]);
        }
        lemma_primitive_spares_background(app, first);
        lemma_primitives_spare_background(app, rest);
        let flat = parts.flatten();
        assert(flat == first + rest.flatten());
        assert forall|k: int| 0 <= k < flat.len() implies !lays_background(#[trigger] flat[k]) by {
            if k < first.len() {
                assert(flat[k] == first[k]);
            } else {
                assert(flat[k] == rest.flatten()[k - first.len()]);
            }
        }
    }
}

/// A drawing paints its background once, and before anything else: its
/// first six calls are the background, and no call after them builds a
/// gradient or fills a rectangle.
pub proof fn lemma_background_first_and_once(app: AppView, calls: Seq<Call>)
    requires
        app.is_drawing(calls),
    ensures
        calls.len() >= 6,
        calls.subrange(0, 6) == app.background(),
        forall|k: int| 6 <= k < calls.len() ==> !lays_background(#[trigger] calls[k]),
{
    let (density, parts) = choose|density: int, parts: Seq<Seq<Call>>| #[trigger]
        app.composes(density, parts, calls);
    lemma_primitives_spare_background(app, parts);
    assert forall|k: int| 6 <= k < calls.len() implies !lays_background(#[trigger] calls[k]) by {
        assert(calls[k] == parts.flatten()[k - 6]);
    }
}

/// A drawing without primitives is the background and nothing else.
pub proof fn lemma_empty_drawing(
    app: AppView,
    density: int,
    parts: Seq<Seq<Call>>,
    calls: Seq<Call>,
)
    requires
        app.composes(density, parts, calls),
        app.primitive_count(density) == 0,
    ensures
        calls == app.background(),
{
}

/// A drawing is settled by what was sampled for it: two drawings of the same
/// primitives on the same surface are the same calls.
pub proof fn lemma_same_samples_same_drawing(
    app: AppView,
    parts: Seq<Seq<Call>>,
    first_density: int,
    first: Seq<Call>,
    second_density: int,
    second: Seq<Call>,
)
    requires
        app.composes(first_density, parts, first),
        app.composes(second_density, parts, second),
    ensures
        first == second,
{
}

} // verus!
