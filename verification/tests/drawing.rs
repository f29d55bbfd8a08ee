use generative_art::canvas::FULL_TURN;
use generative_art::composer::{DENSITY_SCALE, MAX_DENSITY, MIN_DENSITY};
use generative_art::{App, CanvasCall, Kind, Offset};
use rand::rngs::StdRng;
use rand::SeedableRng;

fn palette() -> Vec<String> {
    [
        "#E07E69", "#536E8F", "#FED700", "#CB4204", "#272727", "#56325C", "#9BA77C", "#88D4D1",
        "#DEAF48", "#FFFFFF",
    ]
    .iter()
    .map(|color| color.to_string())
    .collect()
}

fn composer(width: u32, height: u32, seed: u64) -> (App, StdRng) {
    let mut rng = StdRng::seed_from_u64(seed);
    let app = App::new(width, height, palette(), &mut rng).unwrap();
    (app, rng)
}

fn background(width: u32, height: u32) -> Vec<CanvasCall> {
    vec![
        CanvasCall::CreateLinearGradient { x0: 0, y0: 0, x1: width, y1: height },
        CanvasCall::AddColorStop { percent: 0, color: String::from("#E6D5C0") },
        CanvasCall::AddColorStop { percent: 50, color: String::from("#EBE3D8") },
        CanvasCall::AddColorStop { percent: 100, color: String::from("#E6D5C0") },
        CanvasCall::FillWithGradient,
        CanvasCall::FillRect { x: 0, y: 0, width, height },
    ]
}

/// Cuts what follows the background into primitives, one at each new path.
fn primitives(calls: &[CanvasCall]) -> Vec<&[CanvasCall]> {
    let rest = &calls[6..];
    let mut starts: Vec<usize> = Vec::new();
    for (at, call) in rest.iter().enumerate() {
        if *call == CanvasCall::BeginPath {
            starts.push(at);
        }
    }
    let mut parts = Vec::new();
    for (n, start) in starts.iter().enumerate() {
        let end = if n + 1 < starts.len() { starts[n + 1] } else { rest.len() };
        parts.push(&rest[*start..end]);
    }
    parts
}

fn is_stroke(calls: &[CanvasCall], width: u32) -> bool {
    calls.len() == 3
        && calls[0] == CanvasCall::SetLineWidth { width }
        && calls[1] == CanvasCall::SetStrokeStyle { color: String::from("black") }
        && calls[2] == CanvasCall::Stroke
}

fn is_fill(app: &App, calls: &[CanvasCall], percents: &[u32]) -> bool {
    if calls.len() != 3 || calls[2] != CanvasCall::Fill {
        return false;
    }
    let opacity = match &calls[0] {
        CanvasCall::SetGlobalAlpha { percent } => percents.contains(percent),
        _ => false,
    };
    let color = match &calls[1] {
        CanvasCall::SetFillStyle { color } => app.palette().contains(color),
        _ => false,
    };
    opacity && color
}

fn within_reach(app: &App, p: &Offset) -> bool {
    let nearest = app.central_point().0;
    let short = 300 * app.width() as u64;
    let long = 900 * app.height() as u64;
    (p.angle as u64) < FULL_TURN
        && nearest <= p.radius
        && (p.radius < nearest + short || p.radius < nearest + long)
}

fn is_line(app: &App, calls: &[CanvasCall]) -> bool {
    if calls.len() != 6 || calls[0] != CanvasCall::BeginPath {
        return false;
    }
    let ends = match (&calls[1], &calls[2]) {
        (CanvasCall::MoveTo { to: from }, CanvasCall::LineTo { to }) => {
            within_reach(app, from) && within_reach(app, to)
        }
        _ => false,
    };
    ends && (is_stroke(&calls[3..], 1) || is_stroke(&calls[3..], 2))
}

fn is_arc(app: &App, calls: &[CanvasCall]) -> bool {
    if calls.len() < 2 || calls[0] != CanvasCall::BeginPath {
        return false;
    }
    let path = match &calls[1] {
        CanvasCall::Arc { x, y, radius, start, end } => {
            *x < app.width()
                && *y < app.height()
                && 5 <= *radius
                && *radius < 40
                && *start < 360
                && *end < 360
        }
        _ => false,
    };
    let style = &calls[2..];
    let styled = match style.len() {
        0 => true,
        3 => is_fill(app, style, &[50, 100]) || is_stroke(style, 1),
        6 => is_fill(app, &style[..3], &[50, 100]) && is_stroke(&style[3..], 1),
        _ => false,
    };
    path && styled
}

fn is_dot(app: &App, calls: &[CanvasCall]) -> bool {
    if calls.len() < 2 || calls[0] != CanvasCall::BeginPath {
        return false;
    }
    let path = match &calls[1] {
        CanvasCall::Ellipse { x, y, radius_x, radius_y, rotation, start, end } => {
            *x < app.width()
                && *y < app.height()
                && radius_x == radius_y
                && (*radius_x == 1 || *radius_x == 2)
                && *rotation == 0
                && *start == 0
                && *end == 360
        }
        _ => false,
    };
    let style = &calls[2..];
    let styled = match style.len() {
        3 => is_fill(app, style, &[100]),
        6 => is_stroke(&style[..3], 1) && is_fill(app, &style[3..], &[100]),
        _ => false,
    };
    path && styled
}

#[test]
fn background_is_a_diagonal_gradient_over_the_whole_surface() {
    let (app, _) = composer(100, 100, 1);
    assert_eq!(app.bg(), background(100, 100));
}

#[test]
fn background_follows_the_surface() {
    let (app, _) = composer(640, 480, 1);
    let calls = app.bg();
    assert_eq!(calls.len(), 6);
    assert_eq!(calls[0], CanvasCall::CreateLinearGradient { x0: 0, y0: 0, x1: 640, y1: 480 });
    assert_eq!(calls[5], CanvasCall::FillRect { x: 0, y: 0, width: 640, height: 480 });
}

#[test]
fn background_is_the_same_every_time() {
    let (app, _) = composer(100, 100, 1);
    let (other, _) = composer(100, 100, 2);
    assert_eq!(app.bg(), app.bg());
    assert_eq!(app.bg(), other.bg());
}

#[test]
fn density_bounds() {
    assert_eq!(MIN_DENSITY * 1000, 2 * DENSITY_SCALE);
    assert_eq!(MAX_DENSITY * 1000, 5 * DENSITY_SCALE);
}

#[test]
fn primitive_count_is_density_times_area() {
    let (app, _) = composer(100, 100, 1);
    assert_eq!(app.primitive_count(0), 0);
    assert_eq!(app.primitive_count(2_000_000), 20);
    assert_eq!(app.primitive_count(3_500_000), 35);
    assert_eq!(app.primitive_count(1_000_000_000), 10_000);
}

#[test]
fn primitive_count_drops_the_fraction() {
    let (app, _) = composer(100, 100, 1);
    assert_eq!(app.primitive_count(2_099_999), 20);
    assert_eq!(app.primitive_count(2_100_000), 21);
    assert_eq!(app.primitive_count(4_999_999), 49);
    let (wide, _) = composer(1920, 1080, 1);
    assert_eq!(wide.primitive_count(3_500_000), 7257);
    assert_eq!(wide.primitive_count(4_999_999), 10_367);
}

#[test]
fn primitive_count_of_a_tiny_surface_is_zero() {
    let (app, _) = composer(10, 10, 1);
    assert_eq!(app.primitive_count(MIN_DENSITY), 0);
    assert_eq!(app.primitive_count(MAX_DENSITY - 1), 0);
    let (least, _) = composer(1, 1, 1);
    assert_eq!(least.primitive_count(MAX_DENSITY - 1), 0);
}

#[test]
fn primitive_count_of_the_widest_surface() {
    let (app, _) = composer(u32::MAX, u32::MAX, 1);
    assert_eq!(app.primitive_count(DENSITY_SCALE), 18_446_744_065_119_617_025);
    assert_eq!(app.primitive_count(MIN_DENSITY), 36_893_488_130_239_234);
}

#[test]
fn kind_follows_the_roll() {
    for roll in 0..6 {
        assert_eq!(Kind::from_roll(roll), Kind::Line);
    }
    for roll in 6..9 {
        assert_eq!(Kind::from_roll(roll), Kind::Arc);
    }
    assert_eq!(Kind::from_roll(9), Kind::Dot);
}

#[test]
fn reach_follows_the_roll() {
    let (app, _) = composer(100, 60, 1);
    for roll in 0..3 {
        assert_eq!(app.reach(roll), 30_000);
    }
    for roll in 3..7 {
        assert_eq!(app.reach(roll), 36_000);
    }
    for roll in 7..10 {
        assert_eq!(app.reach(roll), 54_000);
    }
}

#[test]
fn ends_of_lines_are_within_reach() {
    let (app, mut rng) = composer(100, 60, 5);
    for _ in 0..2000 {
        let p = app.next_random(&mut rng);
        assert!(within_reach(&app, &p), "{:?}", p);
    }
}

#[test]
fn ends_of_lines_take_every_reach() {
    let (app, mut rng) = composer(100, 100, 5);
    let nearest = app.central_point().0;
    let mut farthest = 0;
    let mut angles = Vec::new();
    for _ in 0..2000 {
        let p = app.next_random(&mut rng);
        farthest = farthest.max(p.radius - nearest);
        angles.push(p.angle);
    }
    assert!(farthest >= 60_000, "farthest = {}", farthest);
    assert!(farthest < 90_000, "farthest = {}", farthest);
    assert!(angles.iter().any(|angle| *angle != angles[0]));
    assert!(angles.iter().any(|angle| *angle > 3_141_592));
}

#[test]
fn ends_of_lines_on_a_wide_surface_reach_by_the_width() {
    let (app, mut rng) = composer(1000, 10, 5);
    let nearest = app.central_point().0;
    let mut farthest = 0;
    for _ in 0..2000 {
        let p = app.next_random(&mut rng);
        assert!(p.radius >= nearest);
        farthest = farthest.max(p.radius - nearest);
    }
    assert!(farthest >= 9_000, "farthest = {}", farthest);
    assert!(farthest < 300_000, "farthest = {}", farthest);
}

#[test]
fn lines_are_black_strokes_one_or_two_wide() {
    let (app, mut rng) = composer(100, 100, 6);
    let mut widths = Vec::new();
    for _ in 0..500 {
        let calls = app.lines(&mut rng);
        assert!(is_line(&app, &calls), "{:?}", calls);
        match calls[3] {
            CanvasCall::SetLineWidth { width } => widths.push(width),
            _ => panic!("no width"),
        }
    }
    assert!(widths.contains(&1));
    assert!(widths.contains(&2));
    assert!(widths.iter().all(|width| *width == 1 || *width == 2));
}

#[test]
fn arcs_have_a_radius_from_five_to_thirty_nine() {
    let (app, mut rng) = composer(100, 100, 7);
    let mut radii = Vec::new();
    let mut centers = Vec::new();
    for _ in 0..2000 {
        let calls = app.arcs(&mut rng);
        assert!(is_arc(&app, &calls), "{:?}", calls);
        match calls[1] {
            CanvasCall::Arc { x, y, radius, .. } => {
                radii.push(radius);
                centers.push((x, y));
            }
            _ => panic!("no arc"),
        }
    }
    assert_eq!(radii.iter().min(), Some(&5));
    assert_eq!(radii.iter().max(), Some(&39));
    assert!(centers.iter().any(|center| center.0 != 0));
    assert!(centers.iter().any(|center| center.1 != 0));
}

#[test]
fn arcs_come_in_every_style() {
    let (app, mut rng) = composer(100, 100, 8);
    let mut lengths = Vec::new();
    let mut opacities = Vec::new();
    for _ in 0..500 {
        let calls = app.arcs(&mut rng);
        lengths.push(calls.len());
        if let Some(CanvasCall::SetGlobalAlpha { percent }) = calls.get(2) {
            opacities.push(*percent);
        }
    }
    assert!(lengths.contains(&2));
    assert!(lengths.contains(&5));
    assert!(lengths.contains(&8));
    assert!(opacities.contains(&50));
    assert!(opacities.contains(&100));
}

#[test]
fn dots_have_a_radius_of_one_or_two() {
    let (app, mut rng) = composer(100, 100, 9);
    let mut radii = Vec::new();
    let mut lengths = Vec::new();
    for _ in 0..500 {
        let calls = app.dots(&mut rng);
        assert!(is_dot(&app, &calls), "{:?}", calls);
        lengths.push(calls.len());
        match calls[1] {
            CanvasCall::Ellipse { radius_x, .. } => radii.push(radius_x),
            _ => panic!("no ellipse"),
        }
    }
    assert_eq!(radii.iter().min(), Some(&1));
    assert_eq!(radii.iter().max(), Some(&2));
    assert!(lengths.contains(&5));
    assert!(lengths.contains(&8));
}

#[test]
fn primitive_is_of_the_kind_asked_for() {
    let (app, mut rng) = composer(100, 100, 14);
    for _ in 0..100 {
        let line = app.primitive(Kind::Line, &mut rng);
        assert!(is_line(&app, &line), "{:?}", line);
        let arc = app.primitive(Kind::Arc, &mut rng);
        assert!(is_arc(&app, &arc), "{:?}", arc);
        let dot = app.primitive(Kind::Dot, &mut rng);
        assert!(is_dot(&app, &dot), "{:?}", dot);
    }
}

#[test]
fn fills_take_their_colors_from_the_palette() {
    let (app, mut rng) = composer(100, 100, 10);
    let mut seen: Vec<String> = Vec::new();
    for _ in 0..500 {
        let calls = app.dots(&mut rng);
        match &calls[calls.len() - 2] {
            CanvasCall::SetFillStyle { color } => {
                assert!(palette().contains(color));
                if !seen.contains(color) {
                    seen.push(color.clone());
                }
            }
            _ => panic!("no fill color"),
        }
    }
    assert_eq!(seen.len(), 10);
}

#[test]
fn drawing_starts_with_the_background_and_paints_it_once() {
    let (app, mut rng) = composer(100, 100, 12);
    let calls = app.draw(&mut rng);
    assert_eq!(&calls[..6], &background(100, 100)[..]);
    for call in &calls[6..] {
        let lays_background = matches!(
            call,
            CanvasCall::CreateLinearGradient { .. }
                | CanvasCall::AddColorStop { .. }
                | CanvasCall::FillWithGradient
                | CanvasCall::FillRect { .. }
        );
        assert!(!lays_background, "{:?}", call);
    }
}

#[test]
fn drawing_is_made_of_lines_arcs_and_dots() {
    let (app, mut rng) = composer(200, 150, 13);
    let calls = app.draw(&mut rng);
    let parts = primitives(&calls);
    assert_eq!(parts.iter().map(|part| part.len()).sum::<usize>() + 6, calls.len());
    for part in parts {
        assert!(is_line(&app, part) || is_arc(&app, part) || is_dot(&app, part), "{:?}", part);
    }
}

#[test]
fn drawing_holds_between_two_and_five_thousandths_of_the_area() {
    for seed in 0..50 {
        let (app, mut rng) = composer(100, 100, seed);
        let calls = app.draw(&mut rng);
        let count = primitives(&calls).len();
        assert!(20 <= count && count <= 50, "count = {}", count);
    }
    for seed in 0..20 {
        let (app, mut rng) = composer(37, 41, seed);
        let calls = app.draw(&mut rng);
        let count = primitives(&calls).len();
        assert!(3 <= count && count <= 8, "count = {}", count);
    }
}

#[test]
fn drawing_counts_vary_with_the_density() {
    let mut counts = Vec::new();
    for seed in 0..50 {
        let (app, mut rng) = composer(100, 100, seed);
        counts.push(primitives(&app.draw(&mut rng)).len());
    }
    assert!(counts.iter().any(|count| *count != counts[0]));
    assert!(counts.iter().any(|count| *count > 20));
}

#[test]
fn drawing_without_primitives_is_the_background_alone() {
    for seed in 0..20 {
        let (app, mut rng) = composer(10, 10, seed);
        assert_eq!(app.draw(&mut rng), background(10, 10));
    }
}

#[test]
fn drawing_is_settled_by_the_seed() {
    let (first, mut first_rng) = composer(100, 100, 42);
    let (second, mut second_rng) = composer(100, 100, 42);
    let a = first.draw(&mut first_rng);
    let b = second.draw(&mut second_rng);
    assert_eq!(first.central_point(), second.central_point());
    assert_eq!(a, b);
    assert_eq!(first.draw(&mut first_rng), second.draw(&mut second_rng));
}

#[test]
fn drawing_twice_from_the_same_stream_gives_the_same_calls() {
    let (app, _) = composer(100, 100, 42);
    let first = app.draw(&mut StdRng::seed_from_u64(7));
    let second = app.draw(&mut StdRng::seed_from_u64(7));
    assert_eq!(first, second);
    let other = app.draw(&mut StdRng::seed_from_u64(8));
    assert_ne!(first, other);
}

#[test]
fn drawing_leaves_the_composer_as_it_was() {
    let (app, mut rng) = composer(100, 100, 42);
    let point = app.central_point();
    let _ = app.draw(&mut rng);
    let _ = app.draw(&mut rng);
    assert_eq!(app.central_point(), point);
    assert_eq!(app.width(), 100);
    assert_eq!(app.height(), 100);
    assert_eq!(app.palette(), &palette());
}

#[test]
fn drawing_from_a_fixed_seed() {
    let (app, mut rng) = composer(100, 100, 2024);
    assert_eq!(app.central_point(), (62_864, 50_409));
    let calls = app.draw(&mut rng);
    assert_eq!(calls.len(), 216);
    assert_eq!(calls[..6].to_vec(), background(100, 100));
    let black = || String::from("black");
    let expected = vec![
        CanvasCall::BeginPath,
        CanvasCall::MoveTo { to: Offset { angle: 1_184_145, radius: 71_968 } },
        CanvasCall::LineTo { to: Offset { angle: 5_782_720, radius: 108_258 } },
        CanvasCall::SetLineWidth { width: 1 },
        CanvasCall::SetStrokeStyle { color: black() },
        CanvasCall::Stroke,
        CanvasCall::BeginPath,
        CanvasCall::Arc { x: 83, y: 4, radius: 26, start: 223, end: 55 },
        CanvasCall::BeginPath,
        CanvasCall::MoveTo { to: Offset { angle: 1_973_168, radius: 104_137 } },
        CanvasCall::LineTo { to: Offset { angle: 4_688_153, radius: 71_407 } },
        CanvasCall::SetLineWidth { width: 2 },
        CanvasCall::SetStrokeStyle { color: black() },
        CanvasCall::Stroke,
    ];
    assert_eq!(calls[6..20].to_vec(), expected);
}
