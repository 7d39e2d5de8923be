use chaos_game::game::ChaosGame;
use chaos_game::game::HistoryMode;
use chaos_game::game::InvariantViolation;
use chaos_game::game::VertexSet;
use chaos_game::game::random_point;
use chaos_game::point::Color;
use chaos_game::point::Point;
use chaos_game::point::SCREEN_HEIGHT;
use chaos_game::point::SCREEN_WIDTH;
use chaos_game::point::TRACER_SIDE;
use chaos_game::point::mid_of;
use chaos_game::point::midpoint;

fn tracer_at(x: u32, y: u32) -> Point {
    Point { x, y, width: 1, height: 1, color: Color::white() }
}

fn marker_at(x: u32, y: u32) -> Point {
    Point { x, y, width: 10, height: 10, color: Color::green() }
}

fn triangle_game(mode: HistoryMode) -> ChaosGame {
    let vertices = VertexSet::from_points(vec![
        marker_at(0, 0),
        marker_at(800, 0),
        marker_at(400, 800),
    ])
    .unwrap();
    ChaosGame::from_parts(vertices, tracer_at(400, 400), mode)
}

#[test]
fn vertex_set_points_lie_on_screen() {
    let set = VertexSet::initialize(3, 10, 10, Color::green()).unwrap();
    assert_eq!(set.len(), 3);
    for i in 0..set.len() {
        let p = set.get(i);
        assert!(p.x < SCREEN_WIDTH);
        assert!(p.y < SCREEN_HEIGHT);
        assert_eq!(p.width, 10);
        assert_eq!(p.height, 10);
        assert_eq!(p.color, Color::green());
    }
}

#[test]
fn seed_tracer_lies_on_screen() {
    let game = ChaosGame::load(HistoryMode::Full);
    assert_eq!(game.vertex_count(), 3);
    let seed = game.current();
    assert!(seed.x < SCREEN_WIDTH);
    assert!(seed.y < SCREEN_HEIGHT);
    assert_eq!(seed.width, TRACER_SIDE);
    assert_eq!(seed.height, TRACER_SIDE);
    assert_eq!(seed.color, Color::white());
}

#[test]
fn random_points_lie_on_screen() {
    for _ in 0..1000 {
        let p = random_point(1, 1, Color::white());
        assert!(p.x < SCREEN_WIDTH);
        assert!(p.y < SCREEN_HEIGHT);
    }
}

#[test]
fn midpoint_is_the_floored_mean() {
    assert_eq!(mid_of(3, 8), 5);
    assert_eq!(mid_of(8, 3), 5);
    assert_eq!(mid_of(0, 1), 0);
    assert_eq!(mid_of(799, 0), 399);
    assert_eq!(mid_of(400, 400), 400);
    assert_eq!(mid_of(u32::MAX, u32::MAX), u32::MAX);
    assert_eq!(mid_of(u32::MAX, 0), u32::MAX / 2);
    let p = midpoint(&tracer_at(3, 7), &marker_at(8, 2));
    assert_eq!((p.x, p.y), (5, 4));
    let q = midpoint(&tracer_at(0, 0), &marker_at(1, 3));
    assert_eq!((q.x, q.y), (0, 1));
}

#[test]
fn produced_point_has_fresh_tracer_attributes() {
    let origin = marker_at(10, 10);
    let target = marker_at(20, 20);
    let p = midpoint(&origin, &target);
    assert_eq!(p.width, TRACER_SIDE);
    assert_eq!(p.height, TRACER_SIDE);
    assert_eq!(p.color, Color::white());
    assert!(p.width != target.width);
    assert!(p.height != target.height);
    assert!(p.color != target.color);
}

#[test]
fn tracer_never_leaves_the_screen() {
    let mut game = ChaosGame::load(HistoryMode::Full);
    for _ in 0..2000 {
        game.step();
        let p = game.current();
        assert!(p.x < SCREEN_WIDTH);
        assert!(p.y < SCREEN_HEIGHT);
    }
}

#[test]
fn tracer_stays_in_the_bounding_box() {
    // The box spanned by the seed and the vertices of the triangle game.
    let mut game = triangle_game(HistoryMode::Full);
    for _ in 0..2000 {
        game.step();
        let p = game.current();
        assert!(p.x <= 800);
        assert!(p.y <= 800);
    }
}

#[test]
fn history_grows_by_one_per_step() {
    let mut game = triangle_game(HistoryMode::Full);
    assert_eq!(game.history_len(), 1);
    for k in 1..=200 {
        game.step();
        assert_eq!(game.history_len(), 1 + k);
    }
}

#[test]
fn history_elements_are_never_mutated() {
    let mut game = triangle_game(HistoryMode::Full);
    for _ in 0..50 {
        game.step();
    }
    let before: Vec<Point> = (0..game.history_len()).map(|i| game.history_at(i)).collect();
    for _ in 0..50 {
        game.step();
    }
    for (i, p) in before.iter().enumerate() {
        assert_eq!(game.history_at(i), *p);
    }
}

#[test]
fn last_only_keeps_a_single_point() {
    let mut game = triangle_game(HistoryMode::LastOnly);
    for _ in 0..100 {
        game.step();
        assert_eq!(game.history_len(), 1);
        assert_eq!(game.history_at(0), game.current());
    }
}

#[test]
fn produced_style_differs_from_the_vertex_style() {
    let mut game = ChaosGame::load(HistoryMode::LastOnly);
    for _ in 0..100 {
        game.step();
        let p = game.current();
        for i in 0..game.vertex_count() {
            let v = game.vertex_at(i);
            assert!(p.width != v.width);
            assert!(p.height != v.height);
            assert!(p.color != v.color);
        }
    }
}

#[test]
fn choice_is_roughly_uniform() {
    let vertices = VertexSet::from_points(vec![
        marker_at(0, 0),
        marker_at(100, 0),
        marker_at(200, 0),
    ])
    .unwrap();
    let trials = 30_000usize;
    let mut counts = [0usize; 3];
    for _ in 0..trials {
        let p = vertices.pick_vertex();
        counts[(p.x / 100) as usize] += 1;
    }
    let expected = trials as f64 / 3.0;
    let tolerance = trials as f64 * 0.05;
    for c in counts {
        assert!((c as f64 - expected).abs() < tolerance, "counts: {:?}", counts);
    }
}

#[test]
fn picked_vertex_is_always_a_member() {
    let only = marker_at(123, 456);
    let vertices = VertexSet::from_points(vec![only]).unwrap();
    for _ in 0..100 {
        assert_eq!(vertices.pick_vertex(), only);
    }
    let pair = VertexSet::from_points(vec![marker_at(1, 2), marker_at(3, 4)]).unwrap();
    for _ in 0..100 {
        let p = pair.pick_vertex();
        assert!(p == pair.get(0) || p == pair.get(1));
    }
}

#[test]
fn forced_choices_follow_the_scenario() {
    let mut game = triangle_game(HistoryMode::Full);
    game.step_toward(marker_at(0, 0));
    let first = game.current();
    assert_eq!((first.x, first.y), (200, 200));
    game.step_toward(marker_at(800, 0));
    let second = game.current();
    assert_eq!((second.x, second.y), (500, 100));
}

#[test]
fn single_vertex_absorbs_the_tracer() {
    let vertex = marker_at(100, 100);
    let vertices = VertexSet::from_points(vec![vertex]).unwrap();
    let mut game = ChaosGame::from_parts(vertices, tracer_at(400, 400), HistoryMode::LastOnly);
    let mut last_distance = 300u32;
    let mut reached = false;
    for _ in 0..30 {
        game.step();
        let p = game.current();
        let distance = (p.x - vertex.x).max(p.y - vertex.y);
        assert!(distance <= last_distance);
        last_distance = distance;
        if distance == 0 {
            reached = true;
            break;
        }
    }
    assert!(reached);
    game.step();
    let p = game.current();
    assert_eq!((p.x, p.y), (vertex.x, vertex.y));
}

#[test]
fn empty_vertex_set_is_rejected() {
    let r = VertexSet::initialize(0, 10, 10, Color::green());
    assert_eq!(r.unwrap_err(), InvariantViolation::EmptyVertexSet);
    let r = VertexSet::from_points(Vec::new());
    assert_eq!(r.unwrap_err(), InvariantViolation::EmptyVertexSet);
}

#[test]
fn renderable_points_list_vertices_then_history() {
    let mut game = triangle_game(HistoryMode::Full);
    game.step_toward(marker_at(0, 0));
    let points = game.renderable_points();
    assert_eq!(points.len(), 5);
    assert_eq!(points[0], marker_at(0, 0));
    assert_eq!(points[1], marker_at(800, 0));
    assert_eq!(points[2], marker_at(400, 800));
    assert_eq!(points[3], tracer_at(400, 400));
    assert_eq!(points[4], tracer_at(200, 200));
}

#[test]
fn renderable_points_under_last_only() {
    let mut game = triangle_game(HistoryMode::LastOnly);
    game.step_toward(marker_at(0, 0));
    game.step_toward(marker_at(800, 0));
    let points = game.renderable_points();
    assert_eq!(points.len(), 4);
    assert_eq!(points[3], tracer_at(500, 100));
}
