use bouncing_sprite::app::Motion;
use bouncing_sprite::geometry::Vector2;
use bouncing_sprite::registry::{
    Registry, Session, SessionState, TargetSize, TICKS_PER_SECOND, TICK_MILLIS,
};
use bouncing_sprite::sprite::{load_to_pixel_map, PixelMap, Rgb};
use rand::rngs::StdRng;
use rand::SeedableRng;

fn at(x: i64, y: i64) -> Vector2 {
    Vector2 { x, y }
}

fn initial(width: u16, height: u16) -> SessionState {
    SessionState {
        target: TargetSize { width, height },
        motion: Motion { offset: at(0, 0), velocity: at(-3, -2) },
    }
}

fn rng(seed: u64) -> StdRng {
    StdRng::seed_from_u64(seed)
}

fn dot_field(shade: u8) -> PixelMap {
    load_to_pixel_map(1, 1, &[shade, shade, shade]).unwrap()
}

#[test]
fn new_registry_is_empty() {
    let registry = Registry::new();
    assert_eq!(registry.len(), 0);
    assert!(!registry.contains(0));
    assert_eq!(registry.state(0), None);
}

#[test]
fn open_registers_a_session_in_its_initial_state() {
    let mut registry = Registry::new();
    registry.open(7, rng(7));
    assert_eq!(registry.len(), 1);
    assert!(registry.contains(7));
    assert!(!registry.contains(8));
    assert_eq!(registry.state(7), Some(initial(0, 0)));
}

#[test]
fn open_twice_replaces_the_session() {
    let mut registry = Registry::new();
    registry.open(7, StdRng::seed_from_u64(1));
    assert!(registry.resize(7, 80, 24));
    let normal = dot_field(1);
    let scared = dot_field(2);
    registry.tick(&normal, &scared);
    assert_ne!(registry.state(7), Some(initial(0, 0)));
    registry.open(7, StdRng::seed_from_u64(2));
    assert_eq!(registry.len(), 1);
    assert_eq!(registry.state(7), Some(initial(0, 0)));
}

#[test]
fn session_opens_resizes_and_flies() {
    let mut registry = Registry::new();
    registry.open(0, StdRng::seed_from_u64(3));
    assert!(registry.resize(0, 80, 24));
    let state = registry.state(0).unwrap();
    assert_eq!(state.target, TargetSize { width: 80, height: 24 });
    assert_eq!(state.motion.offset, at(0, 0));
    assert_eq!(state.motion.velocity, at(-3, -2));
    // Fifty ticks without a reflection need more room than 80 by 24.
    assert!(registry.resize(0, 2000, 2000));
    assert_eq!(registry.state(0).unwrap().motion.offset, at(0, 0));
    let normal = dot_field(1);
    let scared = dot_field(2);
    for _ in 0..50 {
        registry.tick(&normal, &scared);
    }
    let state = registry.state(0).unwrap();
    assert_eq!(state.motion.velocity, at(-3, -2));
    let x = state.motion.offset.x as f64 / 2.0;
    let y = state.motion.offset.y as f64 / 2.0;
    assert!((x - -75.0).abs() < 1e-9);
    assert!((y - -50.0).abs() < 1e-9);
}

#[test]
fn resize_leaves_the_sprite_where_it_is() {
    let mut registry = Registry::new();
    registry.open(4, StdRng::seed_from_u64(3));
    registry.resize(4, 2000, 2000);
    let normal = dot_field(1);
    let scared = dot_field(2);
    for _ in 0..30 {
        registry.tick(&normal, &scared);
    }
    let before = registry.state(4).unwrap();
    assert_eq!(before.motion.offset, at(-90, -60));
    // The new target is far smaller than the offset: nothing is corrected.
    assert!(registry.resize(4, 10, 5));
    let after = registry.state(4).unwrap();
    assert_eq!(after.target, TargetSize { width: 10, height: 5 });
    assert_eq!(after.motion, before.motion);
}

#[test]
fn resize_of_an_unknown_session_changes_nothing() {
    let mut registry = Registry::new();
    registry.open(1, rng(1));
    assert!(!registry.resize(2, 80, 24));
    assert_eq!(registry.len(), 1);
    assert_eq!(registry.state(1), Some(initial(0, 0)));
    assert_eq!(registry.state(2), None);
}

#[test]
fn remove_twice_is_remove_once() {
    let mut registry = Registry::new();
    registry.open(1, rng(1));
    registry.open(2, rng(2));
    registry.open(3, rng(3));
    registry.remove(2);
    assert_eq!(registry.len(), 2);
    assert!(!registry.contains(2));
    registry.remove(2);
    assert_eq!(registry.len(), 2);
    assert!(registry.contains(1));
    assert!(registry.contains(3));
    assert_eq!(registry.state(1), Some(initial(0, 0)));
}

#[test]
fn remove_of_a_session_never_opened_is_silent() {
    let mut registry = Registry::new();
    registry.remove(5);
    assert_eq!(registry.len(), 0);
    registry.open(6, rng(6));
    registry.remove(5);
    assert_eq!(registry.len(), 1);
    assert!(registry.contains(6));
}

#[test]
fn tick_gives_one_frame_for_each_session() {
    let mut registry = Registry::new();
    for id in [5, 9, 2] {
        registry.open(id, StdRng::seed_from_u64(id));
        registry.resize(id, 1000, 100 + id as u16);
    }
    let normal = dot_field(1);
    let scared = dot_field(2);
    let frames = registry.tick(&normal, &scared);
    assert_eq!(frames.len(), 3);
    let mut ids: Vec<u64> = frames.iter().map(|f| f.id).collect();
    ids.sort();
    assert_eq!(ids, vec![2, 5, 9]);
    for frame in &frames {
        let state = registry.state(frame.id).unwrap();
        assert_eq!(state.motion.offset, at(-3, -2));
        assert_eq!(frame.dots.len(), 1);
        // x - offset.x = 0 + 1.5 cells; height - y + offset.y = height - 1 cells.
        let height = 100 + frame.id as i64;
        assert_eq!(frame.dots[0].at, at(3, 2 * height - 2));
        assert_eq!(frame.dots[0].color, Rgb { r: 1, g: 1, b: 1 });
    }
}

#[test]
fn tick_of_an_empty_registry_draws_nothing() {
    let mut registry = Registry::new();
    let normal = dot_field(1);
    let scared = dot_field(2);
    assert!(registry.tick(&normal, &scared).is_empty());
    assert_eq!(registry.len(), 0);
}

#[test]
fn tick_skips_a_session_that_was_removed() {
    let mut registry = Registry::new();
    registry.open(1, rng(1));
    registry.open(2, rng(2));
    registry.remove(1);
    let normal = dot_field(1);
    let scared = dot_field(2);
    let frames = registry.tick(&normal, &scared);
    assert_eq!(frames.len(), 1);
    assert_eq!(frames[0].id, 2);
    assert_eq!(registry.state(1), None);
}

#[test]
fn sessions_move_independently() {
    let mut registry = Registry::new();
    registry.open(1, StdRng::seed_from_u64(10));
    registry.open(2, StdRng::seed_from_u64(10));
    registry.resize(1, 80, 24);
    registry.resize(2, 200, 60);
    let normal = dot_field(1);
    let scared = dot_field(2);
    for _ in 0..300 {
        registry.tick(&normal, &scared);
    }
    let a = registry.state(1).unwrap();
    let b = registry.state(2).unwrap();
    assert_eq!(a.target, TargetSize { width: 80, height: 24 });
    assert_eq!(b.target, TargetSize { width: 200, height: 60 });
    assert_ne!(a.motion, b.motion);
}

#[test]
fn session_draw_keeps_id_and_target() {
    let mut session = Session::new(12, StdRng::seed_from_u64(1));
    session.target = TargetSize { width: 500, height: 40 };
    let normal = dot_field(1);
    let scared = dot_field(2);
    let frame = session.draw(&normal, &scared);
    assert_eq!(frame.id, 12);
    assert_eq!(session.id, 12);
    assert_eq!(session.target, TargetSize { width: 500, height: 40 });
    assert_eq!(session.app.offset, at(-3, -2));
    assert_eq!(frame.dots.len(), 1);
    assert_eq!(frame.dots[0].at, at(3, 78));
}

#[test]
fn request_sizes_keep_their_low_sixteen_bits() {
    assert_eq!(TargetSize::from_request(80, 24), TargetSize { width: 80, height: 24 });
    assert_eq!(TargetSize::from_request(65_535, 0), TargetSize { width: 65_535, height: 0 });
    assert_eq!(
        TargetSize::from_request(65_536 + 80, 131_072 + 24),
        TargetSize { width: 80, height: 24 }
    );
    assert_eq!(TargetSize::from_request(u32::MAX, 65_536), TargetSize { width: 65_535, height: 0 });
}

#[test]
fn scheduler_ticks_thirty_times_a_second() {
    assert_eq!(TICKS_PER_SECOND, 30);
    assert_eq!(TICK_MILLIS, 33);
}
