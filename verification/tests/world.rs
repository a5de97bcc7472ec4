use walk_the_dog::game::{GameError, WalkTheDog};
use walk_the_dog::geometry::{Point, Rect};
use walk_the_dog::obstacle::{Barrier, Image, Obstacle, Platform};
use walk_the_dog::red_hat_boy::RedHatBoy;
use walk_the_dog::sheet::{Cell, Sheet};
use walk_the_dog::walk::{choose_segment_kind, rightmost, KeyInput, Walk};

fn cell() -> Cell {
    Cell {
        frame: Rect::new_from_x_y(0, 0, 160, 136),
        sprite_source_size: Point { x: 10, y: 20 },
    }
}

fn sheet() -> Sheet {
    Sheet {
        idle: vec![cell(); 10],
        run: vec![cell(); 8],
        slide: vec![cell(); 5],
        jump: vec![cell(); 12],
        dead: vec![cell(); 10],
    }
}

fn boy() -> RedHatBoy {
    RedHatBoy::new(sheet())
}

fn barrier_at(x: i16, y: i16, width: i16, height: i16) -> Obstacle {
    Obstacle::Barrier(Barrier::new(Image::new(Point { x, y }, width, height)))
}

fn backgrounds() -> (Image, Image) {
    (
        Image::new(Point { x: 0, y: 0 }, 600, 400),
        Image::new(Point { x: 600, y: 0 }, 600, 400),
    )
}

fn no_keys() -> KeyInput {
    KeyInput { slide: false, run: false, jump: false }
}

#[test]
fn touching_edges_do_not_intersect() {
    let a = Rect::new_from_x_y(0, 0, 10, 10);
    let b = Rect::new_from_x_y(10, 0, 10, 10);
    assert!(!a.intersects(&b));
    let c = Rect::new_from_x_y(9, 9, 10, 10);
    assert!(a.intersects(&c));
    let d = Rect::new_from_x_y(0, 10, 10, 10);
    assert!(!a.intersects(&d));
}

#[test]
fn rect_edges_derive_from_position_and_size() {
    let r = Rect::new_from_x_y(3, 4, 10, 20);
    assert_eq!(r.left(), 3);
    assert_eq!(r.right(), 13);
    assert_eq!(r.top(), 4);
    assert_eq!(r.bottom(), 24);
}

#[test]
fn platform_stores_absolute_boxes() {
    let boxes = vec![
        Rect::new_from_x_y(0, 0, 200, 50),
        Rect::new_from_x_y(200, 0, 180, 50),
    ];
    let platform = Platform::new(vec![cell()], Point { x: 100, y: 300 }, &boxes);
    let stored = platform.bounding_boxes();
    assert_eq!(stored[0], Rect::new_from_x_y(100, 300, 200, 50));
    assert_eq!(stored[1], Rect::new_from_x_y(300, 300, 180, 50));
}

#[test]
fn moving_an_obstacle_shifts_every_box_and_its_right_edge() {
    let boxes = vec![
        Rect::new_from_x_y(0, 0, 200, 50),
        Rect::new_from_x_y(200, 0, 180, 50),
    ];
    let mut obstacle = Obstacle::Platform(Platform::new(
        vec![cell()],
        Point { x: 100, y: 300 },
        &boxes,
    ));
    let right_before = obstacle.right();
    assert_eq!(right_before, 480);
    obstacle.move_horizontally(-30);
    assert_eq!(obstacle.right(), right_before - 30);
    match &obstacle {
        Obstacle::Platform(p) => {
            let stored = p.bounding_boxes();
            assert_eq!(stored[0], Rect::new_from_x_y(70, 300, 200, 50));
            assert_eq!(stored[1], Rect::new_from_x_y(270, 300, 180, 50));
            assert_eq!(p.position().x, 70);
        }
        Obstacle::Barrier(_) => panic!("expected a platform"),
    }

    let mut barrier = barrier_at(50, 400, 100, 80);
    assert_eq!(barrier.right(), 150);
    barrier.move_horizontally(-30);
    assert_eq!(barrier.right(), 120);
}

#[test]
fn rightmost_is_zero_for_an_empty_list_and_the_maximum_otherwise() {
    let empty: Vec<Obstacle> = vec![];
    assert_eq!(rightmost(&empty), 0);
    let list = vec![
        barrier_at(100, 400, 50, 50),
        barrier_at(700, 400, 50, 50),
        barrier_at(300, 400, 50, 50),
    ];
    assert_eq!(rightmost(&list), 750);
}

#[test]
fn barrier_collision_knocks_a_running_character_out() {
    let mut walk = Walk::new(
        boy(),
        backgrounds().0,
        backgrounds().1,
        vec![barrier_at(0, 500, 100, 100)],
        1500,
    );
    walk.update(&KeyInput { slide: false, run: true, jump: false }, vec![]);
    assert_eq!(walk.boy().frame_name(), "Dead");
    assert_eq!(walk.boy().context().velocity.x, 0);
}

#[test]
fn descending_character_lands_on_a_platform() {
    let mut boy = boy();
    boy.run_right();
    boy.jump();
    for _ in 0..30 {
        boy.update();
    }
    assert!(boy.velocity_y() > 0);
    assert_eq!(boy.pos_y(), 254);
    let platform = Obstacle::Platform(Platform::new(
        vec![cell()],
        Point { x: 0, y: 300 },
        &vec![Rect::new_from_x_y(0, 50, 200, 50)],
    ));
    platform.check_intersection(&mut boy);
    assert_eq!(boy.frame_name(), "Run");
    assert_eq!(boy.pos_y(), 350 - 121);
}

#[test]
fn ascending_character_is_knocked_out_by_a_platform() {
    let mut boy = boy();
    boy.run_right();
    boy.jump();
    boy.update();
    assert!(boy.velocity_y() < 0);
    let platform = Obstacle::Platform(Platform::new(
        vec![cell()],
        Point { x: 0, y: 300 },
        &vec![Rect::new_from_x_y(0, 150, 200, 50)],
    ));
    platform.check_intersection(&mut boy);
    assert_eq!(boy.frame_name(), "Dead");
}

#[test]
fn offscreen_obstacles_are_culled_on_the_next_tick() {
    let mut walk = Walk::new(
        boy(),
        backgrounds().0,
        backgrounds().1,
        vec![barrier_at(-150, 400, 100, 50), barrier_at(900, 400, 100, 50)],
        1500,
    );
    assert_eq!(walk.obstacles().len(), 2);
    walk.update(&no_keys(), vec![]);
    let remaining = walk.obstacles();
    assert_eq!(remaining.len(), 1);
    assert_eq!(remaining[0].right(), 1000);
    walk.update(&no_keys(), vec![]);
    assert_eq!(walk.obstacles().len(), 1);
}

#[test]
fn backgrounds_always_cover_the_viewport() {
    let mut walk = Walk::new(boy(), backgrounds().0, backgrounds().1, vec![], 1500);
    let keys = KeyInput { slide: false, run: true, jump: false };
    for _ in 0..400 {
        walk.update(&keys, vec![]);
        let (first, second) = walk.backgrounds();
        let a = *first.bounding_box();
        let b = *second.bounding_box();
        let left = std::cmp::min(a.x(), b.x());
        let right = std::cmp::max(a.right(), b.right());
        assert!(left <= 0);
        assert!(right >= 600);
        // the two tiles always sit edge to edge
        assert!(a.right() == b.x() || b.right() == a.x());
    }
}

#[test]
fn background_wraps_to_the_right_of_its_twin() {
    let mut walk = Walk::new(boy(), backgrounds().0, backgrounds().1, vec![], 1500);
    let keys = KeyInput { slide: false, run: true, jump: false };
    // 151 ticks at speed 4 drag the first tile fully off the left edge
    for _ in 0..151 {
        walk.update(&keys, vec![]);
    }
    let (first, second) = walk.backgrounds();
    assert_eq!(second.bounding_box().x(), -4);
    assert_eq!(first.bounding_box().x(), 596);
}

#[test]
fn low_timeline_installs_the_new_segment_and_replenishes() {
    let mut walk = Walk::new(boy(), backgrounds().0, backgrounds().1, vec![], 900);
    assert!(walk.needs_new_segment());
    assert_eq!(walk.next_segment_start(), 920);
    walk.update(&no_keys(), vec![barrier_at(920, 400, 380, 50)]);
    assert_eq!(walk.timeline(), 1300);
    assert!(!walk.needs_new_segment());
    assert_eq!(walk.obstacles().len(), 1);
}

#[test]
fn high_timeline_scrolls_with_the_world() {
    let mut walk = Walk::new(boy(), backgrounds().0, backgrounds().1, vec![], 1500);
    walk.update(&no_keys(), vec![]);
    assert_eq!(walk.timeline(), 1500);
    let keys = KeyInput { slide: false, run: true, jump: false };
    walk.update(&keys, vec![]);
    assert_eq!(walk.timeline(), 1496);
}

#[test]
fn velocity_is_the_negated_walking_speed() {
    let mut walk = Walk::new(boy(), backgrounds().0, backgrounds().1, vec![], 1500);
    assert_eq!(walk.velocity(), 0);
    walk.update(&KeyInput { slide: false, run: true, jump: false }, vec![]);
    assert_eq!(walk.velocity(), -4);
}

#[test]
fn game_starts_loading_and_initializes_exactly_once() {
    let game = WalkTheDog::new();
    assert!(game.walk().is_none());
    let walk = Walk::new(boy(), backgrounds().0, backgrounds().1, vec![], 1500);
    let game = game.initialize(walk).expect("first initialization succeeds");
    assert!(game.walk().is_some());
    let walk_again = Walk::new(boy(), backgrounds().0, backgrounds().1, vec![], 1500);
    match game.initialize(walk_again) {
        Err(GameError::AlreadyInitialized) => {}
        Ok(_) => panic!("second initialization must fail"),
    }
}

#[test]
fn game_error_describes_double_initialization() {
    assert_eq!(
        GameError::AlreadyInitialized.message(),
        "Error: Game is already initialized!"
    );
}

#[test]
fn updates_are_no_ops_while_loading() {
    let mut game = WalkTheDog::new();
    game.update(&KeyInput { slide: true, run: true, jump: true }, vec![]);
    assert!(game.walk().is_none());
}

#[test]
fn loaded_game_forwards_updates_to_the_world() {
    let walk = Walk::new(boy(), backgrounds().0, backgrounds().1, vec![], 1500);
    let mut game = WalkTheDog::new().initialize(walk).expect("initializes");
    game.update(&KeyInput { slide: false, run: true, jump: false }, vec![]);
    let walk = game.walk().expect("loaded");
    assert_eq!(walk.boy().frame_name(), "Run");
    assert_eq!(walk.timeline(), 1496);
}

#[test]
fn segment_choice_names_one_of_the_two_generators() {
    for _ in 0..100 {
        assert!(choose_segment_kind() < 2);
    }
}

#[test]
fn platform_cells_are_drawn_side_by_side() {
    let cells = vec![
        Cell {
            frame: Rect::new_from_x_y(0, 0, 160, 136),
            sprite_source_size: Point { x: 10, y: 20 },
        },
        Cell {
            frame: Rect::new_from_x_y(160, 0, 140, 136),
            sprite_source_size: Point { x: 10, y: 20 },
        },
    ];
    let platform = Platform::new(
        cells,
        Point { x: 100, y: 300 },
        &vec![Rect::new_from_x_y(0, 0, 300, 50)],
    );
    let rects = platform.sprite_draw_rects();
    assert_eq!(rects.len(), 2);
    assert_eq!(rects[0].0, Rect::new_from_x_y(0, 0, 160, 136));
    assert_eq!(rects[0].1, Rect::new_from_x_y(100, 300, 160, 136));
    assert_eq!(rects[1].0, Rect::new_from_x_y(160, 0, 140, 136));
    assert_eq!(rects[1].1, Rect::new_from_x_y(260, 300, 140, 136));
}

#[test]
fn inputs_apply_as_slide_then_run_then_jump() {
    let mut walk = Walk::new(boy(), backgrounds().0, backgrounds().1, vec![], 1500);
    walk.update(&KeyInput { slide: true, run: true, jump: true }, vec![]);
    assert_eq!(walk.boy().frame_name(), "Jump");
}

#[test]
fn slide_key_crouches_a_running_character() {
    let mut walk = Walk::new(boy(), backgrounds().0, backgrounds().1, vec![], 1500);
    walk.update(&KeyInput { slide: false, run: true, jump: false }, vec![]);
    assert_eq!(walk.boy().frame_name(), "Run");
    walk.update(&KeyInput { slide: true, run: false, jump: false }, vec![]);
    assert_eq!(walk.boy().frame_name(), "Slide");
}

#[test]
fn timeline_is_never_low_two_ticks_in_a_row() {
    let mut walk = Walk::new(boy(), backgrounds().0, backgrounds().1, vec![], 900);
    let keys = KeyInput { slide: false, run: true, jump: false };
    let mut was_low = false;
    let mut generations = 0;
    for _ in 0..200 {
        let low = walk.needs_new_segment();
        assert!(!(low && was_low), "timeline stayed low across two ticks");
        let segment = if low {
            generations += 1;
            vec![barrier_at(walk.next_segment_start(), 400, 380, 50)]
        } else {
            vec![]
        };
        walk.update(&keys, segment);
        was_low = low;
    }
    assert!(generations >= 2);
}
