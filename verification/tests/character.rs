use walk_the_dog::geometry::{Point, Rect};
use walk_the_dog::red_hat_boy::RedHatBoy;
use walk_the_dog::red_hat_boy_states::RedHatBoyState;
use walk_the_dog::sheet::{Cell, Sheet};
use walk_the_dog::state_machine::{Event, RedHatBoyStateMachine};

fn cell() -> Cell {
    Cell {
        frame: Rect::new_from_x_y(0, 0, 160, 136),
        sprite_source_size: Point { x: 10, y: 20 },
    }
}

fn sheet() -> Sheet {
    Sheet {
        idle: vec![cell(); 10],
        run: vec![cell(); 8],
        slide: vec![cell(); 5],
        jump: vec![cell(); 12],
        dead: vec![cell(); 10],
    }
}

fn idle_machine() -> RedHatBoyStateMachine {
    RedHatBoyStateMachine::Idle(RedHatBoyState::new())
}

#[test]
fn new_character_starts_idle_on_the_floor() {
    let boy = RedHatBoy::new(sheet());
    assert_eq!(boy.frame_name(), "Idle");
    let ctx = boy.context();
    assert_eq!(ctx.frame, 0);
    assert_eq!(ctx.position, Point { x: -20, y: 479 });
    assert_eq!(ctx.velocity, Point { x: 0, y: 0 });
}

#[test]
fn run_event_starts_running_with_speed_and_frame_reset() {
    let mut boy = RedHatBoy::new(sheet());
    boy.update();
    boy.update();
    assert_eq!(boy.context().frame, 2);
    boy.run_right();
    assert_eq!(boy.frame_name(), "Run");
    assert_eq!(boy.context().velocity.x, 4);
    assert_ne!(boy.context().velocity.x, 0);
    assert_eq!(boy.context().frame, 0);
}

#[test]
fn unhandled_events_leave_the_state_unchanged() {
    let m = idle_machine();
    let before = *m.context();
    let after = m.transition(Event::Slide);
    assert_eq!(after.frame_name(), "Idle");
    assert_eq!(*after.context(), before);
    let after = idle_machine().transition(Event::Jump);
    assert_eq!(after.frame_name(), "Idle");
    assert_eq!(*after.context(), before);
    let after = idle_machine().transition(Event::KnockOut);
    assert_eq!(after.frame_name(), "Idle");
    assert_eq!(*after.context(), before);
    let after = idle_machine().transition(Event::Land(300));
    assert_eq!(after.frame_name(), "Idle");
    assert_eq!(*after.context(), before);
}

#[test]
fn idle_frame_counter_cycles_through_its_threshold() {
    let mut m = idle_machine();
    for _ in 0..7 {
        m = m.update();
    }
    assert_eq!(m.context().frame, 7);
    for _ in 7..29 {
        m = m.update();
    }
    assert_eq!(m.context().frame, 29);
    m = m.update();
    assert_eq!(m.context().frame, 0);
    for _ in 0..30 {
        m = m.update();
    }
    assert_eq!(m.context().frame, 0);
    assert_eq!(m.frame_name(), "Idle");
}

#[test]
fn gravity_builds_up_to_the_terminal_cap_and_no_further() {
    let mut m = idle_machine();
    for tick in 1..=25 {
        m = m.update();
        let vy = m.context().velocity.y;
        assert!(vy <= 20);
        assert_eq!(vy, std::cmp::min(tick, 20));
    }
    assert_eq!(m.context().velocity.y, 20);
}

#[test]
fn landing_reanchors_y_and_keeps_x_and_velocity() {
    let mut m = idle_machine().transition(Event::Run);
    for _ in 0..3 {
        m = m.update();
    }
    let before = *m.context();
    let landed = m.transition(Event::Land(300));
    assert_eq!(landed.frame_name(), "Run");
    assert_eq!(landed.context().position.y, 300 - 121);
    assert_eq!(landed.context().position.x, before.position.x);
    assert_eq!(landed.context().velocity, before.velocity);
    // landing mid-run must not restart the run cycle
    assert_eq!(landed.context().frame, before.frame);
    assert_eq!(before.frame, 3);

    let sliding = idle_machine()
        .transition(Event::Run)
        .transition(Event::Slide)
        .transition(Event::Land(300));
    assert_eq!(sliding.frame_name(), "Slide");
    assert_eq!(sliding.context().position.y, 300 - 121);
}

#[test]
fn sliding_stands_back_up_at_its_threshold() {
    let mut m = idle_machine().transition(Event::Run).transition(Event::Slide);
    assert_eq!(m.frame_name(), "Slide");
    assert_eq!(m.context().frame, 0);
    for _ in 0..13 {
        m = m.update();
        assert_eq!(m.frame_name(), "Slide");
    }
    assert_eq!(m.context().frame, 13);
    m = m.update();
    assert_eq!(m.frame_name(), "Run");
    assert_eq!(m.context().frame, 0);
}

#[test]
fn jump_returns_to_the_floor_and_runs_again() {
    let mut boy = RedHatBoy::new(sheet());
    boy.run_right();
    boy.jump();
    assert_eq!(boy.frame_name(), "Jump");
    assert_eq!(boy.velocity_y(), -23);
    for _ in 0..45 {
        boy.update();
        assert_eq!(boy.frame_name(), "Jump");
        assert!(boy.pos_y() < 479);
    }
    boy.update();
    assert_eq!(boy.frame_name(), "Run");
    assert_eq!(boy.pos_y(), 479);
    assert_eq!(boy.context().frame, 0);
}

#[test]
fn knock_out_plays_the_fall_and_settles_knocked_out() {
    let mut m = idle_machine().transition(Event::Run).transition(Event::KnockOut);
    assert_eq!(m.frame_name(), "Dead");
    assert_eq!(m.context().velocity.x, 0);
    assert_eq!(m.context().frame, 0);
    for _ in 0..28 {
        m = m.update();
    }
    assert_eq!(m.context().frame, 28);
    m = m.update();
    assert_eq!(m.context().frame, 29);
    let y = m.context().position.y;
    m = m.update();
    assert_eq!(m.context().frame, 29);
    assert_eq!(m.frame_name(), "Dead");
    assert!(m.context().position.y >= y);
}

#[test]
fn update_clamps_to_the_floor_without_resetting_velocity() {
    let mut m = idle_machine();
    for _ in 0..5 {
        m = m.update();
    }
    assert_eq!(m.context().position.y, 479);
    assert_eq!(m.context().velocity.y, 5);
}

#[test]
fn current_sprite_follows_the_frame_counter() {
    let mut special = sheet();
    special.idle[2] = Cell {
        frame: Rect::new_from_x_y(320, 0, 160, 136),
        sprite_source_size: Point { x: 10, y: 20 },
    };
    let mut boy = RedHatBoy::new(special);
    for _ in 0..6 {
        boy.update();
    }
    assert_eq!(boy.context().frame, 6);
    let sprite = boy.current_sprite().expect("sheet covers the idle frames");
    assert_eq!(sprite.frame.x(), 320);
}

#[test]
fn bounding_box_is_the_inset_destination_box() {
    let boy = RedHatBoy::new(sheet());
    let dest = boy.destination_box();
    assert_eq!(dest, Rect::new_from_x_y(-10, 499, 160, 136));
    let bb = boy.bounding_box();
    assert_eq!(bb, Rect::new_from_x_y(8, 513, 132, 122));
}

#[test]
fn no_event_leaves_the_knocked_out_state() {
    let mut m = idle_machine().transition(Event::Run).transition(Event::KnockOut);
    for _ in 0..29 {
        m = m.update();
    }
    assert_eq!(m.frame_name(), "Dead");
    let before = *m.context();
    for event in [Event::Run, Event::Jump, Event::Slide, Event::KnockOut, Event::Land(300)] {
        let after = m.transition(event);
        assert_eq!(after.frame_name(), "Dead");
        assert_eq!(*after.context(), before);
    }
}
