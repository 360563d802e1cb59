use rustybird::bird::{draw_player, initiate_player, rescale_range, Bird};
use rustybird::config::{
    ViewportSize, GRAVITY, JUMP_COOLDOWN, JUMP_VELOCITY, MAX_VELOCITY,
};
use rustybird::geometry::{Rect, Vec2, WORLD_LIMIT};

fn screen() -> ViewportSize {
    ViewportSize::new(800, 600)
}

#[test]
fn a_new_bird_rests_left_of_and_above_the_middle() {
    let bird = initiate_player(16, 12, screen());
    assert_eq!(bird.position, Vec2::new(20000, 30000 - 12800));
    assert_eq!(bird.velocity, Vec2::new(0, 0));
    assert_eq!(bird.jump_cd, 0);
    assert_eq!(bird.sprite_width, 16);
    assert_eq!(bird.sprite_height, 12);
    assert!(bird.is_wf());
}

#[test]
fn the_hitbox_is_centred_and_nine_tenths_of_the_drawn_sprite() {
    let bird = initiate_player(16, 12, screen());
    // 16 px * 3 * 0.9 = 43.2 px wide, 12 px * 3 * 0.9 = 32.4 px high
    assert_eq!(bird.hitbox, Rect::new(20000 - 2160, 17200 - 1620, 4320, 3240));
}

#[test]
fn the_hitbox_follows_the_bird() {
    let mut bird = initiate_player(16, 12, screen());
    bird.apply_gravity_and_move();
    assert_eq!(bird.position, Vec2::new(20000, 17260));
    assert_eq!(bird.hitbox, Rect::new(20000 - 2160, 17260 - 1620, 4320, 3240));
    bird.place(Vec2::new(100, 200));
    assert_eq!(bird.hitbox, Rect::new(100 - 2160, 200 - 1620, 4320, 3240));
    assert!(bird.is_wf());
}

#[test]
fn gravity_accelerates_up_to_the_cap_and_then_holds() {
    let mut bird = initiate_player(16, 12, screen());
    let mut last = bird.velocity.y;
    for tick in 1..=26 {
        bird.apply_gravity_and_move();
        assert_eq!(bird.velocity.y, tick * GRAVITY);
        assert!(bird.velocity.y >= last);
        last = bird.velocity.y;
    }
    assert_eq!(bird.velocity.y, 1560);
    bird.apply_gravity_and_move();
    assert_eq!(bird.velocity.y, 1620);
    assert!(bird.velocity.y >= MAX_VELOCITY);
    for _ in 0..10 {
        bird.apply_gravity_and_move();
        assert_eq!(bird.velocity.y, 1620);
    }
}

#[test]
fn movement_adds_the_velocity_to_the_position() {
    let mut bird = initiate_player(16, 12, screen());
    bird.velocity = Vec2::new(25, -1350);
    bird.apply_gravity_and_move();
    assert_eq!(bird.velocity, Vec2::new(25, -1290));
    assert_eq!(bird.position, Vec2::new(20025, 17200 - 1290));
}

#[test]
fn the_bird_stops_at_the_edge_of_the_world() {
    let mut bird = initiate_player(16, 12, screen());
    bird.place(Vec2::new(-WORLD_LIMIT, WORLD_LIMIT));
    bird.velocity = Vec2::new(-500, 1620);
    bird.apply_gravity_and_move();
    assert_eq!(bird.position, Vec2::new(-WORLD_LIMIT, WORLD_LIMIT));
    assert!(bird.is_wf());
}

#[test]
fn a_jump_sets_velocity_and_cooldown() {
    let mut bird = initiate_player(16, 12, screen());
    bird.velocity = Vec2::new(7, 900);
    assert!(bird.jump());
    assert_eq!(bird.velocity, Vec2::new(0, JUMP_VELOCITY));
    assert_eq!(bird.jump_cd, JUMP_COOLDOWN);
}

#[test]
fn a_second_jump_right_away_is_refused() {
    let mut bird = initiate_player(16, 12, screen());
    assert!(bird.jump());
    bird.apply_gravity_and_move();
    let before = bird;
    assert!(!bird.jump());
    assert_eq!(bird, before);
}

#[test]
fn a_jump_is_accepted_with_a_negative_cooldown() {
    let mut bird = initiate_player(16, 12, screen());
    bird.jump_cd = -40;
    assert!(bird.jump());
    assert_eq!(bird.velocity.y, -1350);
}

#[test]
fn the_cooldown_runs_out_after_a_quarter_of_a_second() {
    let mut bird = initiate_player(16, 12, screen());
    assert!(bird.jump());
    for _ in 0..14 {
        bird.tick_cooldown(1);
    }
    assert_eq!(bird.jump_cd, 1);
    assert!(!bird.jump());
    bird.tick_cooldown(1);
    assert_eq!(bird.jump_cd, 0);
    assert!(bird.jump());
}

#[test]
fn the_cooldown_goes_below_zero_and_stops_at_the_smallest_number() {
    let mut bird = initiate_player(16, 12, screen());
    bird.tick_cooldown(3);
    assert_eq!(bird.jump_cd, -3);
    bird.jump_cd = i64::MIN + 2;
    bird.tick_cooldown(5);
    assert_eq!(bird.jump_cd, i64::MIN);
    bird.tick_cooldown(1);
    assert_eq!(bird.jump_cd, i64::MIN);
}

#[test]
fn rescaling_maps_one_range_onto_another() {
    assert_eq!(rescale_range(0, 0, 10, 0, 100), 0);
    assert_eq!(rescale_range(5, 0, 10, 0, 100), 50);
    assert_eq!(rescale_range(10, 0, 10, 0, 100), 100);
    assert_eq!(rescale_range(3, 0, 10, 20, 30), 23);
    assert_eq!(rescale_range(-2, -4, 4, 100, 200), 125);
}

#[test]
fn rescaling_clamps_what_lies_outside() {
    assert_eq!(rescale_range(-7, 0, 10, 0, 100), 0);
    assert_eq!(rescale_range(11, 0, 10, 0, 100), 100);
    assert_eq!(rescale_range(i64::MAX, 0, 10, 0, 100), 100);
    assert_eq!(rescale_range(i64::MIN, 0, 10, 0, 100), 0);
}

#[test]
fn rescaling_rounds_down() {
    assert_eq!(rescale_range(1, 0, 3, 0, 10), 3);
    assert_eq!(rescale_range(2, 0, 3, 0, 10), 6);
    assert_eq!(rescale_range(1, 0, 3, -10, 0), -7);
}

#[test]
fn the_tilt_follows_the_vertical_velocity() {
    let mut bird = initiate_player(16, 12, screen());
    let still = draw_player(&bird);
    assert_eq!(still.dest, bird.position);
    assert_eq!(still.rotation, 0);
    assert_eq!(still.offset, Vec2::new(50, 50));
    bird.velocity.y = 350;
    assert_eq!(draw_player(&bird).rotation, 300);
    bird.velocity.y = -350;
    assert_eq!(draw_player(&bird).rotation, -300);
    bird.velocity.y = 700;
    assert_eq!(draw_player(&bird).rotation, 600);
    bird.velocity.y = -1;
    assert_eq!(draw_player(&bird).rotation, -1);
}

#[test]
fn the_tilt_is_capped_either_way() {
    let mut bird = initiate_player(16, 12, screen());
    bird.velocity.y = 1620;
    assert_eq!(draw_player(&bird).rotation, 600);
    bird.velocity.y = JUMP_VELOCITY;
    assert_eq!(draw_player(&bird).rotation, -600);
}

#[test]
fn a_stale_hitbox_is_noticed() {
    let mut bird: Bird = initiate_player(16, 12, screen());
    bird.position.y += 1;
    assert!(!bird.is_wf());
    bird.update_hitbox();
    assert!(bird.is_wf());
    bird.velocity.x = WORLD_LIMIT + 1;
    assert!(!bird.is_wf());
}
