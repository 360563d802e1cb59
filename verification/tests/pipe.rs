use rustybird::config::{ViewportSize, PIPE_GAP};
use rustybird::geometry::Rect;
use rustybird::pipe::{generate_pipe, offset_range, pipe_at_offset};

#[test]
fn the_offset_range_leaves_a_margin_above_the_bottom_and_below_the_middle() {
    assert_eq!(offset_range(ViewportSize::new(800, 600)), (8600, 21400));
    assert_eq!(offset_range(ViewportSize::new(800, 800)), (8600, 31400));
    assert_eq!(offset_range(ViewportSize::new(1, 345)), (8600, 8650));
}

#[test]
fn a_screen_too_low_gives_the_smallest_range() {
    assert_eq!(offset_range(ViewportSize::new(800, 344)), (8600, 8600));
    assert_eq!(offset_range(ViewportSize::new(800, 343)), (8600, 8600));
    assert_eq!(offset_range(ViewportSize::new(800, 100)), (8600, 8600));
    assert_eq!(offset_range(ViewportSize::new(800, 0)), (8600, 8600));
}

#[test]
fn a_pipe_enters_at_the_right_edge_with_the_fixed_gap() {
    let pipe = pipe_at_offset(ViewportSize::new(800, 600), 26, 160, 10000);
    assert_eq!(pipe.x, 80000);
    assert_eq!(pipe.gap_bottom_y, 50000);
    assert_eq!(pipe.gap_top_y, 30000);
    assert_eq!(pipe.gap_bottom_y - pipe.gap_top_y, PIPE_GAP);
    assert_eq!(pipe.sprite_width, 26);
    assert_eq!(pipe.sprite_height, 160);
    assert!(pipe.is_wf());
}

#[test]
fn the_barriers_lie_below_and_above_the_gap() {
    let pipe = pipe_at_offset(ViewportSize::new(800, 600), 26, 160, 10000);
    assert_eq!(pipe.hitbox_down, Rect::new(80000, 50000, 7800, 48000));
    assert_eq!(pipe.hitbox_up, Rect::new(80000, 30000 - 48000, 7800, 48000));
}

#[test]
fn the_hitboxes_follow_the_pipe() {
    let mut pipe = pipe_at_offset(ViewportSize::new(800, 600), 26, 160, 10000);
    pipe.x -= 400;
    assert!(!pipe.is_wf());
    pipe.update_hitboxes();
    assert_eq!(pipe.hitbox_down, Rect::new(79600, 50000, 7800, 48000));
    assert_eq!(pipe.hitbox_up, Rect::new(79600, -18000, 7800, 48000));
    assert!(pipe.is_wf());
}

#[test]
fn a_body_in_the_gap_touches_neither_barrier() {
    let pipe = pipe_at_offset(ViewportSize::new(800, 600), 26, 160, 10000);
    assert!(!pipe.hits(&Rect::new(80000, 30001, 1000, 19998)));
    assert!(pipe.hits(&Rect::new(80000, 30001, 1000, 19999)));
    assert!(pipe.hits(&Rect::new(80000, 30000, 1000, 100)));
    assert!(pipe.hits(&Rect::new(79000, 60000, 1000, 100)));
    assert!(!pipe.hits(&Rect::new(78999, 60000, 1000, 100)));
}

#[test]
fn a_generated_pipe_has_its_gap_within_the_range() {
    let viewport = ViewportSize::new(800, 600);
    for _ in 0..500 {
        let pipe = generate_pipe(viewport, 26, 160);
        assert_eq!(pipe.x, 80000);
        assert_eq!(pipe.gap_top_y, pipe.gap_bottom_y - PIPE_GAP);
        assert!(pipe.gap_bottom_y >= 60000 - 21400);
        assert!(pipe.gap_bottom_y <= 60000 - 8600);
        assert!(pipe.is_wf());
        assert_eq!(pipe, pipe_at_offset(viewport, 26, 160, 60000 - pipe.gap_bottom_y));
    }
}

#[test]
fn generated_pipes_differ() {
    let viewport = ViewportSize::new(800, 600);
    let first = generate_pipe(viewport, 26, 160);
    let mut differs = false;
    for _ in 0..200 {
        if generate_pipe(viewport, 26, 160).gap_bottom_y != first.gap_bottom_y {
            differs = true;
        }
    }
    assert!(differs);
}

#[test]
fn a_screen_too_low_still_gets_its_pipe() {
    let viewport = ViewportSize::new(800, 100);
    let pipe = generate_pipe(viewport, 26, 160);
    assert_eq!(pipe.x, 80000);
    assert_eq!(pipe.gap_bottom_y, 10000 - 8600);
    assert_eq!(pipe.gap_top_y, 10000 - 8600 - 20000);
    assert!(pipe.is_wf());
}
