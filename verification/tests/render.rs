use rustybird::config::ViewportSize;
use rustybird::geometry::Vec2;
use rustybird::input::Controls;
use rustybird::pipe::pipe_at_offset;
use rustybird::render::{scene, PipeSprites};
use rustybird::session::{GameSession, GameState};

fn screen() -> ViewportSize {
    ViewportSize::new(800, 600)
}

#[test]
fn before_the_start_the_frame_shows_title_hint_and_mute_button() {
    let session = GameSession::new(10, 10, 26, 160, screen());
    let mut controls = Controls::new(16, 16);
    let frame = scene(&session, &controls, screen());
    assert_eq!(frame.background, Vec2::new(30000, 30000));
    assert_eq!(frame.bird.dest, session.bird.position);
    assert_eq!(frame.bird.rotation, 0);
    assert!(frame.pipes.is_empty());
    assert_eq!(frame.title, Some(Vec2::new(40000, 20000)));
    assert_eq!(frame.start_hint, Some(Vec2::new(40000, 45000)));
    assert_eq!(frame.mute_button, Some((Vec2::new(1600, 1600), false)));
    assert_eq!(frame.score, None);
    assert_eq!(frame.game_over, None);
    controls.muted = true;
    let frame = scene(&session, &controls, screen());
    assert_eq!(frame.mute_button, Some((Vec2::new(1600, 1600), true)));
}

#[test]
fn a_running_session_shows_the_score_and_the_pipes() {
    let viewport = screen();
    let mut session = GameSession::new(10, 10, 26, 160, viewport);
    session.start(viewport);
    session.update_with(viewport, 10000);
    session.update_with(viewport, 10000);
    session.pipes.push(pipe_at_offset(viewport, 26, 160, 20000));
    session.score = 12;
    let frame = scene(&session, &Controls::new(16, 16), viewport);
    assert_eq!(
        frame.pipes,
        vec![
            PipeSprites { lower: Vec2::new(79600, 50000), upper: Vec2::new(79600, 30000) },
            PipeSprites { lower: Vec2::new(80000, 40000), upper: Vec2::new(80000, 20000) },
        ]
    );
    assert_eq!(frame.bird.dest, Vec2::new(20000, 30180));
    // 1.2 pixels per tick of a possible 7 tilt the bird by 120 * 6 / 7 milliradians
    assert_eq!(frame.bird.rotation, 102);
    assert_eq!(frame.score, Some(12));
    assert_eq!(frame.title, None);
    assert_eq!(frame.start_hint, None);
    assert_eq!(frame.mute_button, None);
    assert_eq!(frame.game_over, None);
}

#[test]
fn a_session_that_is_over_shows_the_closing_text() {
    let viewport = ViewportSize::new(1000, 700);
    let mut session = GameSession::new(10, 10, 26, 160, viewport);
    session.state = GameState::GameOver;
    session.score = 3;
    let frame = scene(&session, &Controls::new(16, 16), viewport);
    assert_eq!(frame.game_over, Some(Vec2::new(50000, 35000)));
    assert_eq!(frame.score, Some(3));
    assert_eq!(frame.title, None);
    assert_eq!(frame.background, Vec2::new(35000, 35000));
}

#[test]
fn a_third_of_the_height_is_rounded_down() {
    let viewport = ViewportSize::new(801, 601);
    let session = GameSession::new(10, 10, 26, 160, viewport);
    let frame = scene(&session, &Controls::new(16, 16), viewport);
    assert_eq!(frame.title, Some(Vec2::new(40050, 20033)));
    assert_eq!(frame.start_hint, Some(Vec2::new(40050, 45075)));
}
