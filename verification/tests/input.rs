use rustybird::audio::{AudioEvent, PitchBias};
use rustybird::config::ViewportSize;
use rustybird::geometry::Vec2;
use rustybird::input::{
    event_for_key, key_down_event, Controls, InputEvent, Key, KeyOutcome, MuteBtn, WindowRequest,
};
use rustybird::session::{GameSession, GameState};

fn screen() -> ViewportSize {
    ViewportSize::new(800, 600)
}

fn fresh() -> (GameSession, Controls) {
    (GameSession::new(10, 10, 26, 160, screen()), Controls::new(16, 16))
}

#[test]
fn what_the_keys_stand_for() {
    for state in [GameState::NotStarted, GameState::Running, GameState::GameOver] {
        assert_eq!(event_for_key(Key::Return, state), Some(InputEvent::StartRequested));
        assert_eq!(event_for_key(Key::F11, state), Some(InputEvent::ToggleFullscreen));
        assert_eq!(event_for_key(Key::Escape, state), Some(InputEvent::Quit));
        assert_eq!(event_for_key(Key::Other, state), None);
    }
    assert_eq!(event_for_key(Key::Space, GameState::NotStarted), Some(InputEvent::StartRequested));
    assert_eq!(event_for_key(Key::Space, GameState::Running), Some(InputEvent::JumpRequested));
    assert_eq!(event_for_key(Key::Space, GameState::GameOver), Some(InputEvent::JumpRequested));
}

#[test]
fn return_starts_the_session() {
    let (mut session, mut controls) = fresh();
    let outcome = key_down_event(&mut session, &mut controls, Key::Return, screen());
    assert_eq!(outcome, KeyOutcome { quit: false, sound: Some(AudioEvent::Begin), window: None });
    assert_eq!(session.state, GameState::Running);
    assert_eq!(session.bird.position, Vec2::new(20000, 30000));
    let outcome = key_down_event(&mut session, &mut controls, Key::Return, screen());
    assert_eq!(outcome, KeyOutcome { quit: false, sound: None, window: None });
    assert_eq!(session.state, GameState::Running);
}

#[test]
fn space_starts_and_then_jumps() {
    let (mut session, mut controls) = fresh();
    let outcome = key_down_event(&mut session, &mut controls, Key::Space, screen());
    assert_eq!(outcome.sound, Some(AudioEvent::Begin));
    assert_eq!(session.state, GameState::Running);
    assert_eq!(session.bird.velocity.y, 0);
    let outcome = key_down_event(&mut session, &mut controls, Key::Space, screen());
    assert_eq!(outcome, KeyOutcome { quit: false, sound: Some(AudioEvent::Jump), window: None });
    assert_eq!(session.bird.velocity.y, -1350);
    let outcome = key_down_event(&mut session, &mut controls, Key::Space, screen());
    assert_eq!(outcome, KeyOutcome { quit: false, sound: None, window: None });
}

#[test]
fn escape_asks_to_quit() {
    let (mut session, mut controls) = fresh();
    let outcome = key_down_event(&mut session, &mut controls, Key::Escape, screen());
    assert_eq!(outcome, KeyOutcome { quit: true, sound: None, window: None });
    assert_eq!(session.state, GameState::NotStarted);
}

#[test]
fn other_keys_do_nothing_while_the_session_is_not_over() {
    let (mut session, mut controls) = fresh();
    let outcome = key_down_event(&mut session, &mut controls, Key::Other, screen());
    assert_eq!(outcome, KeyOutcome { quit: false, sound: None, window: None });
    session.start(screen());
    let outcome = key_down_event(&mut session, &mut controls, Key::Other, screen());
    assert_eq!(outcome, KeyOutcome { quit: false, sound: None, window: None });
}

#[test]
fn any_key_asks_to_quit_once_the_session_is_over() {
    for key in [Key::Return, Key::Space, Key::Escape, Key::Other] {
        let (mut session, mut controls) = fresh();
        session.state = GameState::GameOver;
        let bird = session.bird;
        let outcome = key_down_event(&mut session, &mut controls, key, screen());
        assert_eq!(outcome, KeyOutcome { quit: true, sound: None, window: None });
        assert_eq!(session.state, GameState::GameOver);
        assert_eq!(session.bird, bird);
    }
    let (mut session, mut controls) = fresh();
    session.state = GameState::GameOver;
    let outcome = key_down_event(&mut session, &mut controls, Key::F11, screen());
    assert_eq!(
        outcome,
        KeyOutcome { quit: true, sound: None, window: Some(WindowRequest::Fullscreen) }
    );
}

#[test]
fn requests_in_a_session_that_is_over() {
    let (mut session, _) = fresh();
    session.state = GameState::GameOver;
    for event in [
        InputEvent::StartRequested,
        InputEvent::JumpRequested,
        InputEvent::ToggleFullscreen,
        InputEvent::Quit,
    ] {
        assert_eq!(session.handle_event(event, screen()), (None, true));
        assert_eq!(session.state, GameState::GameOver);
        assert_eq!(session.score, 0);
    }
}

#[test]
fn only_the_request_to_quit_ends_a_session_that_is_not_over() {
    let (mut session, _) = fresh();
    assert_eq!(session.handle_event(InputEvent::ToggleFullscreen, screen()), (None, false));
    assert_eq!(session.handle_event(InputEvent::JumpRequested, screen()), (None, false));
    assert_eq!(session.handle_event(InputEvent::Quit, screen()), (None, true));
    assert_eq!(session.state, GameState::NotStarted);
}

#[test]
fn f11_switches_between_full_screen_and_window() {
    let (mut session, mut controls) = fresh();
    assert!(!controls.fullscreen);
    let outcome = key_down_event(&mut session, &mut controls, Key::F11, screen());
    assert_eq!(
        outcome,
        KeyOutcome { quit: false, sound: None, window: Some(WindowRequest::Fullscreen) }
    );
    assert!(controls.fullscreen);
    let outcome = key_down_event(&mut session, &mut controls, Key::F11, screen());
    assert_eq!(
        outcome.window,
        Some(WindowRequest::Windowed { width: 800, height: 600 })
    );
    assert!(!controls.fullscreen);
    assert_eq!(session.state, GameState::NotStarted);
}

#[test]
fn a_click_on_the_mute_button_before_the_start_toggles_the_sound() {
    let mut controls = Controls::new(16, 16);
    assert!(!controls.muted);
    controls.mouse_motion_event(3000, 4000);
    controls.mouse_button_down_event(GameState::NotStarted);
    assert!(controls.muted);
    assert!(controls.mouse.mouse_down);
    controls.mouse_button_up_event();
    assert!(!controls.mouse.mouse_down);
    assert!(controls.muted);
    controls.mouse_button_down_event(GameState::NotStarted);
    assert!(!controls.muted);
}

#[test]
fn the_edges_of_the_mute_button_count() {
    for (x, y, inside) in [
        (1600, 1600, true),
        (6400, 6400, true),
        (1600, 6400, true),
        (1599, 3000, false),
        (6401, 3000, false),
        (3000, 1599, false),
        (3000, 6401, false),
    ] {
        let mut controls = Controls::new(16, 16);
        controls.mouse_motion_event(x, y);
        controls.mouse_button_down_event(GameState::NotStarted);
        assert_eq!(controls.muted, inside, "at {} {}", x, y);
    }
}

#[test]
fn a_click_after_the_start_does_not_toggle_the_sound() {
    for state in [GameState::Running, GameState::GameOver] {
        let mut controls = Controls::new(16, 16);
        controls.mouse_motion_event(3000, 3000);
        controls.mouse_button_down_event(state);
        assert!(!controls.muted);
        assert!(controls.mouse.mouse_down);
    }
}

#[test]
fn new_controls() {
    let controls = Controls::new(16, 24);
    assert!(!controls.fullscreen);
    assert!(!controls.muted);
    assert_eq!(controls.mouse.pos_x, 10000);
    assert_eq!(controls.mouse.pos_y, 10000);
    assert!(!controls.mouse.mouse_down);
    assert_eq!(controls.mute_btn, MuteBtn::new(16, 24));
    assert_eq!(controls.mute_btn.position, Vec2::new(16, 16));
    assert_eq!(controls.mute_btn.size, Vec2::new(16, 24));
}

#[test]
fn the_pitch_of_each_sound() {
    assert_eq!(AudioEvent::Begin.pitch_bias(), PitchBias::Level);
    assert_eq!(AudioEvent::Jump.pitch_bias(), PitchBias::Down);
    assert_eq!(AudioEvent::Score.pitch_bias(), PitchBias::Up);
    assert_eq!(AudioEvent::Collision.pitch_bias(), PitchBias::Level);
}
