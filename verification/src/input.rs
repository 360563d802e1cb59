//! What the player's keys and mouse do to a session and to the window.

use vstd::prelude::*;
use crate::audio::AudioEvent;
use crate::config::{ViewportSize, INIT_SCREEN_HEIGHT, INIT_SCREEN_WIDTH};
use crate::geometry::Vec2;
use crate::session::{GameSession, GameState, SessionModel};

verus! {

/// Left and upper edge of the area that toggles the sound (16 pixels).
pub const MUTE_AREA_MIN: i64 = 1600;

/// Right and lower edge of that area (64 pixels).
pub const MUTE_AREA_MAX: i64 = 6400;

/// The keys that mean something to the game.
#[derive(Clone, Copy, Debug, PartialEq, Eq, Structural)]
pub enum Key {
    Return,
    Space,
    F11,
    Escape,
    Other,
}

/// What the player asks of the game.
#[derive(Clone, Copy, Debug, PartialEq, Eq, Structural)]
pub enum InputEvent {
    StartRequested,
    JumpRequested,
    ToggleFullscreen,
    Quit,
}

/// What the window is asked to become.
#[derive(Clone, Copy, Debug, PartialEq, Eq, Structural)]
pub enum WindowRequest {
    /// Cover the whole screen.
    Fullscreen,
    /// Return to a window of the given size in pixels.
    Windowed { width: u32, height: u32 },
}

/// What a key press leads to outside the session.
#[derive(Clone, Copy, Debug, PartialEq, Eq, Structural)]
pub struct KeyOutcome {
    /// The application is asked to end.
    pub quit: bool,
    /// A sound to play.
    pub sound: Option<AudioEvent>,
    /// A change of the window.
    pub window: Option<WindowRequest>,
}

/// The mouse as last reported, its position in world units.
#[derive(Clone, Copy, Debug, PartialEq, Eq, Structural)]
pub struct Mouse {
    pub pos_x: i64,
    pub pos_y: i64,
    pub mouse_down: bool,
}

/// The button that toggles the sound: where it is drawn, in pixels, and the
/// size of its sprite.
#[derive(Clone, Copy, Debug, PartialEq, Eq, Structural)]
pub struct MuteBtn {
    pub position: Vec2,
    pub size: Vec2,
}

/// The state of window and sound that the player controls.
#[derive(Clone, Copy, Debug, PartialEq, Eq, Structural)]
pub struct Controls {
    pub fullscreen: bool,
    pub muted: bool,
    pub mute_btn: MuteBtn,
    pub mouse: Mouse,
}

/// The request that a key stands for in a session in the given state.
/// Space starts a session that has not started and asks for a jump otherwise.
pub open spec fn key_event(key: Key, state: GameState) -> Option<InputEvent> {
    match key {
        Key::Return => Some(InputEvent::StartRequested),
        Key::Space => if state is NotStarted {
            Some(InputEvent::StartRequested)
        } else {
            Some(InputEvent::JumpRequested)
        },
        Key::F11 => Some(InputEvent::ToggleFullscreen),
        Key::Escape => Some(InputEvent::Quit),
        Key::Other => None,
    }
}

/// Whether a position is inside the area that toggles the sound, edges included.
pub open spec fn in_mute_area(x: int, y: int) -> bool {
    MUTE_AREA_MIN <= x <= MUTE_AREA_MAX && MUTE_AREA_MIN <= y <= MUTE_AREA_MAX
}

impl SessionModel {
    /// The session after a request of the player.
    pub open spec fn handled(self, event: InputEvent, viewport: ViewportSize) -> SessionModel {
        match event {
            InputEvent::StartRequested => self.started(viewport),
            InputEvent::JumpRequested => self.jump_requested(),
            InputEvent::ToggleFullscreen => self,
            InputEvent::Quit => self,
        }
    }

    /// The sound that a request of the player asks for.
    pub open spec fn sound_of(self, event: InputEvent) -> Option<AudioEvent> {
        match event {
            InputEvent::StartRequested => if self.state is NotStarted {
                Some(AudioEvent::Begin)
            } else {
                None
            },
            InputEvent::JumpRequested => if self.jump_accepted() {
                Some(AudioEvent::Jump)
            } else {
                None
            },
            InputEvent::ToggleFullscreen => None,
            InputEvent::Quit => None,
        }
    }

    /// Whether a request of the player ends the application: any request
    /// does once the session is over, and the request to quit always does.
    pub open spec fn quits_on(self, event: InputEvent) -> bool {
        self.state is GameOver || event is Quit
    }
}

impl Controls {
    /// The controls after the player asked to switch between window and full screen.
    pub open spec fn toggled(self) -> Controls {
        Controls { fullscreen: !self.fullscreen, ..self }
    }

    /// The window request that goes with that switch.
    pub open spec fn toggle_request(self) -> WindowRequest {
        if self.fullscreen {
            WindowRequest::Windowed { width: INIT_SCREEN_WIDTH, height: INIT_SCREEN_HEIGHT }
        } else {
            WindowRequest::Fullscreen
        }
    }

    /// The controls after a press of the mouse button in a session in the
    /// given state: before the start, a press inside the mute area toggles
    /// the sound.
    pub open spec fn pressed(self, state: GameState) -> Controls {
        let mouse = Mouse { mouse_down: true, ..self.mouse };
        if state is NotStarted && in_mute_area(self.mouse.pos_x as int, self.mouse.pos_y as int) {
            Controls { muted: !self.muted, mouse, ..self }
        } else {
            Controls { mouse, ..self }
        }
    }

    /// Controls for a window that has just opened: windowed, sound on, the
    /// mute button in the upper left corner.
    pub fn new(mute_sprite_width: u32, mute_sprite_height: u32) -> (controls: Controls)
        ensures
            !controls.fullscreen,
            !controls.muted,
            controls.mute_btn == MuteBtn::spec_new(mute_sprite_width, mute_sprite_height),
            controls.mouse == (Mouse { pos_x: 10000, pos_y: 10000, mouse_down: false }),
    {
        Controls {
            fullscreen: false,
            muted: false,
            mute_btn: MuteBtn::new(mute_sprite_width, mute_sprite_height),
            mouse: Mouse { pos_x: 10000, pos_y: 10000, mouse_down: false },
        }
    }

    /// Switches between window and full screen and says what to ask of the window.
    pub fn toggle_fullscreen(&mut self) -> (request: WindowRequest)
        ensures
            *final(self) == old(self).toggled(),
            request == old(self).toggle_request(),
    {
        let request = if self.fullscreen {
            WindowRequest::Windowed { width: INIT_SCREEN_WIDTH, height: INIT_SCREEN_HEIGHT }
        } else {
            WindowRequest::Fullscreen
        };
        self.fullscreen = !self.fullscreen;
        request
    }

    /// The mouse has moved to a position given in world units.
    pub fn mouse_motion_event(&mut self, x: i64, y: i64)
        ensures
            *final(self) == (Controls {
                mouse: Mouse { pos_x: x, pos_y: y, mouse_down: old(self).mouse.mouse_down },
                ..*old(self)
            }),
    {
        self.mouse.pos_x = x;
        self.mouse.pos_y = y;
    }

    /// The mouse button went down while the session was in the given state.
    pub fn mouse_button_down_event(&mut self, state: GameState)
        ensures
            *final(self) == old(self).pressed(state),
    {
        self.mouse.mouse_down = true;
        match state {
            GameState::NotStarted => {
                if self.mouse.pos_x >= MUTE_AREA_MIN && self.mouse.pos_x <= MUTE_AREA_MAX
                    && self.mouse.pos_y >= MUTE_AREA_MIN && self.mouse.pos_y <= MUTE_AREA_MAX {
                    self.muted = !self.muted;
                }
            },
            _ => {},
        }
    }

    /// The mouse button went up.
    pub fn mouse_button_up_event(&mut self)
        ensures
            *final(self) == (Controls {
                mouse: Mouse { mouse_down: false, ..old(self).mouse },
                ..*old(self)
            }),
    {
        self.mouse.mouse_down = false;
    }
}

impl MuteBtn {
    pub open spec fn spec_new(sprite_width: u32, sprite_height: u32) -> MuteBtn {
        MuteBtn {
            position: Vec2 { x: 16, y: 16 },
            size: Vec2 { x: sprite_width as i64, y: sprite_height as i64 },
        }
    }

    /// The button for a sprite of the given size, 16 pixels from the left
    /// and from the top.
    pub fn new(sprite_width: u32, sprite_height: u32) -> (button: MuteBtn)
        ensures
            button == MuteBtn::spec_new(sprite_width, sprite_height),
    {
        MuteBtn {
            position: Vec2 { x: 16, y: 16 },
            size: Vec2 { x: sprite_width as i64, y: sprite_height as i64 },
        }
    }
}

/// The request that a key stands for.
pub fn event_for_key(key: Key, state: GameState) -> (event: Option<InputEvent>)
    ensures
        event == key_event(key, state),
{
    match key {
        Key::Return => Some(InputEvent::StartRequested),
        Key::Space => match state {
            GameState::NotStarted => Some(InputEvent::StartRequested),
            _ => Some(InputEvent::JumpRequested),
        },
        Key::F11 => Some(InputEvent::ToggleFullscreen),
        Key::Escape => Some(InputEvent::Quit),
        Key::Other => None,
    }
}

impl GameSession {
    /// Carries out a request of the player. Returns the sound to play and
    /// whether the application is asked to end.
    pub fn handle_event(&mut self, event: InputEvent, viewport: ViewportSize) -> (out: (
        Option<AudioEvent>,
        bool,
    ))
        ensures
            final(self)@ == old(self)@.handled(event, viewport),
            out.0 == old(self)@.sound_of(event),
            out.1 == old(self)@.quits_on(event),
            old(self)@.wf() ==> final(self)@.wf(),
    {
        let over = match self.state {
            GameState::GameOver => true,
            _ => false,
        };
        match event {
            InputEvent::StartRequested => (self.start(viewport), over),
            InputEvent::JumpRequested => (self.player_jump(), over),
            InputEvent::ToggleFullscreen => (None, over),
            InputEvent::Quit => (None, true),
        }
    }
}

/// A key went down. The session carries out what the key asks of it; the
/// outcome says whether to end the application, which sound to play and what
/// to ask of the window. Any key ends the application once the session is over.
pub fn key_down_event(
    session: &mut GameSession,
    controls: &mut Controls,
    key: Key,
    viewport: ViewportSize,
) -> (outcome: KeyOutcome)
    ensures
        match key_event(key, old(session).state) {
            Some(event) => {
                &&& final(session)@ == old(session)@.handled(event, viewport)
                &&& outcome.sound == old(session)@.sound_of(event)
                &&& outcome.quit == old(session)@.quits_on(event)
            },
            None => {
                &&& final(session)@ == old(session)@
                &&& outcome.sound.is_none()
                &&& outcome.quit == (old(session).state is GameOver)
            },
        },
        key is F11 ==> *final(controls) == old(controls).toggled() && outcome.window == Some(
            old(controls).toggle_request(),
        ),
        !(key is F11) ==> *final(controls) == *old(controls) && outcome.window.is_none(),
        old(session)@.wf() ==> final(session)@.wf(),
{
    let over = match session.state {
        GameState::GameOver => true,
        _ => false,
    };
    match event_for_key(key, session.state) {
        Some(InputEvent::ToggleFullscreen) => {
            let request = controls.toggle_fullscreen();
            KeyOutcome { quit: over, sound: None, window: Some(request) }
        },
        Some(event) => {
            let (sound, quit) = session.handle_event(event, viewport);
            KeyOutcome { quit, sound, window: None }
        },
        None => KeyOutcome { quit: over, sound: None, window: None },
    }
}

} // verus!
