use vstd::prelude::*;

use crate::effects::{
    advance_effect_index,
    lemma_cycle_returns_after_all_effects,
    effect_at,
    effect_sequence,
    next_effect_index,
    previous_effect_index,
    spec_next_effect_index,
    spec_previous_effect_index,
    PostProcessingEffects,
    EFFECT_COUNT,
};

verus! {

/// Keyboard scancodes the viewer reacts to.
pub const SCANCODE_ESCAPE: u32 = 1;
pub const SCANCODE_W: u32 = 17;
pub const SCANCODE_A: u32 = 30;
pub const SCANCODE_S: u32 = 31;
pub const SCANCODE_D: u32 = 32;
pub const SCANCODE_T: u32 = 20;
pub const SCANCODE_Y: u32 = 21;
pub const SCANCODE_Z: u32 = 44;
pub const SCANCODE_X: u32 = 45;
pub const SCANCODE_F: u32 = 33;
pub const SCANCODE_LEFT_SHIFT: u32 = 42;

/// Number of movement keys (W, A, S, D), in that order.
pub const MOVEMENT_KEY_COUNT: usize = 4;

/// Time between two frames, in nanoseconds: at most 60 frames per second.
pub const FRAME_INTERVAL_NANOS: u64 = 16_666_667;

/// What a keyboard key means to the viewer.
#[derive(Clone, Copy, Debug, PartialEq, Eq, Structural)]
pub enum Key {
    /// Leaves the viewer.
    Escape,
    /// A movement key; the number is its slot in the pressed-keys array
    /// (0: W, 1: A, 2: S, 3: D).
    Movement(usize),
    /// T: brightens the directional light.
    BrightenLight,
    /// Y: dims the directional light.
    DimLight,
    /// Z: selects the previous post-processing effect.
    PreviousEffect,
    /// X: selects the next post-processing effect.
    NextEffect,
    /// F: switches the flashlight on or off.
    Flashlight,
    /// Left shift: run while held.
    Run,
    /// Any other key, with its scancode.
    Unknown(u32),
}

/// The meaning of a scancode.
pub open spec fn spec_key_for_scancode(code: u32) -> Key {
    if code == SCANCODE_ESCAPE {
        Key::Escape
    } else if code == SCANCODE_W {
        Key::Movement(0)
    } else if code == SCANCODE_A {
        Key::Movement(1)
    } else if code == SCANCODE_S {
        Key::Movement(2)
    } else if code == SCANCODE_D {
        Key::Movement(3)
    } else if code == SCANCODE_T {
        Key::BrightenLight
    } else if code == SCANCODE_Y {
        Key::DimLight
    } else if code == SCANCODE_Z {
        Key::PreviousEffect
    } else if code == SCANCODE_X {
        Key::NextEffect
    } else if code == SCANCODE_F {
        Key::Flashlight
    } else if code == SCANCODE_LEFT_SHIFT {
        Key::Run
    } else {
        Key::Unknown(code)
    }
}

/// Classifies a keyboard scancode.
pub fn key_for_scancode(code: u32) -> (key: Key)
    ensures
        key == spec_key_for_scancode(code),
        key matches Key::Movement(slot) ==> slot < MOVEMENT_KEY_COUNT,
{
    match code {
        SCANCODE_ESCAPE => Key::Escape,
        SCANCODE_W => Key::Movement(0),
        SCANCODE_A => Key::Movement(1),
        SCANCODE_S => Key::Movement(2),
        SCANCODE_D => Key::Movement(3),
        SCANCODE_T => Key::BrightenLight,
        SCANCODE_Y => Key::DimLight,
        SCANCODE_Z => Key::PreviousEffect,
        SCANCODE_X => Key::NextEffect,
        SCANCODE_F => Key::Flashlight,
        SCANCODE_LEFT_SHIFT => Key::Run,
        other => Key::Unknown(other),
    }
}

/// Why the event loop woke up with new events.
#[derive(Clone, Copy, Debug, PartialEq, Eq, Structural)]
pub enum WakeCause {
    /// The loop has just started.
    Init,
    /// The frame timer set after the previous frame has expired.
    ResumeTimeReached,
    /// Any other cause.
    Other,
}

/// An event of the window system, reduced to what the controls decide on.
#[derive(Clone, Copy, Debug, PartialEq, Eq, Structural)]
pub enum ControlEvent {
    /// The window is asked to close.
    CloseRequested,
    /// A key changed state.
    KeyboardInput { scancode: u32, pressed: bool },
    /// The cursor moved inside the window.
    CursorMoved,
    /// The cursor entered the window.
    CursorEntered,
    /// The cursor left the window.
    CursorLeft,
    /// The mouse wheel turned; `in_lines` when the delta is given in lines.
    MouseWheel { in_lines: bool },
    /// The window was resized.
    Resized,
    /// Any other window event.
    OtherWindowEvent,
    /// The loop woke up for new events.
    NewEvents(WakeCause),
    /// Any other event.
    Other,
}

/// Speed of the camera.
#[derive(Clone, Copy, Debug, PartialEq, Eq, Structural)]
pub enum CameraSpeed {
    Walking,
    Running,
}

/// What the event loop has to do in answer to an event.
#[derive(Clone, Copy, Debug, PartialEq, Eq, Structural)]
pub enum Command {
    /// Stop the event loop; no frame is drawn.
    Exit,
    /// Do nothing and draw no frame.
    Skip,
    /// Nothing to do but draw the next frame.
    Redraw,
    /// Raise the directional light's intensity by one step, then draw.
    BrightenDirectionalLight,
    /// Lower the directional light's intensity by one step if it is above
    /// zero, then draw.
    DimDirectionalLight,
    /// Rebuild the framebuffer program with this effect, then draw.
    UsePostProcessing(PostProcessingEffects),
    /// Give the spot light its on (`true`) or off colours, then draw.
    SetFlashlight(bool),
    /// Set the camera's speed, then draw.
    SetCameraSpeed(CameraSpeed),
    /// Report an unknown key's scancode, then draw.
    ReportUnknownKey(u32),
    /// Take the cursor's offset from the window's middle as the mouse
    /// movement when `capture_delta`, move the cursor back to the middle,
    /// then draw.
    TrackCursor { capture_delta: bool },
    /// Zoom the camera by the wheel's lines and recompute the projection,
    /// then draw.
    Zoom,
    /// Recompute the projection for the new window size, then draw.
    Reproject,
}

/// Whether a frame is drawn after the command.
pub open spec fn spec_draws_frame(command: Command) -> bool {
    !(command is Exit || command is Skip)
}

/// Whether a frame is drawn after the command.
pub fn draws_frame(command: &Command) -> (draws: bool)
    ensures
        draws == spec_draws_frame(*command),
{
    match command {
        Command::Exit => false,
        Command::Skip => false,
        _ => true,
    }
}

/// The state that the controls keep between events.
pub struct ControlModel {
    /// Whether W, A, S and D are held, in that order.
    pub pressed_keys: Seq<bool>,
    /// Index of the selected post-processing effect.
    pub selected_effect: nat,
    /// Whether the flashlight is on.
    pub flashlight: bool,
    /// Whether the cursor is inside the window.
    pub cursor_in_window: bool,
    /// Whether the cursor has been moved back to the window's middle since
    /// it last entered the window.
    pub cursor_centered: bool,
}

impl ControlModel {
    /// A state that the controls can be in.
    pub open spec fn wf(self) -> bool {
        &&& self.pressed_keys.len() == MOVEMENT_KEY_COUNT
        &&& self.selected_effect < EFFECT_COUNT
    }

    /// The state when the viewer starts.
    pub open spec fn initial() -> ControlModel {
        ControlModel {
            pressed_keys: seq![false, false, false, false],
            selected_effect: 0,
            flashlight: true,
            cursor_in_window: false,
            cursor_centered: false,
        }
    }

    /// The effect that is selected.
    pub open spec fn effect(self) -> PostProcessingEffects {
        effect_sequence()[self.selected_effect as int]
    }
}

/// The state after a key event.
pub open spec fn spec_after_key(m: ControlModel, key: Key, pressed: bool) -> ControlModel {
    match key {
        Key::Movement(slot) => ControlModel {
            pressed_keys: m.pressed_keys.update(slot as int, pressed),
            ..m
        },
        Key::PreviousEffect => if pressed {
            m
        } else {
            ControlModel { selected_effect: spec_previous_effect_index(m.selected_effect), ..m }
        },
        Key::NextEffect => if pressed {
            m
        } else {
            ControlModel { selected_effect: spec_next_effect_index(m.selected_effect), ..m }
        },
        Key::Flashlight => if pressed {
            m
        } else {
            ControlModel { flashlight: !m.flashlight, ..m }
        },
        _ => m,
    }
}

/// The command for a key event.
pub open spec fn spec_key_command(m: ControlModel, key: Key, pressed: bool) -> Command {
    match key {
        Key::Escape => Command::Exit,
        Key::Movement(_) => Command::Redraw,
        Key::BrightenLight => Command::BrightenDirectionalLight,
        Key::DimLight => Command::DimDirectionalLight,
        Key::PreviousEffect => if pressed {
            Command::Redraw
        } else {
            Command::UsePostProcessing(
                effect_sequence()[spec_previous_effect_index(m.selected_effect) as int],
            )
        },
        Key::NextEffect => if pressed {
            Command::Redraw
        } else {
            Command::UsePostProcessing(
                effect_sequence()[spec_next_effect_index(m.selected_effect) as int],
            )
        },
        Key::Flashlight => if pressed {
            Command::Redraw
        } else {
            Command::SetFlashlight(!m.flashlight)
        },
        Key::Run => Command::SetCameraSpeed(
            if pressed {
                CameraSpeed::Running
            } else {
                CameraSpeed::Walking
            },
        ),
        Key::Unknown(code) => Command::ReportUnknownKey(code),
    }
}

/// The state after an event.
pub open spec fn spec_next_state(m: ControlModel, event: ControlEvent) -> ControlModel {
    match event {
        ControlEvent::KeyboardInput { scancode, pressed } => spec_after_key(
            m,
            spec_key_for_scancode(scancode),
            pressed,
        ),
        ControlEvent::CursorMoved => ControlModel { cursor_centered: true, ..m },
        ControlEvent::CursorEntered => ControlModel { cursor_in_window: true, ..m },
        ControlEvent::CursorLeft => ControlModel {
            cursor_in_window: false,
            cursor_centered: false,
            ..m
        },
        _ => m,
    }
}

/// The command for an event.
pub open spec fn spec_command(m: ControlModel, event: ControlEvent) -> Command {
    match event {
        ControlEvent::CloseRequested => Command::Exit,
        ControlEvent::KeyboardInput { scancode, pressed } => spec_key_command(
            m,
            spec_key_for_scancode(scancode),
            pressed,
        ),
        ControlEvent::CursorMoved => Command::TrackCursor {
            capture_delta: m.cursor_in_window && m.cursor_centered,
        },
        ControlEvent::CursorEntered => Command::Redraw,
        ControlEvent::CursorLeft => Command::Redraw,
        ControlEvent::MouseWheel { in_lines } => if in_lines {
            Command::Zoom
        } else {
            Command::Redraw
        },
        ControlEvent::Resized => Command::Reproject,
        ControlEvent::OtherWindowEvent => Command::Skip,
        ControlEvent::NewEvents(cause) => match cause {
            WakeCause::Other => Command::Skip,
            _ => Command::Redraw,
        },
        ControlEvent::Other => Command::Skip,
    }
}

/// The viewer's control state: held movement keys, selected effect,
/// flashlight and cursor tracking.
pub struct ControlState {
    pressed_keys: [bool; 4],
    selected_effect: usize,
    flashlight: bool,
    cursor_in_window: bool,
    cursor_centered: bool,
}

impl View for ControlState {
    type V = ControlModel;

    closed spec fn view(&self) -> ControlModel {
        ControlModel {
            pressed_keys: self.pressed_keys@,
            selected_effect: self.selected_effect as nat,
            flashlight: self.flashlight,
            cursor_in_window: self.cursor_in_window,
            cursor_centered: self.cursor_centered,
        }
    }
}

impl ControlState {
    #[verifier::type_invariant]
    spec fn selection_in_range(self) -> bool {
        self.selected_effect < EFFECT_COUNT
    }

    /// The state when the viewer starts: no key held, no effect, flashlight
    /// on, cursor outside the window.
    pub fn new() -> (state: ControlState)
        ensures
            state@ == ControlModel::initial(),
    {
        let state = ControlState {
            pressed_keys: [false, false, false, false],
            selected_effect: 0,
            flashlight: true,
            cursor_in_window: false,
            cursor_centered: false,
        };
        assert(state@.pressed_keys =~= seq![false, false, false, false]);
        state
    }

    /// Whether W, A, S and D are held, in that order.
    pub fn pressed_keys(&self) -> (keys: [bool; 4])
        ensures
            keys@ == self@.pressed_keys,
    {
        self.pressed_keys
    }

    /// Index of the selected post-processing effect.
    pub fn selected_effect_index(&self) -> (index: usize)
        ensures
            index == self@.selected_effect,
            index < EFFECT_COUNT,
    {
        proof {
            use_type_invariant(self);
        }
        self.selected_effect
    }

    /// The selected post-processing effect.
    pub fn selected_effect(&self) -> (effect: PostProcessingEffects)
        ensures
            effect == self@.effect(),
    {
        proof {
            use_type_invariant(self);
        }
        effect_at(self.selected_effect)
    }

    /// Whether the flashlight is on.
    pub fn flashlight_on(&self) -> (on: bool)
        ensures
            on == self@.flashlight,
    {
        self.flashlight
    }

    /// Whether the cursor is inside the window.
    pub fn cursor_in_window(&self) -> (inside: bool)
        ensures
            inside == self@.cursor_in_window,
    {
        self.cursor_in_window
    }

    /// Whether the cursor has been moved back to the window's middle since it
    /// last entered the window.
    pub fn cursor_centered(&self) -> (centered: bool)
        ensures
            centered == self@.cursor_centered,
    {
        self.cursor_centered
    }

    /// Updates the state for a key event and says what the loop must do.
    fn handle_key(&mut self, key: Key, pressed: bool) -> (command: Command)
        requires
            key matches Key::Movement(slot) ==> slot < MOVEMENT_KEY_COUNT,
        ensures
            final(self)@ == spec_after_key(old(self)@, key, pressed),
            command == spec_key_command(old(self)@, key, pressed),
    {
        proof {
            use_type_invariant(&*self);
        }
        match key {
            Key::Escape => Command::Exit,
            Key::Movement(slot) => {
                let mut keys = self.pressed_keys;
                keys[slot] = pressed;
                self.pressed_keys = keys;
                Command::Redraw
            },
            Key::BrightenLight => Command::BrightenDirectionalLight,
            Key::DimLight => Command::DimDirectionalLight,
            Key::PreviousEffect => {
                if pressed {
                    Command::Redraw
                } else {
                    let index = previous_effect_index(self.selected_effect);
                    self.selected_effect = index;
                    Command::UsePostProcessing(effect_at(index))
                }
            },
            Key::NextEffect => {
                if pressed {
                    Command::Redraw
                } else {
                    let index = next_effect_index(self.selected_effect);
                    self.selected_effect = index;
                    Command::UsePostProcessing(effect_at(index))
                }
            },
            Key::Flashlight => {
                if pressed {
                    Command::Redraw
                } else {
                    self.flashlight = !self.flashlight;
                    Command::SetFlashlight(self.flashlight)
                }
            },
            Key::Run => {
                if pressed {
                    Command::SetCameraSpeed(CameraSpeed::Running)
                } else {
                    Command::SetCameraSpeed(CameraSpeed::Walking)
                }
            },
            Key::Unknown(code) => Command::ReportUnknownKey(code),
        }
    }

    /// Updates the state for an event and says what the event loop must do.
    pub fn handle_event(&mut self, event: ControlEvent) -> (command: Command)
        ensures
            final(self)@ == spec_next_state(old(self)@, event),
            command == spec_command(old(self)@, event),
            final(self)@.wf(),
    {
        proof {
            use_type_invariant(&*self);
        }
        let command = match event {
            ControlEvent::CloseRequested => Command::Exit,
            ControlEvent::KeyboardInput { scancode, pressed } => {
                let key = key_for_scancode(scancode);
                self.handle_key(key, pressed)
            },
            ControlEvent::CursorMoved => {
                let capture_delta = self.cursor_in_window && self.cursor_centered;
                self.cursor_centered = true;
                Command::TrackCursor { capture_delta }
            },
            ControlEvent::CursorEntered => {
                self.cursor_in_window = true;
                Command::Redraw
            },
            ControlEvent::CursorLeft => {
                self.cursor_in_window = false;
                self.cursor_centered = false;
                Command::Redraw
            },
            ControlEvent::MouseWheel { in_lines } => {
                if in_lines {
                    Command::Zoom
                } else {
                    Command::Redraw
                }
            },
            ControlEvent::Resized => Command::Reproject,
            ControlEvent::OtherWindowEvent => Command::Skip,
            ControlEvent::NewEvents(cause) => match cause {
                WakeCause::Other => Command::Skip,
                _ => Command::Redraw,
            },
            ControlEvent::Other => Command::Skip,
        };
        proof {
            use_type_invariant(&*self);
        }
        command
    }
}

/// The state after a sequence of events, handled in order.
pub open spec fn spec_run(m: ControlModel, events: Seq<ControlEvent>) -> ControlModel
    decreases events.len(),
{
    if events.len() == 0 {
        m
    } else {
        spec_next_state(spec_run(m, events.drop_last()), events.last())
    }
}

/// The event of a key being released.
pub open spec fn key_release(scancode: u32) -> ControlEvent {
    ControlEvent::KeyboardInput { scancode, pressed: false }
}

/// The event of a key being pressed.
pub open spec fn key_press(scancode: u32) -> ControlEvent {
    ControlEvent::KeyboardInput { scancode, pressed: true }
}

/// `count` releases of the same key.
pub open spec fn repeated_releases(scancode: u32, count: nat) -> Seq<ControlEvent> {
    Seq::new(count, |i: int| key_release(scancode))
}

/// Every event leads from a valid state to a valid state: the selected
/// effect always exists and there are always four movement keys.
pub proof fn lemma_events_keep_state_valid(m: ControlModel, event: ControlEvent)
    requires
        m.wf(),
    ensures
        spec_next_state(m, event).wf(),
{
}

/// Releasing X and then Z selects the effect that was selected before, and
/// the second release asks for that effect again; nothing else changes.
pub proof fn lemma_previous_undoes_next(m: ControlModel)
    requires
        m.wf(),
    ensures
        spec_next_state(spec_next_state(m, key_release(SCANCODE_X)), key_release(SCANCODE_Z)) == m,
        spec_command(spec_next_state(m, key_release(SCANCODE_X)), key_release(SCANCODE_Z))
            == Command::UsePostProcessing(m.effect()),
{
}

/// Releasing Z and then X selects the effect that was selected before, and
/// the second release asks for that effect again; nothing else changes.
pub proof fn lemma_next_undoes_previous(m: ControlModel)
    requires
        m.wf(),
    ensures
        spec_next_state(spec_next_state(m, key_release(SCANCODE_Z)), key_release(SCANCODE_X)) == m,
        spec_command(spec_next_state(m, key_release(SCANCODE_Z)), key_release(SCANCODE_X))
            == Command::UsePostProcessing(m.effect()),
{
}

/// `count` releases of X advance the selection by `count` effects and change
/// nothing else.
pub proof fn lemma_repeated_next_advances(m: ControlModel, count: nat)
    requires
        m.wf(),
    ensures
        spec_run(m, repeated_releases(SCANCODE_X, count)) == (ControlModel {
            selected_effect: advance_effect_index(m.selected_effect, count),
            ..m
        }),
    decreases count,
{
    if count > 0 {
        let events = repeated_releases(SCANCODE_X, count);
        assert(events.drop_last() =~= repeated_releases(SCANCODE_X, (count - 1) as nat));
        lemma_repeated_next_advances(m, (count - 1) as nat);
        lemma_advance_stays_in_range(m.selected_effect, (count - 1) as nat);
    }
}

/// Forward steps never leave the range of effects.
proof fn lemma_advance_stays_in_range(i: nat, steps: nat)
    requires
        i < EFFECT_COUNT,
    ensures
        advance_effect_index(i, steps) < EFFECT_COUNT,
    decreases steps,
{
    if steps > 0 {
        lemma_advance_stays_in_range(i, (steps - 1) as nat);
    }
}

/// Releasing X once per effect brings the selection back to where it
/// started, and no smaller positive number of releases does.
pub proof fn lemma_next_cycles_through_all_effects(m: ControlModel, count: nat)
    requires
        m.wf(),
        0 < count <= EFFECT_COUNT,
    ensures
        spec_run(m, repeated_releases(SCANCODE_X, count)) == m <==> count == EFFECT_COUNT,
{
    lemma_repeated_next_advances(m, count);
    lemma_cycle_returns_after_all_effects(m.selected_effect, count);
}

/// Releasing F twice leaves the flashlight as it was; the first release
/// switches it to the other setting.
pub proof fn lemma_flashlight_toggles(m: ControlModel)
    ensures
        spec_command(m, key_release(SCANCODE_F)) == Command::SetFlashlight(!m.flashlight),
        spec_next_state(m, key_release(SCANCODE_F)).flashlight == !m.flashlight,
        spec_next_state(spec_next_state(m, key_release(SCANCODE_F)), key_release(SCANCODE_F))
            == m,
{
}

/// Pressing Z, X or F changes nothing; those keys act when released.
pub proof fn lemma_toggles_act_on_release(m: ControlModel, scancode: u32)
    requires
        scancode == SCANCODE_Z || scancode == SCANCODE_X || scancode == SCANCODE_F,
    ensures
        spec_next_state(m, key_press(scancode)) == m,
        spec_command(m, key_press(scancode)) == Command::Redraw,
{
}

/// A W, A, S or D event records whether that key is held, in its own slot,
/// and touches nothing else.
pub proof fn lemma_movement_key_sets_its_slot(
    m: ControlModel,
    scancode: u32,
    slot: int,
    pressed: bool,
)
    requires
        m.wf(),
        (scancode == SCANCODE_W && slot == 0) || (scancode == SCANCODE_A && slot == 1) || (
        scancode == SCANCODE_S && slot == 2) || (scancode == SCANCODE_D && slot == 3),
    ensures
        spec_next_state(m, ControlEvent::KeyboardInput { scancode, pressed }) == (ControlModel {
            pressed_keys: m.pressed_keys.update(slot, pressed),
            ..m
        }),
        spec_next_state(
            m,
            ControlEvent::KeyboardInput { scancode, pressed },
        ).pressed_keys[slot] == pressed,
        spec_command(m, ControlEvent::KeyboardInput { scancode, pressed }) == Command::Redraw,
{
}

/// Only keyboard events change which movement keys are held.
pub proof fn lemma_only_keys_move(m: ControlModel, event: ControlEvent)
    requires
        !(event is KeyboardInput),
    ensures
        spec_next_state(m, event).pressed_keys == m.pressed_keys,
        spec_next_state(m, event).selected_effect == m.selected_effect,
        spec_next_state(m, event).flashlight == m.flashlight,
{
}

/// Closing the window or pressing or releasing Escape ends the loop without
/// drawing, and leaves the state as it was.
pub proof fn lemma_exit_draws_nothing(m: ControlModel, pressed: bool)
    ensures
        spec_command(m, ControlEvent::CloseRequested) == Command::Exit,
        spec_command(m, ControlEvent::KeyboardInput { scancode: SCANCODE_ESCAPE, pressed })
            == Command::Exit,
        !spec_draws_frame(Command::Exit),
        spec_next_state(m, ControlEvent::CloseRequested) == m,
        spec_next_state(m, ControlEvent::KeyboardInput { scancode: SCANCODE_ESCAPE, pressed })
            == m,
{
}

/// Mouse movement is taken only while the cursor is inside the window and
/// has been put back in its middle: after the cursor leaves and comes back,
/// the first movement is not taken, and the next one is.
pub proof fn lemma_cursor_settles_before_capture(m: ControlModel)
    ensures
        spec_command(m, ControlEvent::CursorMoved) == (Command::TrackCursor {
            capture_delta: m.cursor_in_window && m.cursor_centered,
        }),
        ({
            let back = spec_run(
                m,
                seq![ControlEvent::CursorLeft, ControlEvent::CursorEntered],
            );
            &&& spec_command(back, ControlEvent::CursorMoved) == (Command::TrackCursor {
                capture_delta: false,
            })
            &&& spec_command(spec_next_state(back, ControlEvent::CursorMoved), ControlEvent::CursorMoved)
                == (Command::TrackCursor { capture_delta: true })
        }),
{
    let events = seq![ControlEvent::CursorLeft, ControlEvent::CursorEntered];
    let first = seq![ControlEvent::CursorLeft];
    let none = Seq::<ControlEvent>::empty();
    assert(events.drop_last() =~= first);
    assert(first.drop_last() =~= none);
    assert(spec_run(m, none) == m);
    assert(spec_run(m, first) == spec_next_state(m, ControlEvent::CursorLeft));
    assert(spec_run(m, events) == spec_next_state(
        spec_next_state(m, ControlEvent::CursorLeft),
        ControlEvent::CursorEntered,
    ));
}

/// Whether a scancode is one of the keys the viewer gives a meaning to.
pub open spec fn is_assigned_scancode(code: u32) -> bool {
    code == 1 || code == 17 || code == 30 || code == 31 || code == 32 || code == 20 || code == 21
        || code == 44 || code == 45 || code == 33 || code == 42
}

/// Every scancode the viewer gives no meaning to is an unknown key carrying
/// that scancode, and only scancode 1 means Escape.
pub proof fn lemma_unassigned_scancodes_are_unknown(code: u32)
    ensures
        !is_assigned_scancode(code) ==> spec_key_for_scancode(code) == Key::Unknown(code),
        spec_key_for_scancode(code) == Key::Escape <==> code == 1,
        spec_key_for_scancode(code) is Unknown <==> !is_assigned_scancode(code),
{
}

/// Pressing or releasing a key the viewer gives no meaning to reports its
/// scancode, changes nothing and lets the next frame be drawn.
pub proof fn lemma_unassigned_keys_are_reported(m: ControlModel, code: u32, pressed: bool)
    requires
        !is_assigned_scancode(code),
    ensures
        spec_command(m, ControlEvent::KeyboardInput { scancode: code, pressed })
            == Command::ReportUnknownKey(code),
        spec_next_state(m, ControlEvent::KeyboardInput { scancode: code, pressed }) == m,
        spec_draws_frame(spec_command(m, ControlEvent::KeyboardInput { scancode: code, pressed })),
{
}

/// The loop is told to exit exactly when the window is asked to close or
/// Escape (scancode 1) is pressed or released.
pub proof fn lemma_exit_only_on_close_or_escape(m: ControlModel, event: ControlEvent)
    ensures
        spec_command(m, event) == Command::Exit <==> (event == ControlEvent::CloseRequested
            || event == ControlEvent::KeyboardInput { scancode: 1, pressed: true }
            || event == ControlEvent::KeyboardInput { scancode: 1, pressed: false }),
{
    if let ControlEvent::KeyboardInput { scancode, pressed } = event {
        lemma_unassigned_scancodes_are_unknown(scancode);
    }
}

/// Only W, A, S and D change which movement keys are held; every other event,
/// keyboard or not, leaves them as they were.
pub proof fn lemma_only_movement_keys_change_held_keys(m: ControlModel, event: ControlEvent)
    requires
        !(event matches ControlEvent::KeyboardInput { scancode, .. } && (scancode == 17
            || scancode == 30 || scancode == 31 || scancode == 32)),
    ensures
        spec_next_state(m, event).pressed_keys == m.pressed_keys,
{
}

/// The mouse wheel zooms whenever its delta is given in lines, whatever the
/// state of the cursor, and otherwise only redraws; it changes no state.
pub proof fn lemma_wheel_zooms_in_any_state(m: ControlModel, in_lines: bool)
    ensures
        spec_command(m, ControlEvent::MouseWheel { in_lines: true }) == Command::Zoom,
        spec_command(m, ControlEvent::MouseWheel { in_lines: false }) == Command::Redraw,
        spec_next_state(m, ControlEvent::MouseWheel { in_lines }) == m,
{
}

/// Only `Exit` and `Skip` end the event's handling without a frame; every
/// other command, `Redraw` among them, is followed by a frame.
pub proof fn lemma_frame_drawn_unless_exit_or_skip(command: Command)
    ensures
        !spec_draws_frame(command) <==> (command == Command::Exit || command == Command::Skip),
        spec_draws_frame(Command::Redraw),
        spec_draws_frame(Command::Zoom),
        spec_draws_frame(Command::Reproject),
{
}

/// A frame is drawn after every event except a close request, Escape, a
/// window event the viewer ignores, a wake-up for another cause than the
/// start or the frame timer, and any other event.
pub proof fn lemma_events_that_draw_a_frame(m: ControlModel, event: ControlEvent)
    ensures
        !spec_draws_frame(spec_command(m, event)) <==> (event == ControlEvent::CloseRequested
            || event == ControlEvent::KeyboardInput { scancode: 1, pressed: true }
            || event == ControlEvent::KeyboardInput { scancode: 1, pressed: false }
            || event == ControlEvent::OtherWindowEvent
            || event == ControlEvent::NewEvents(WakeCause::Other)
            || event == ControlEvent::Other),
        spec_draws_frame(spec_command(m, ControlEvent::NewEvents(WakeCause::ResumeTimeReached))),
        spec_draws_frame(spec_command(m, ControlEvent::NewEvents(WakeCause::Init))),
{
    if let ControlEvent::KeyboardInput { scancode, pressed } = event {
        lemma_unassigned_scancodes_are_unknown(scancode);
    }
}

/// Each assigned scancode has its fixed meaning.
pub proof fn lemma_assigned_scancodes(code: u32)
    ensures
        spec_key_for_scancode(1) == Key::Escape,
        spec_key_for_scancode(17) == Key::Movement(0),
        spec_key_for_scancode(30) == Key::Movement(1),
        spec_key_for_scancode(31) == Key::Movement(2),
        spec_key_for_scancode(32) == Key::Movement(3),
        spec_key_for_scancode(20) == Key::BrightenLight,
        spec_key_for_scancode(21) == Key::DimLight,
        spec_key_for_scancode(44) == Key::PreviousEffect,
        spec_key_for_scancode(45) == Key::NextEffect,
        spec_key_for_scancode(33) == Key::Flashlight,
        spec_key_for_scancode(42) == Key::Run,
        spec_key_for_scancode(code) matches Key::Movement(slot) ==> slot < MOVEMENT_KEY_COUNT,
{
}

/// T and Y change the light on press and on release alike, and change no
/// state; left shift sets running while held and walking once released, and
/// changes no state.
pub proof fn lemma_light_and_speed_keys(m: ControlModel, pressed: bool)
    ensures
        spec_command(m, ControlEvent::KeyboardInput { scancode: 20, pressed })
            == Command::BrightenDirectionalLight,
        spec_command(m, ControlEvent::KeyboardInput { scancode: 21, pressed })
            == Command::DimDirectionalLight,
        spec_command(m, key_press(42)) == Command::SetCameraSpeed(CameraSpeed::Running),
        spec_command(m, key_release(42)) == Command::SetCameraSpeed(CameraSpeed::Walking),
        spec_next_state(m, ControlEvent::KeyboardInput { scancode: 20, pressed }) == m,
        spec_next_state(m, ControlEvent::KeyboardInput { scancode: 21, pressed }) == m,
        spec_next_state(m, ControlEvent::KeyboardInput { scancode: 42, pressed }) == m,
{
}

/// What each cursor event does: entering marks the cursor inside, leaving
/// marks it outside and not centred, and a movement marks it centred; each
/// touches nothing else and is followed by a frame.
pub proof fn lemma_cursor_events(m: ControlModel)
    ensures
        spec_next_state(m, ControlEvent::CursorEntered) == (ControlModel {
            cursor_in_window: true,
            ..m
        }),
        spec_next_state(m, ControlEvent::CursorLeft) == (ControlModel {
            cursor_in_window: false,
            cursor_centered: false,
            ..m
        }),
        spec_next_state(m, ControlEvent::CursorMoved) == (ControlModel {
            cursor_centered: true,
            ..m
        }),
        spec_command(m, ControlEvent::CursorEntered) == Command::Redraw,
        spec_command(m, ControlEvent::CursorLeft) == Command::Redraw,
        spec_command(m, ControlEvent::CursorMoved) matches Command::TrackCursor { capture_delta }
            && (capture_delta <==> m.cursor_in_window && m.cursor_centered),
{
}

/// Resizing recomputes the projection; a wake-up at the start or on the
/// frame timer only redraws; none of them, nor any ignored event, changes
/// the state.
pub proof fn lemma_resize_and_wakeups(m: ControlModel, cause: WakeCause)
    ensures
        spec_command(m, ControlEvent::Resized) == Command::Reproject,
        spec_command(m, ControlEvent::NewEvents(WakeCause::Init)) == Command::Redraw,
        spec_command(m, ControlEvent::NewEvents(WakeCause::ResumeTimeReached)) == Command::Redraw,
        spec_command(m, ControlEvent::NewEvents(WakeCause::Other)) == Command::Skip,
        spec_command(m, ControlEvent::OtherWindowEvent) == Command::Skip,
        spec_command(m, ControlEvent::Other) == Command::Skip,
        spec_next_state(m, ControlEvent::Resized) == m,
        spec_next_state(m, ControlEvent::NewEvents(cause)) == m,
        spec_next_state(m, ControlEvent::OtherWindowEvent) == m,
        spec_next_state(m, ControlEvent::Other) == m,
{
}

/// Only Z and X change the selected effect, only F changes the flashlight,
/// and only cursor events change the cursor tracking.
pub proof fn lemma_state_changes_are_local(m: ControlModel, event: ControlEvent)
    ensures
        spec_next_state(m, event).selected_effect != m.selected_effect ==> (event == key_release(44)
            || event == key_release(45)),
        spec_next_state(m, event).flashlight != m.flashlight ==> event == key_release(33),
        (spec_next_state(m, event).cursor_in_window != m.cursor_in_window
            || spec_next_state(m, event).cursor_centered != m.cursor_centered) ==> (event
            == ControlEvent::CursorEntered || event == ControlEvent::CursorLeft || event
            == ControlEvent::CursorMoved),
{
}

/// Releasing Z selects the previous effect and releasing X the next one,
/// wrapping around, and each asks for the effect it selected.
pub proof fn lemma_effect_keys_step_the_selection(m: ControlModel)
    requires
        m.wf(),
    ensures
        spec_next_state(m, key_release(45)).selected_effect == (m.selected_effect + 1)
            % (EFFECT_COUNT as nat),
        spec_next_state(m, key_release(44)).selected_effect + 1 == if m.selected_effect == 0 {
            EFFECT_COUNT as nat
        } else {
            m.selected_effect
        },
        spec_command(m, key_release(45)) == Command::UsePostProcessing(
            spec_next_state(m, key_release(45)).effect(),
        ),
        spec_command(m, key_release(44)) == Command::UsePostProcessing(
            spec_next_state(m, key_release(44)).effect(),
        ),
{
}

} // verus!
