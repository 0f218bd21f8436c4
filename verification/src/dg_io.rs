//! Input translator: turns the host's key, mouse and focus events into the
//! engine's input vocabulary, and owns fullscreen and mouse-capture toggling.
//!
//! The translator performs nothing itself. For each event it returns, in
//! order, the commands for the window and the inputs for the engine, and the
//! caller carries them out. Positions and deltas are single-precision floats
//! carried by their bit pattern; the translator passes them on untouched.

use vstd::prelude::*;

verus! {

/// Code of a key the engine has no name for.
pub const DG_KEY_UNKNOWN: i32 = 0;

/// Compact code of the up arrow.
pub const DG_KEY_UP: i32 = 1;

/// Compact code of the down arrow.
pub const DG_KEY_DOWN: i32 = 2;

/// Compact code of the left arrow.
pub const DG_KEY_LEFT: i32 = 3;

/// Compact code of the right arrow.
pub const DG_KEY_RIGHT: i32 = 4;

/// Compact code of W.
pub const DG_KEY_W: i32 = 5;

/// Compact code of A.
pub const DG_KEY_A: i32 = 6;

/// Compact code of S.
pub const DG_KEY_S: i32 = 7;

/// Compact code of D.
pub const DG_KEY_D: i32 = 8;

/// Compact code of the space bar.
pub const DG_KEY_SPACE: i32 = 9;

/// Compact code of Enter.
pub const DG_KEY_ENTER: i32 = 10;

/// Compact code of Escape.
pub const DG_KEY_ESCAPE: i32 = 11;

/// Sentinel code of Enter.
pub const DGK_ENTER: i32 = 1000;

/// Sentinel code of Escape.
pub const DGK_ESCAPE: i32 = 1001;

/// Sentinel code of the up arrow.
pub const DGK_UP: i32 = 1100;

/// Sentinel code of the down arrow.
pub const DGK_DOWN: i32 = 1101;

/// Sentinel code of the left arrow.
pub const DGK_LEFT: i32 = 1102;

/// Sentinel code of the right arrow.
pub const DGK_RIGHT: i32 = 1103;

/// Sentinel code of the "use" action.
pub const DGK_USE: i32 = 1200;

/// Sentinel code of the "fire" action.
pub const DGK_FIRE: i32 = 1201;

/// Engine index of the left mouse button.
pub const BUTTON_LEFT: i32 = 0;

/// Engine index of the right mouse button.
pub const BUTTON_RIGHT: i32 = 1;

/// Engine index of the middle mouse button.
pub const BUTTON_MIDDLE: i32 = 2;

/// A physical key, by its position on the keyboard. Keys that the bridge
/// gives no meaning to are all `Other`.
#[derive(Clone, Copy, Debug, PartialEq, Eq)]
pub enum Key {
    KeyW,
    KeyA,
    KeyS,
    KeyD,
    KeyF,
    Space,
    ControlLeft,
    ControlRight,
    ArrowUp,
    ArrowDown,
    ArrowLeft,
    ArrowRight,
    Enter,
    Escape,
    F11,
    Other,
}

/// The modifier keys that are held down.
#[derive(Clone, Copy, Debug, PartialEq, Eq)]
pub struct Modifiers {
    pub shift: bool,
    pub control: bool,
    pub alt: bool,
    pub super_key: bool,
}

/// A mouse button. Buttons beyond the first three are all `Other`.
#[derive(Clone, Copy, Debug, PartialEq, Eq)]
pub enum MouseButton {
    Left,
    Right,
    Middle,
    Other,
}

/// An event that the window received.
#[derive(Clone, Copy, Debug, PartialEq, Eq)]
pub enum WindowEvent {
    /// The set of held modifier keys changed.
    ModifiersChanged(Modifiers),
    /// A key went down or up.
    KeyboardInput { key: Key, pressed: bool },
    /// A mouse button went down or up.
    MouseInput { button: MouseButton, pressed: bool },
    /// The cursor moved to a position inside the window.
    CursorMoved { x: u32, y: u32 },
    /// The wheel turned by this many lines, along the vertical axis.
    MouseWheel { lines: u32 },
    /// The window gained (`true`) or lost (`false`) the input focus.
    Focused(bool),
    /// Any other window event.
    Other,
}

/// An event that a device reported, whatever window has the focus.
#[derive(Clone, Copy, Debug, PartialEq, Eq)]
pub enum DeviceEvent {
    /// The mouse moved by this much.
    MouseMotion { dx: u32, dy: u32 },
    /// Any other device event.
    Other,
}

/// An event delivered by the host.
#[derive(Clone, Copy, Debug, PartialEq, Eq)]
pub enum HostEvent {
    Window(WindowEvent),
    Device(DeviceEvent),
    /// Any event that belongs neither to the window nor to a device.
    Other,
}

/// One discrete input for the engine.
#[derive(Clone, Copy, Debug, PartialEq, Eq)]
pub enum EngineInput {
    KeyDown(i32),
    KeyUp(i32),
    MouseButton { button: i32, down: bool },
    MouseMoveRel { dx: u32, dy: u32 },
    MouseMoveAbs { x: u32, y: u32 },
    MouseWheel { lines: u32 },
}

/// A change to make to the window or its cursor.
#[derive(Clone, Copy, Debug, PartialEq, Eq)]
pub enum WindowCommand {
    /// Go borderless fullscreen on the monitor the window is on.
    EnterFullscreen,
    /// Go back to a normal window.
    LeaveFullscreen,
    /// Lock the cursor to the window, or confine it where locking is not
    /// available, and hide it.
    GrabCursor,
    /// Free the cursor and show it.
    ReleaseCursor,
}

/// What the caller is to do in answer to an event.
#[derive(Clone, Copy, Debug, PartialEq, Eq)]
pub enum Action {
    Window(WindowCommand),
    Engine(EngineInput),
}

/// The engine's code for a physical key. The movement letters are their
/// lowercase character codes; arrows, Enter, Escape, "use" and "fire" are
/// sentinels above the character range; every other key is unknown.
pub open spec fn doom_key(key: Key) -> i32 {
    match key {
        Key::KeyW => 119,
        Key::KeyA => 97,
        Key::KeyS => 115,
        Key::KeyD => 100,
        Key::Space => DGK_USE,
        Key::ControlLeft => DGK_FIRE,
        Key::ControlRight => DGK_FIRE,
        Key::ArrowUp => DGK_UP,
        Key::ArrowDown => DGK_DOWN,
        Key::ArrowLeft => DGK_LEFT,
        Key::ArrowRight => DGK_RIGHT,
        Key::Enter => DGK_ENTER,
        Key::Escape => DGK_ESCAPE,
        Key::KeyF => DG_KEY_UNKNOWN,
        Key::F11 => DG_KEY_UNKNOWN,
        Key::Other => DG_KEY_UNKNOWN,
    }
}

/// The key is one of the movement letters.
pub open spec fn is_movement_letter(key: Key) -> bool {
    key == Key::KeyW || key == Key::KeyA || key == Key::KeyS || key == Key::KeyD
}

/// The lowercase character of a movement letter.
pub open spec fn movement_letter(key: Key) -> char {
    match key {
        Key::KeyW => 'w',
        Key::KeyA => 'a',
        Key::KeyS => 's',
        _ => 'd',
    }
}

/// The key is one the engine knows by name: an arrow, Enter, Escape, or one
/// of the keys for "use" and "fire".
pub open spec fn is_named_key(key: Key) -> bool {
    match key {
        Key::Space => true,
        Key::ControlLeft => true,
        Key::ControlRight => true,
        Key::ArrowUp => true,
        Key::ArrowDown => true,
        Key::ArrowLeft => true,
        Key::ArrowRight => true,
        Key::Enter => true,
        Key::Escape => true,
        _ => false,
    }
}

/// The engine can tell raw characters from named actions: a movement letter
/// has its own lowercase character code, which is a seven-bit one; a named key
/// has a sentinel of 1000 or more; any other key has the unknown code. Two
/// movement letters never share a code, and two named keys share a sentinel
/// only if both are Control.
pub proof fn lemma_key_codes_disambiguate(a: Key, b: Key)
    ensures
        is_movement_letter(a) ==> doom_key(a) == movement_letter(a) as u32 && 0 < doom_key(a)
            < 128,
        is_named_key(a) ==> doom_key(a) >= 1000,
        !is_movement_letter(a) && !is_named_key(a) ==> doom_key(a) == DG_KEY_UNKNOWN,
        is_named_key(a) && is_named_key(b) && doom_key(a) == doom_key(b) ==> a == b || doom_key(a)
            == DGK_FIRE,
        is_movement_letter(a) && is_movement_letter(b) && doom_key(a) == doom_key(b) ==> a == b,
{
}

/// Translates a physical key to the engine's code for it.
pub fn map_key_to_doom(key: Key) -> (code: i32)
    ensures
        code == doom_key(key),
{
    match key {
        Key::KeyW => 'w' as i32,
        Key::KeyA => 'a' as i32,
        Key::KeyS => 's' as i32,
        Key::KeyD => 'd' as i32,
        Key::Space => DGK_USE,
        Key::ControlLeft | Key::ControlRight => DGK_FIRE,
        Key::ArrowUp => DGK_UP,
        Key::ArrowDown => DGK_DOWN,
        Key::ArrowLeft => DGK_LEFT,
        Key::ArrowRight => DGK_RIGHT,
        Key::Enter => DGK_ENTER,
        Key::Escape => DGK_ESCAPE,
        _ => DG_KEY_UNKNOWN,
    }
}

/// The engine's index for a mouse button, where it has one.
pub open spec fn button_index(button: MouseButton) -> Option<i32> {
    match button {
        MouseButton::Left => Some(BUTTON_LEFT),
        MouseButton::Right => Some(BUTTON_RIGHT),
        MouseButton::Middle => Some(BUTTON_MIDDLE),
        MouseButton::Other => None,
    }
}

/// State of the input translator.
#[derive(Clone, Copy, Debug, PartialEq, Eq)]
pub struct DgIo {
    /// The window is borderless fullscreen.
    pub is_fullscreen: bool,
    /// The cursor is grabbed and hidden, and relative motion goes to the
    /// engine.
    pub mouse_captured: bool,
    /// The modifier keys held down, as of the last change reported.
    pub mods: Modifiers,
    /// Super+Control+F toggles fullscreen too, as is the custom on macOS.
    pub super_ctrl_f: bool,
}

impl Modifiers {
    /// No modifier key is held.
    pub open spec fn none() -> Modifiers {
        Modifiers { shift: false, control: false, alt: false, super_key: false }
    }

    /// No modifier key is held.
    pub fn empty() -> (mods: Modifiers)
        ensures
            mods == Modifiers::none(),
    {
        Modifiers { shift: false, control: false, alt: false, super_key: false }
    }
}

impl DgIo {
    /// The state at startup.
    pub open spec fn initial() -> DgIo {
        DgIo {
            is_fullscreen: false,
            mouse_captured: false,
            mods: Modifiers::none(),
            super_ctrl_f: false,
        }
    }

    /// Pressing `key` in this state toggles fullscreen: Alt+Enter, F11, or
    /// Super+Control+F where that combination is enabled.
    pub open spec fn is_fullscreen_combo(self, key: Key) -> bool {
        ||| key == Key::Enter && self.mods.alt
        ||| key == Key::F11
        ||| self.super_ctrl_f && key == Key::KeyF && self.mods.super_key && self.mods.control
    }

    /// The state with fullscreen flipped.
    pub open spec fn toggled(self) -> DgIo {
        DgIo { is_fullscreen: !self.is_fullscreen, ..self }
    }

    /// The state with mouse capture set to `capture`.
    pub open spec fn with_capture(self, capture: bool) -> DgIo {
        DgIo { mouse_captured: capture, ..self }
    }

    /// The window command that brings the window to this state's fullscreen
    /// flag.
    pub open spec fn fullscreen_command(self) -> WindowCommand {
        if self.is_fullscreen {
            WindowCommand::EnterFullscreen
        } else {
            WindowCommand::LeaveFullscreen
        }
    }

    /// The state after a window event.
    pub open spec fn after_window(self, ev: WindowEvent) -> DgIo {
        match ev {
            WindowEvent::ModifiersChanged(m) => DgIo { mods: m, ..self },
            WindowEvent::KeyboardInput { key, pressed } => {
                if pressed && self.is_fullscreen_combo(key) {
                    self.toggled()
                } else if pressed && key == Key::Escape {
                    self.with_capture(false)
                } else {
                    self
                }
            },
            WindowEvent::MouseInput { button, pressed } => {
                if pressed && button == MouseButton::Left && !self.mouse_captured {
                    self.with_capture(true)
                } else {
                    self
                }
            },
            WindowEvent::Focused(focused) => {
                if !focused && self.mouse_captured {
                    self.with_capture(false)
                } else {
                    self
                }
            },
            _ => self,
        }
    }

    /// What a window event asks for, in the order in which it is to be done.
    pub open spec fn window_actions(self, ev: WindowEvent) -> Seq<Action> {
        match ev {
            WindowEvent::ModifiersChanged(_) => seq![],
            WindowEvent::KeyboardInput { key, pressed } => {
                if pressed && self.is_fullscreen_combo(key) {
                    seq![Action::Window(self.toggled().fullscreen_command())]
                } else if pressed && key == Key::Escape {
                    seq![
                        Action::Window(WindowCommand::ReleaseCursor),
                        Action::Engine(EngineInput::KeyDown(doom_key(key))),
                    ]
                } else if pressed {
                    seq![Action::Engine(EngineInput::KeyDown(doom_key(key)))]
                } else {
                    seq![Action::Engine(EngineInput::KeyUp(doom_key(key)))]
                }
            },
            WindowEvent::MouseInput { button, pressed } => {
                let grab = if pressed && button == MouseButton::Left && !self.mouse_captured {
                    seq![Action::Window(WindowCommand::GrabCursor)]
                } else {
                    seq![]
                };
                match button_index(button) {
                    Some(index) => grab.push(
                        Action::Engine(EngineInput::MouseButton { button: index, down: pressed }),
                    ),
                    None => grab,
                }
            },
            WindowEvent::CursorMoved { x, y } => seq![
                Action::Engine(EngineInput::MouseMoveAbs { x, y }),
            ],
            WindowEvent::MouseWheel { lines } => seq![
                Action::Engine(EngineInput::MouseWheel { lines }),
            ],
            WindowEvent::Focused(focused) => {
                if !focused && self.mouse_captured {
                    seq![Action::Window(WindowCommand::ReleaseCursor)]
                } else {
                    seq![]
                }
            },
            WindowEvent::Other => seq![],
        }
    }

    /// What a device event asks for. Relative motion reaches the engine only
    /// while the mouse is captured.
    pub open spec fn device_actions(self, ev: DeviceEvent) -> Seq<Action> {
        match ev {
            DeviceEvent::MouseMotion { dx, dy } => {
                if self.mouse_captured {
                    seq![Action::Engine(EngineInput::MouseMoveRel { dx, dy })]
                } else {
                    seq![]
                }
            },
            DeviceEvent::Other => seq![],
        }
    }

    /// The state after a host event. Device events leave it as it is.
    pub open spec fn after(self, ev: HostEvent) -> DgIo {
        match ev {
            HostEvent::Window(w) => self.after_window(w),
            _ => self,
        }
    }

    /// What a host event asks for, in the order in which it is to be done.
    pub open spec fn actions(self, ev: HostEvent) -> Seq<Action> {
        match ev {
            HostEvent::Window(w) => self.window_actions(w),
            HostEvent::Device(d) => self.device_actions(d),
            HostEvent::Other => seq![],
        }
    }

    /// A translator for a windowed, uncaptured session with no modifier held.
    pub fn new() -> (io: DgIo)
        ensures
            io == DgIo::initial(),
    {
        DgIo {
            is_fullscreen: false,
            mouse_captured: false,
            mods: Modifiers::empty(),
            super_ctrl_f: false,
        }
    }

    /// Takes one host event: updates the state and returns what is to be done
    /// for it.
    pub fn handle(&mut self, ev: &HostEvent) -> (out: Vec<Action>)
        ensures
            *final(self) == old(self).after(*ev),
            out@ == old(self).actions(*ev),
    {
        match ev {
            HostEvent::Window(event) => self.handle_window(event),
            HostEvent::Device(event) => self.handle_device(event),
            HostEvent::Other => Vec::new(),
        }
    }

    /// Takes one window event.
    pub fn handle_window(&mut self, ev: &WindowEvent) -> (out: Vec<Action>)
        ensures
            *final(self) == old(self).after_window(*ev),
            out@ == old(self).window_actions(*ev),
    {
        let mut out: Vec<Action> = Vec::new();
        match ev {
            WindowEvent::ModifiersChanged(m) => {
                self.mods = *m;
            },
            WindowEvent::KeyboardInput { key, pressed } => {
                let alt_enter = matches!(key, Key::Enter) && self.mods.alt;
                let f11 = matches!(key, Key::F11);
                let super_ctrl_f = self.super_ctrl_f && matches!(key, Key::KeyF)
                    && self.mods.super_key && self.mods.control;
                if *pressed && (alt_enter || f11 || super_ctrl_f) {
                    let command = self.toggle_fullscreen();
                    out.push(Action::Window(command));
                    return out;
                }
                if *pressed && matches!(key, Key::Escape) {
                    let command = self.set_mouse_capture(false);
                    out.push(Action::Window(command));
                }
                let code = map_key_to_doom(*key);
                if *pressed {
                    out.push(Action::Engine(EngineInput::KeyDown(code)));
                } else {
                    out.push(Action::Engine(EngineInput::KeyUp(code)));
                }
            },
            WindowEvent::MouseInput { button, pressed } => {
                if *pressed && matches!(button, MouseButton::Left) && !self.mouse_captured {
                    let command = self.set_mouse_capture(true);
                    out.push(Action::Window(command));
                }
                match button {
                    MouseButton::Left => {
                        out.push(
                            Action::Engine(
                                EngineInput::MouseButton { button: BUTTON_LEFT, down: *pressed },
                            ),
                        );
                    },
                    MouseButton::Right => {
                        out.push(
                            Action::Engine(
                                EngineInput::MouseButton { button: BUTTON_RIGHT, down: *pressed },
                            ),
                        );
                    },
                    MouseButton::Middle => {
                        out.push(
                            Action::Engine(
                                EngineInput::MouseButton { button: BUTTON_MIDDLE, down: *pressed },
                            ),
                        );
                    },
                    MouseButton::Other => {},
                }
            },
            WindowEvent::CursorMoved { x, y } => {
                out.push(Action::Engine(EngineInput::MouseMoveAbs { x: *x, y: *y }));
            },
            WindowEvent::MouseWheel { lines } => {
                out.push(Action::Engine(EngineInput::MouseWheel { lines: *lines }));
            },
            WindowEvent::Focused(focused) => {
                if !*focused && self.mouse_captured {
                    let command = self.set_mouse_capture(false);
                    out.push(Action::Window(command));
                }
            },
            WindowEvent::Other => {},
        }
        assert(out@ =~= old(self).window_actions(*ev));
        out
    }

    /// Takes one device event. The state does not change.
    pub fn handle_device(&mut self, ev: &DeviceEvent) -> (out: Vec<Action>)
        ensures
            *final(self) == *old(self),
            out@ == old(self).device_actions(*ev),
    {
        let mut out: Vec<Action> = Vec::new();
        if !self.mouse_captured {
            return out;
        }
        match ev {
            DeviceEvent::MouseMotion { dx, dy } => {
                out.push(Action::Engine(EngineInput::MouseMoveRel { dx: *dx, dy: *dy }));
            },
            DeviceEvent::Other => {},
        }
        assert(out@ =~= old(self).device_actions(*ev));
        out
    }

    /// Flips fullscreen and returns the command that brings the window along.
    pub fn toggle_fullscreen(&mut self) -> (command: WindowCommand)
        ensures
            *final(self) == old(self).toggled(),
            command == final(self).fullscreen_command(),
    {
        self.is_fullscreen = !self.is_fullscreen;
        if self.is_fullscreen {
            WindowCommand::EnterFullscreen
        } else {
            WindowCommand::LeaveFullscreen
        }
    }

    /// Sets mouse capture and returns the command that brings the cursor
    /// along: grabbed and hidden when capturing, free and visible when not.
    pub fn set_mouse_capture(&mut self, capture: bool) -> (command: WindowCommand)
        ensures
            *final(self) == old(self).with_capture(capture),
            command == if capture {
                WindowCommand::GrabCursor
            } else {
                WindowCommand::ReleaseCursor
            },
    {
        self.mouse_captured = capture;
        if capture {
            WindowCommand::GrabCursor
        } else {
            WindowCommand::ReleaseCursor
        }
    }
}

/// A left-button press in an uncaptured session asks for the cursor to be
/// grabbed and then hands the engine a button-down, and leaves the mouse
/// captured. An Escape press that follows asks for the cursor to be released,
/// hands the engine the Escape key, and leaves the mouse uncaptured.
pub proof fn lemma_click_captures_escape_releases(io: DgIo)
    requires
        !io.mouse_captured,
    ensures
        ({
            let click = WindowEvent::MouseInput { button: MouseButton::Left, pressed: true };
            let escape = WindowEvent::KeyboardInput { key: Key::Escape, pressed: true };
            let captured = io.after_window(click);
            &&& io.window_actions(click) == seq![
                Action::Window(WindowCommand::GrabCursor),
                Action::Engine(EngineInput::MouseButton { button: BUTTON_LEFT, down: true }),
            ]
            &&& captured.mouse_captured
            &&& captured.window_actions(escape) == seq![
                Action::Window(WindowCommand::ReleaseCursor),
                Action::Engine(EngineInput::KeyDown(DGK_ESCAPE)),
            ]
            &&& !captured.after_window(escape).mouse_captured
        }),
{
    let click = WindowEvent::MouseInput { button: MouseButton::Left, pressed: true };
    assert(io.window_actions(click) =~= seq![
        Action::Window(WindowCommand::GrabCursor),
        Action::Engine(EngineInput::MouseButton { button: BUTTON_LEFT, down: true }),
    ]);
}

/// Relative mouse motion is dropped while the mouse is not captured; while it
/// is captured, it reaches the engine as exactly one relative-motion input
/// with the same deltas. Either way the state stays as it is.
pub proof fn lemma_relative_motion_needs_capture(io: DgIo, dx: u32, dy: u32)
    ensures
        ({
            let motion = HostEvent::Device(DeviceEvent::MouseMotion { dx, dy });
            &&& io.after(motion) == io
            &&& !io.mouse_captured ==> io.actions(motion) == Seq::<Action>::empty()
            &&& io.mouse_captured ==> io.actions(motion) == seq![
                Action::Engine(EngineInput::MouseMoveRel { dx, dy }),
            ]
        }),
{
}

/// Losing the focus never leaves the mouse captured, and gaining it changes
/// nothing.
pub proof fn lemma_focus_loss_releases(io: DgIo)
    ensures
        !io.after_window(WindowEvent::Focused(false)).mouse_captured,
        io.mouse_captured ==> io.window_actions(WindowEvent::Focused(false)) == seq![
            Action::Window(WindowCommand::ReleaseCursor),
        ],
        io.after_window(WindowEvent::Focused(true)) == io,
        io.window_actions(WindowEvent::Focused(true)) == Seq::<Action>::empty(),
{
}

/// Each press of a fullscreen combination flips fullscreen once and sends
/// nothing to the engine: the first press asks the window to follow, and a
/// second press brings state and window back.
pub proof fn lemma_fullscreen_toggles_per_press(io: DgIo, key: Key)
    requires
        io.is_fullscreen_combo(key),
    ensures
        ({
            let press = WindowEvent::KeyboardInput { key, pressed: true };
            let once = io.after_window(press);
            &&& once.is_fullscreen != io.is_fullscreen
            &&& io.window_actions(press) == seq![Action::Window(once.fullscreen_command())]
            &&& once.after_window(press) == io
            &&& once.window_actions(press) == seq![Action::Window(io.fullscreen_command())]
        }),
{
}

} // verus!
