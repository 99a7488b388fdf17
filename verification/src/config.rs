//! The persistent player settings: the input actions and their default
//! bindings, graphics settings and the default ability loadout.
use vstd::prelude::*;

verus! {

/// Everything a player can ask for through an input device.
#[derive(Debug, Clone, Copy, PartialEq, Eq, Hash, Structural)]
pub enum UserAction {
    // Game actions
    LeftArm,
    LeftArmSecondary,
    RightArm,
    RightArmSecondary,
    LeftShoulder,
    RightShoulder,
    Legs,
    Head,
    // Not real actions; they only tell that an axis pair was used.
    Move,
    Aim,
    // A game action that is handled on its own.
    Menu,
    // Menu actions
    Select,
    Cancel,
    TabLeft,
    TabRight,
}

/// The user actions that act in the game, one per body part.
#[derive(Debug, Clone, Copy, PartialEq, Eq, Hash, Structural)]
pub enum GameAction {
    LeftArm,
    LeftArmSecondary,
    RightArm,
    RightArmSecondary,
    LeftShoulder,
    RightShoulder,
    Legs,
    Head,
}

/// The user actions that navigate menus.
#[derive(Debug, Clone, Copy, PartialEq, Eq, Hash, Structural)]
pub enum MenuAction {
    Select,
    Cancel,
    TabLeft,
    TabRight,
}

impl GameAction {
    pub open spec fn spec_user_action(self) -> UserAction {
        match self {
            GameAction::LeftArm => UserAction::LeftArm,
            GameAction::LeftArmSecondary => UserAction::LeftArmSecondary,
            GameAction::RightArm => UserAction::RightArm,
            GameAction::RightArmSecondary => UserAction::RightArmSecondary,
            GameAction::LeftShoulder => UserAction::LeftShoulder,
            GameAction::RightShoulder => UserAction::RightShoulder,
            GameAction::Legs => UserAction::Legs,
            GameAction::Head => UserAction::Head,
        }
    }

    /// The user action that this game action is: the one of the same name.
    pub fn user_action(&self) -> (u: UserAction)
        ensures
            u == self.spec_user_action(),
            *self == GameAction::LeftArm ==> u == UserAction::LeftArm,
            *self == GameAction::LeftArmSecondary ==> u == UserAction::LeftArmSecondary,
            *self == GameAction::RightArm ==> u == UserAction::RightArm,
            *self == GameAction::RightArmSecondary ==> u == UserAction::RightArmSecondary,
            *self == GameAction::LeftShoulder ==> u == UserAction::LeftShoulder,
            *self == GameAction::RightShoulder ==> u == UserAction::RightShoulder,
            *self == GameAction::Legs ==> u == UserAction::Legs,
            *self == GameAction::Head ==> u == UserAction::Head,
    {
        match self {
            GameAction::LeftArm => UserAction::LeftArm,
            GameAction::LeftArmSecondary => UserAction::LeftArmSecondary,
            GameAction::RightArm => UserAction::RightArm,
            GameAction::RightArmSecondary => UserAction::RightArmSecondary,
            GameAction::LeftShoulder => UserAction::LeftShoulder,
            GameAction::RightShoulder => UserAction::RightShoulder,
            GameAction::Legs => UserAction::Legs,
            GameAction::Head => UserAction::Head,
        }
    }
}

impl MenuAction {
    pub open spec fn spec_user_action(self) -> UserAction {
        match self {
            MenuAction::Select => UserAction::Select,
            MenuAction::Cancel => UserAction::Cancel,
            MenuAction::TabLeft => UserAction::TabLeft,
            MenuAction::TabRight => UserAction::TabRight,
        }
    }

    /// The user action that this menu action is: the one of the same name.
    pub fn user_action(&self) -> (u: UserAction)
        ensures
            u == self.spec_user_action(),
            *self == MenuAction::Select ==> u == UserAction::Select,
            *self == MenuAction::Cancel ==> u == UserAction::Cancel,
            *self == MenuAction::TabLeft ==> u == UserAction::TabLeft,
            *self == MenuAction::TabRight ==> u == UserAction::TabRight,
    {
        match self {
            MenuAction::Select => UserAction::Select,
            MenuAction::Cancel => UserAction::Cancel,
            MenuAction::TabLeft => UserAction::TabLeft,
            MenuAction::TabRight => UserAction::TabRight,
        }
    }
}

impl UserAction {
    pub open spec fn spec_game_action(self) -> Option<GameAction> {
        match self {
            UserAction::LeftArm => Some(GameAction::LeftArm),
            UserAction::LeftArmSecondary => Some(GameAction::LeftArmSecondary),
            UserAction::RightArm => Some(GameAction::RightArm),
            UserAction::RightArmSecondary => Some(GameAction::RightArmSecondary),
            UserAction::LeftShoulder => Some(GameAction::LeftShoulder),
            UserAction::RightShoulder => Some(GameAction::RightShoulder),
            UserAction::Legs => Some(GameAction::Legs),
            UserAction::Head => Some(GameAction::Head),
            _ => None,
        }
    }

    pub open spec fn spec_menu_action(self) -> Option<MenuAction> {
        match self {
            UserAction::Select => Some(MenuAction::Select),
            UserAction::Cancel => Some(MenuAction::Cancel),
            UserAction::TabLeft => Some(MenuAction::TabLeft),
            UserAction::TabRight => Some(MenuAction::TabRight),
            _ => None,
        }
    }

    pub open spec fn spec_is_dual_axis(self) -> bool {
        self is Move || self is Aim
    }

    /// The game action that this user action is, if it is one.
    pub fn game_action(&self) -> (g: Option<GameAction>)
        ensures
            g == self.spec_game_action(),
            *self == UserAction::LeftArm ==> g == Some(GameAction::LeftArm),
            *self == UserAction::LeftArmSecondary ==> g == Some(GameAction::LeftArmSecondary),
            *self == UserAction::RightArm ==> g == Some(GameAction::RightArm),
            *self == UserAction::RightArmSecondary ==> g == Some(GameAction::RightArmSecondary),
            *self == UserAction::LeftShoulder ==> g == Some(GameAction::LeftShoulder),
            *self == UserAction::RightShoulder ==> g == Some(GameAction::RightShoulder),
            *self == UserAction::Legs ==> g == Some(GameAction::Legs),
            *self == UserAction::Head ==> g == Some(GameAction::Head),
            (*self == UserAction::Move || *self == UserAction::Aim || *self == UserAction::Menu
                || *self == UserAction::Select || *self == UserAction::Cancel || *self
                == UserAction::TabLeft || *self == UserAction::TabRight) ==> g is None,
    {
        match self {
            UserAction::LeftArm => Some(GameAction::LeftArm),
            UserAction::LeftArmSecondary => Some(GameAction::LeftArmSecondary),
            UserAction::RightArm => Some(GameAction::RightArm),
            UserAction::RightArmSecondary => Some(GameAction::RightArmSecondary),
            UserAction::LeftShoulder => Some(GameAction::LeftShoulder),
            UserAction::RightShoulder => Some(GameAction::RightShoulder),
            UserAction::Legs => Some(GameAction::Legs),
            UserAction::Head => Some(GameAction::Head),
            _ => None,
        }
    }

    /// The menu action that this user action is, if it is one.
    pub fn menu_action(&self) -> (m: Option<MenuAction>)
        ensures
            m == self.spec_menu_action(),
            *self == UserAction::Select ==> m == Some(MenuAction::Select),
            *self == UserAction::Cancel ==> m == Some(MenuAction::Cancel),
            *self == UserAction::TabLeft ==> m == Some(MenuAction::TabLeft),
            *self == UserAction::TabRight ==> m == Some(MenuAction::TabRight),
            (*self != UserAction::Select && *self != UserAction::Cancel && *self != UserAction::TabLeft
                && *self != UserAction::TabRight) ==> m is None,
    {
        match self {
            UserAction::Select => Some(MenuAction::Select),
            UserAction::Cancel => Some(MenuAction::Cancel),
            UserAction::TabLeft => Some(MenuAction::TabLeft),
            UserAction::TabRight => Some(MenuAction::TabRight),
            _ => None,
        }
    }

    /// Whether this action is read as an axis pair rather than a button.
    pub fn is_dual_axis(&self) -> (b: bool)
        ensures
            b == self.spec_is_dual_axis(),
    {
        match self {
            UserAction::Move | UserAction::Aim => true,
            _ => false,
        }
    }
}

/// Game actions and menu actions are parts of the user actions: each
/// converts to a user action and back, a user action is at most one of the
/// two, and `Move`, `Aim` and `Menu` are neither.
pub proof fn lemma_action_subsets(u: UserAction, g: GameAction, m: MenuAction)
    ensures
        g.spec_user_action().spec_game_action() == Some(g),
        m.spec_user_action().spec_menu_action() == Some(m),
        u.spec_game_action() matches Some(h) ==> h.spec_user_action() == u,
        u.spec_menu_action() matches Some(n) ==> n.spec_user_action() == u,
        !(u.spec_game_action() is Some && u.spec_menu_action() is Some),
        (u is Move || u is Aim || u is Menu) ==> u.spec_game_action() is None
            && u.spec_menu_action() is None,
        u.spec_is_dual_axis() <==> (u is Move || u is Aim),
{
}

/// Each user action that is a game action is the game action of the same
/// name, and each that is a menu action the menu action of the same name: the
/// left-shoulder input fires the left-shoulder ability, and so on for every
/// body part; and a game or menu action converts back to the user action of
/// its own name.
pub proof fn lemma_actions_keep_their_names(u: UserAction)
    ensures
        (u == UserAction::LeftArm) <==> (u.spec_game_action() == Some(GameAction::LeftArm)),
        GameAction::LeftArm.spec_user_action() == UserAction::LeftArm,
        (u == UserAction::LeftArmSecondary) <==> (u.spec_game_action() == Some(GameAction::LeftArmSecondary)),
        GameAction::LeftArmSecondary.spec_user_action() == UserAction::LeftArmSecondary,
        (u == UserAction::RightArm) <==> (u.spec_game_action() == Some(GameAction::RightArm)),
        GameAction::RightArm.spec_user_action() == UserAction::RightArm,
        (u == UserAction::RightArmSecondary) <==> (u.spec_game_action() == Some(GameAction::RightArmSecondary)),
        GameAction::RightArmSecondary.spec_user_action() == UserAction::RightArmSecondary,
        (u == UserAction::LeftShoulder) <==> (u.spec_game_action() == Some(GameAction::LeftShoulder)),
        GameAction::LeftShoulder.spec_user_action() == UserAction::LeftShoulder,
        (u == UserAction::RightShoulder) <==> (u.spec_game_action() == Some(GameAction::RightShoulder)),
        GameAction::RightShoulder.spec_user_action() == UserAction::RightShoulder,
        (u == UserAction::Legs) <==> (u.spec_game_action() == Some(GameAction::Legs)),
        GameAction::Legs.spec_user_action() == UserAction::Legs,
        (u == UserAction::Head) <==> (u.spec_game_action() == Some(GameAction::Head)),
        GameAction::Head.spec_user_action() == UserAction::Head,
        (u == UserAction::Select) <==> (u.spec_menu_action() == Some(MenuAction::Select)),
        MenuAction::Select.spec_user_action() == UserAction::Select,
        (u == UserAction::Cancel) <==> (u.spec_menu_action() == Some(MenuAction::Cancel)),
        MenuAction::Cancel.spec_user_action() == UserAction::Cancel,
        (u == UserAction::TabLeft) <==> (u.spec_menu_action() == Some(MenuAction::TabLeft)),
        MenuAction::TabLeft.spec_user_action() == UserAction::TabLeft,
        (u == UserAction::TabRight) <==> (u.spec_menu_action() == Some(MenuAction::TabRight)),
        MenuAction::TabRight.spec_user_action() == UserAction::TabRight,
        (u == UserAction::Move || u == UserAction::Aim || u == UserAction::Menu) ==> (
        u.spec_game_action() is None && u.spec_menu_action() is None),
{
}

/// The keyboard keys that the default controls use.
#[derive(Debug, Clone, Copy, PartialEq, Eq, Structural)]
pub enum Key {
    Escape,
    Enter,
    Space,
    KeyD,
    KeyE,
    KeyF,
    KeyG,
    KeyR,
    KeyS,
    KeyW,
}

/// The mouse buttons that the default controls use.
#[derive(Debug, Clone, Copy, PartialEq, Eq, Structural)]
pub enum MouseButton {
    Left,
    Right,
    Back,
    Forward,
}

/// The gamepad buttons that the default controls use.
#[derive(Debug, Clone, Copy, PartialEq, Eq, Structural)]
pub enum GamepadButton {
    Start,
    South,
    East,
    North,
    West,
    LeftTrigger,
    LeftTrigger2,
    RightTrigger,
    RightTrigger2,
}

/// The two gamepad sticks.
#[derive(Debug, Clone, Copy, PartialEq, Eq, Structural)]
pub enum GamepadStick {
    Left,
    Right,
}

/// One input that an action can be bound to.
#[derive(Debug, Clone, Copy, PartialEq, Eq, Structural)]
pub enum InputBinding {
    Key(Key),
    Mouse(MouseButton),
    Gamepad(GamepadButton),
    Stick(GamepadStick),
    /// The gamepad's directional pad, read as an axis pair.
    GamepadDPad,
    /// Four keys read as an axis pair.
    KeyDPad { up: Key, down: Key, left: Key, right: Key },
}

impl InputBinding {
    /// Whether the input is on the keyboard or the mouse.
    pub open spec fn is_keyboard_mouse(self) -> bool {
        self is Key || self is Mouse || self is KeyDPad
    }

    /// Whether the input is on a gamepad.
    pub open spec fn is_gamepad(self) -> bool {
        self is Gamepad || self is Stick || self is GamepadDPad
    }

    /// Whether the input is read as an axis pair.
    pub open spec fn is_axis_pair(self) -> bool {
        self is Stick || self is GamepadDPad || self is KeyDPad
    }
}

/// The default binding at position `i` of the default controls.
pub open spec fn default_binding(i: int) -> (UserAction, InputBinding) {
    if i == 0 {
        (UserAction::Menu, InputBinding::Key(Key::Escape))
    } else if i == 1 {
        (UserAction::Menu, InputBinding::Gamepad(GamepadButton::Start))
    } else if i == 2 {
        (UserAction::Move, InputBinding::Stick(GamepadStick::Left))
    } else if i == 3 {
        (UserAction::Move, InputBinding::GamepadDPad)
    } else if i == 4 {
        (
            UserAction::Move,
            InputBinding::KeyDPad { up: Key::KeyE, down: Key::KeyD, left: Key::KeyS, right: Key::KeyF },
        )
    } else if i == 5 {
        (UserAction::Aim, InputBinding::Stick(GamepadStick::Right))
    } else if i == 6 {
        (UserAction::LeftArm, InputBinding::Mouse(MouseButton::Left))
    } else if i == 7 {
        (UserAction::LeftArm, InputBinding::Gamepad(GamepadButton::LeftTrigger2))
    } else if i == 8 {
        (UserAction::LeftArmSecondary, InputBinding::Key(Key::KeyW))
    } else if i == 9 {
        (UserAction::LeftArmSecondary, InputBinding::Gamepad(GamepadButton::West))
    } else if i == 10 {
        (UserAction::RightArm, InputBinding::Mouse(MouseButton::Right))
    } else if i == 11 {
        (UserAction::RightArm, InputBinding::Gamepad(GamepadButton::RightTrigger2))
    } else if i == 12 {
        (UserAction::RightArmSecondary, InputBinding::Key(Key::KeyE))
    } else if i == 13 {
        (UserAction::RightArmSecondary, InputBinding::Gamepad(GamepadButton::East))
    } else if i == 14 {
        (UserAction::LeftShoulder, InputBinding::Mouse(MouseButton::Back))
    } else if i == 15 {
        (UserAction::LeftShoulder, InputBinding::Gamepad(GamepadButton::LeftTrigger))
    } else if i == 16 {
        (UserAction::RightShoulder, InputBinding::Mouse(MouseButton::Forward))
    } else if i == 17 {
        (UserAction::RightShoulder, InputBinding::Gamepad(GamepadButton::RightTrigger))
    } else if i == 18 {
        (UserAction::Legs, InputBinding::Key(Key::Space))
    } else if i == 19 {
        (UserAction::Legs, InputBinding::Gamepad(GamepadButton::South))
    } else if i == 20 {
        (UserAction::Head, InputBinding::Key(Key::KeyG))
    } else if i == 21 {
        (UserAction::Head, InputBinding::Gamepad(GamepadButton::North))
    } else if i == 22 {
        (UserAction::TabLeft, InputBinding::Gamepad(GamepadButton::LeftTrigger))
    } else if i == 23 {
        (UserAction::TabLeft, InputBinding::Gamepad(GamepadButton::LeftTrigger2))
    } else if i == 24 {
        (UserAction::TabLeft, InputBinding::Key(Key::KeyW))
    } else if i == 25 {
        (UserAction::TabRight, InputBinding::Gamepad(GamepadButton::RightTrigger))
    } else if i == 26 {
        (UserAction::TabRight, InputBinding::Gamepad(GamepadButton::RightTrigger2))
    } else if i == 27 {
        (UserAction::TabRight, InputBinding::Key(Key::KeyR))
    } else if i == 28 {
        (UserAction::Select, InputBinding::Gamepad(GamepadButton::South))
    } else if i == 29 {
        (UserAction::Select, InputBinding::Key(Key::Enter))
    } else if i == 30 {
        (UserAction::Select, InputBinding::Key(Key::Space))
    } else if i == 31 {
        (UserAction::Select, InputBinding::Mouse(MouseButton::Left))
    } else if i == 32 {
        (UserAction::Cancel, InputBinding::Gamepad(GamepadButton::East))
    } else if i == 33 {
        (UserAction::Cancel, InputBinding::Key(Key::Escape))
    } else {
        (UserAction::Cancel, InputBinding::Mouse(MouseButton::Right))
    }
}

/// The number of default bindings.
pub open spec fn default_binding_count() -> nat {
    35
}

/// The default controls, as (action, input) pairs in the order they are
/// inserted into the input map.
pub open spec fn spec_default_controls() -> Seq<(UserAction, InputBinding)> {
    Seq::new(default_binding_count(), |i: int| default_binding(i))
}

/// The default controls, as (action, input) pairs in the order they are
/// inserted into the input map.
pub fn default_controls() -> (controls: Vec<(UserAction, InputBinding)>)
    ensures
        controls@ == spec_default_controls(),
{
    let mut map: Vec<(UserAction, InputBinding)> = Vec::new();
    map.push((UserAction::Menu, InputBinding::Key(Key::Escape)));
    map.push((UserAction::Menu, InputBinding::Gamepad(GamepadButton::Start)));
    map.push((UserAction::Move, InputBinding::Stick(GamepadStick::Left)));
    map.push((UserAction::Move, InputBinding::GamepadDPad));
    map.push(
        (
            UserAction::Move,
            InputBinding::KeyDPad { up: Key::KeyE, down: Key::KeyD, left: Key::KeyS, right: Key::KeyF },
        ),
    );
    map.push((UserAction::Aim, InputBinding::Stick(GamepadStick::Right)));
    // Left Arm
    map.push((UserAction::LeftArm, InputBinding::Mouse(MouseButton::Left)));
    map.push((UserAction::LeftArm, InputBinding::Gamepad(GamepadButton::LeftTrigger2)));
    map.push((UserAction::LeftArmSecondary, InputBinding::Key(Key::KeyW)));
    map.push((UserAction::LeftArmSecondary, InputBinding::Gamepad(GamepadButton::West)));
    // Right Arm
    map.push((UserAction::RightArm, InputBinding::Mouse(MouseButton::Right)));
    map.push((UserAction::RightArm, InputBinding::Gamepad(GamepadButton::RightTrigger2)));
    map.push((UserAction::RightArmSecondary, InputBinding::Key(Key::KeyE)));
    map.push((UserAction::RightArmSecondary, InputBinding::Gamepad(GamepadButton::East)));
    // Left Shoulder
    map.push((UserAction::LeftShoulder, InputBinding::Mouse(MouseButton::Back)));
    map.push((UserAction::LeftShoulder, InputBinding::Gamepad(GamepadButton::LeftTrigger)));
    // Right Shoulder
    map.push((UserAction::RightShoulder, InputBinding::Mouse(MouseButton::Forward)));
    map.push((UserAction::RightShoulder, InputBinding::Gamepad(GamepadButton::RightTrigger)));
    // Legs
    map.push((UserAction::Legs, InputBinding::Key(Key::Space)));
    map.push((UserAction::Legs, InputBinding::Gamepad(GamepadButton::South)));
    // Head
    map.push((UserAction::Head, InputBinding::Key(Key::KeyG)));
    map.push((UserAction::Head, InputBinding::Gamepad(GamepadButton::North)));
    // Menu controls
    map.push((UserAction::TabLeft, InputBinding::Gamepad(GamepadButton::LeftTrigger)));
    map.push((UserAction::TabLeft, InputBinding::Gamepad(GamepadButton::LeftTrigger2)));
    map.push((UserAction::TabLeft, InputBinding::Key(Key::KeyW)));
    map.push((UserAction::TabRight, InputBinding::Gamepad(GamepadButton::RightTrigger)));
    map.push((UserAction::TabRight, InputBinding::Gamepad(GamepadButton::RightTrigger2)));
    map.push((UserAction::TabRight, InputBinding::Key(Key::KeyR)));
    map.push((UserAction::Select, InputBinding::Gamepad(GamepadButton::South)));
    map.push((UserAction::Select, InputBinding::Key(Key::Enter)));
    map.push((UserAction::Select, InputBinding::Key(Key::Space)));
    map.push((UserAction::Select, InputBinding::Mouse(MouseButton::Left)));
    map.push((UserAction::Cancel, InputBinding::Gamepad(GamepadButton::East)));
    map.push((UserAction::Cancel, InputBinding::Key(Key::Escape)));
    map.push((UserAction::Cancel, InputBinding::Mouse(MouseButton::Right)));
    assert(map@ =~= spec_default_controls());
    map
}


/// Whether the controls bind `action` to some input that satisfies `kind`.
pub open spec fn has_binding(
    controls: Seq<(UserAction, InputBinding)>,
    action: UserAction,
    kind: spec_fn(InputBinding) -> bool,
) -> bool {
    exists|i: int| 0 <= i < controls.len() && controls[i].0 == action && #[trigger] kind(controls[i].1)
}

/// Keyboard-and-mouse and gamepad are both first-class: by default every
/// action is bound to a gamepad input, and every action but `Aim` to a
/// keyboard or mouse input (with a mouse, aiming follows the cursor).
pub proof fn lemma_default_controls_cover_both_devices(action: UserAction)
    ensures
        has_binding(spec_default_controls(), action, |b: InputBinding| b.is_gamepad()),
        action != UserAction::Aim ==> has_binding(
            spec_default_controls(),
            action,
            |b: InputBinding| b.is_keyboard_mouse(),
        ),
{
    let c = spec_default_controls();
    let gp = |b: InputBinding| b.is_gamepad();
    let kbm = |b: InputBinding| b.is_keyboard_mouse();
    let g: int = match action {
        UserAction::Menu => 1,
        UserAction::Move => 2,
        UserAction::Aim => 5,
        UserAction::LeftArm => 7,
        UserAction::LeftArmSecondary => 9,
        UserAction::RightArm => 11,
        UserAction::RightArmSecondary => 13,
        UserAction::LeftShoulder => 15,
        UserAction::RightShoulder => 17,
        UserAction::Legs => 19,
        UserAction::Head => 21,
        UserAction::TabLeft => 22,
        UserAction::TabRight => 25,
        UserAction::Select => 28,
        UserAction::Cancel => 32,
    };
    assert(c[g].0 == action && gp(c[g].1));
    let k: int = match action {
        UserAction::Menu => 0,
        UserAction::Move => 4,
        UserAction::Aim => 4,
        UserAction::LeftArm => 6,
        UserAction::LeftArmSecondary => 8,
        UserAction::RightArm => 10,
        UserAction::RightArmSecondary => 12,
        UserAction::LeftShoulder => 14,
        UserAction::RightShoulder => 16,
        UserAction::Legs => 18,
        UserAction::Head => 20,
        UserAction::TabLeft => 24,
        UserAction::TabRight => 27,
        UserAction::Select => 29,
        UserAction::Cancel => 33,
    };
    if action != UserAction::Aim {
        assert(c[k].0 == action && kbm(c[k].1));
    }
}

/// The dual-axis actions `Move` and `Aim` are bound only to inputs read as an
/// axis pair, and every other action only to buttons and keys.
pub proof fn lemma_default_controls_axis_kinds()
    ensures
        forall|i: int|
            0 <= i < spec_default_controls().len() ==> (#[trigger] spec_default_controls()[i]).1.is_axis_pair()
                == spec_default_controls()[i].0.spec_is_dual_axis(),
{
    assert forall|i: int| 0 <= i < spec_default_controls().len() implies (
    #[trigger] spec_default_controls()[i]).1.is_axis_pair()
        == spec_default_controls()[i].0.spec_is_dual_axis() by {
        assert(spec_default_controls()[i] == default_binding(i));
    }
}


/// How sharp edges must be before FXAA smooths them.
#[derive(Debug, Clone, Copy, PartialEq, Eq, Structural)]
pub enum Sensitivity {
    Low,
    Medium,
    High,
    Ultra,
    Extreme,
}

impl Default for Sensitivity {
    fn default() -> (s: Self)
        ensures
            s == Sensitivity::Medium,
    {
        Sensitivity::Medium
    }
}

/// The number of samples per pixel for MSAA. Only 1 and 4 samples are
/// supported (see <https://github.com/gfx-rs/wgpu/issues/1832>).
#[derive(Debug, Clone, Copy, PartialEq, Eq, Structural)]
pub enum MsaaSamples {
    One,
    Four,
}

impl MsaaSamples {
    pub open spec fn spec_count(self) -> u32 {
        match self {
            MsaaSamples::One => 1,
            MsaaSamples::Four => 4,
        }
    }

    /// The number of samples per pixel.
    pub fn count(&self) -> (n: u32)
        ensures
            n == self.spec_count(),
            n == 1 || n == 4,
            *self == MsaaSamples::One ==> n == 1,
            *self == MsaaSamples::Four ==> n == 4,
    {
        match self {
            MsaaSamples::One => 1,
            MsaaSamples::Four => 4,
        }
    }
}

impl Default for MsaaSamples {
    fn default() -> (s: Self)
        ensures
            s == MsaaSamples::Four,
    {
        MsaaSamples::Four
    }
}

/// The anti-aliasing method and its setting.
#[derive(Debug, Clone, Copy, PartialEq, Eq, Structural)]
pub enum AntiAliasing {
    /// No anti-aliasing.
    Off,
    Fxaa { sensitivity: Sensitivity },
    Msaa { samples: MsaaSamples },
}

/// The anti-aliasing method alone, as chosen in the settings menu.
#[derive(Debug, Clone, Copy, PartialEq, Eq, Structural)]
pub enum AntiAliasingMode {
    Off,
    Fxaa,
    Msaa,
}

impl AntiAliasing {
    pub open spec fn spec_mode(self) -> AntiAliasingMode {
        match self {
            AntiAliasing::Off => AntiAliasingMode::Off,
            AntiAliasing::Fxaa { .. } => AntiAliasingMode::Fxaa,
            AntiAliasing::Msaa { .. } => AntiAliasingMode::Msaa,
        }
    }

    /// The setting that choosing `mode` in the menu gives: the method with
    /// its default setting.
    pub open spec fn spec_select(mode: AntiAliasingMode) -> AntiAliasing {
        match mode {
            AntiAliasingMode::Off => AntiAliasing::Off,
            AntiAliasingMode::Fxaa => AntiAliasing::Fxaa { sensitivity: Sensitivity::Medium },
            AntiAliasingMode::Msaa => AntiAliasing::Msaa { samples: MsaaSamples::Four },
        }
    }

    /// The method of this setting.
    pub fn mode(&self) -> (m: AntiAliasingMode)
        ensures
            m == self.spec_mode(),
            self is Off ==> m == AntiAliasingMode::Off,
            self is Fxaa ==> m == AntiAliasingMode::Fxaa,
            self is Msaa ==> m == AntiAliasingMode::Msaa,
    {
        match self {
            AntiAliasing::Off => AntiAliasingMode::Off,
            AntiAliasing::Fxaa { .. } => AntiAliasingMode::Fxaa,
            AntiAliasing::Msaa { .. } => AntiAliasingMode::Msaa,
        }
    }

    /// The setting that choosing `mode` in the menu gives: the method with
    /// its default setting.
    pub fn select(mode: AntiAliasingMode) -> (a: AntiAliasing)
        ensures
            a == Self::spec_select(mode),
            mode == AntiAliasingMode::Off ==> a == AntiAliasing::Off,
            mode == AntiAliasingMode::Fxaa ==> a == (AntiAliasing::Fxaa { sensitivity: Sensitivity::Medium }),
            mode == AntiAliasingMode::Msaa ==> a == (AntiAliasing::Msaa { samples: MsaaSamples::Four }),
    {
        match mode {
            AntiAliasingMode::Off => AntiAliasing::Off,
            AntiAliasingMode::Fxaa => AntiAliasing::Fxaa { sensitivity: Sensitivity::default() },
            AntiAliasingMode::Msaa => AntiAliasing::Msaa { samples: MsaaSamples::default() },
        }
    }
}

impl Default for AntiAliasing {
    fn default() -> (a: Self)
        ensures
            a == AntiAliasing::Off,
    {
        AntiAliasing::Off
    }
}

/// Choosing a method in the menu makes it the current method, with its
/// default setting.
pub proof fn lemma_select_anti_aliasing(mode: AntiAliasingMode)
    ensures
        AntiAliasing::spec_select(mode).spec_mode() == mode,
        AntiAliasing::spec_select(mode) matches AntiAliasing::Fxaa { sensitivity } ==> sensitivity
            == Sensitivity::Medium,
        AntiAliasing::spec_select(mode) matches AntiAliasing::Msaa { samples } ==> samples
            == MsaaSamples::Four,
{
}

/// The method of a setting does not depend on the method's own setting:
/// FXAA at any sensitivity is FXAA, MSAA at any sample count is MSAA, and no
/// anti-aliasing is `Off`. So the menu shows the method that is on, whatever
/// its setting, and choosing the shown method again gives back that method.
pub proof fn lemma_anti_aliasing_mode(s: Sensitivity, n: MsaaSamples, a: AntiAliasing)
    ensures
        (AntiAliasing::Fxaa { sensitivity: s }).spec_mode() == AntiAliasingMode::Fxaa,
        (AntiAliasing::Msaa { samples: n }).spec_mode() == AntiAliasingMode::Msaa,
        AntiAliasing::Off.spec_mode() == AntiAliasingMode::Off,
        AntiAliasing::spec_select(a.spec_mode()).spec_mode() == a.spec_mode(),
        (AntiAliasing::Fxaa { sensitivity: s }).spec_mode() != (AntiAliasing::Msaa {
            samples: n,
        }).spec_mode(),
        a.spec_mode() == AntiAliasingMode::Off <==> a == AntiAliasing::Off,
{
}

/// The graphics settings.
#[derive(Debug, Clone, Copy, PartialEq, Eq, Structural)]
pub struct Graphics {
    pub anti_aliasing: AntiAliasing,
    pub bloom: bool,
}

impl Default for Graphics {
    fn default() -> (g: Self)
        ensures
            g.anti_aliasing == AntiAliasing::Off,
            !g.bloom,
    {
        Graphics { anti_aliasing: AntiAliasing::default(), bloom: false }
    }
}

/// The ids of the abilities on each body part.
#[derive(Debug, Clone, PartialEq, Eq)]
pub struct AbilityIds {
    pub left_arm: String,
    pub right_arm: String,
    pub left_shoulder: String,
    pub right_shoulder: String,
    pub legs: String,
    pub head: String,
}

/// The player's persistent choices.
#[derive(Debug, Clone, PartialEq, Eq)]
pub struct PlayerConfig {
    pub ability_ids: AbilityIds,
}

impl Default for PlayerConfig {
    fn default() -> (p: Self)
        ensures
            p.ability_ids.left_arm@ == "gun"@,
            p.ability_ids.right_arm@ == "rocket"@,
            p.ability_ids.left_shoulder@ == "frag_grenade"@,
            p.ability_ids.right_shoulder@ == "gravity_ball"@,
            p.ability_ids.legs@ == "transport_beam"@,
            p.ability_ids.head@ == "noop"@,
    {
        PlayerConfig {
            ability_ids: AbilityIds {
                left_arm: "gun".to_owned(),
                right_arm: "rocket".to_owned(),
                left_shoulder: "frag_grenade".to_owned(),
                right_shoulder: "gravity_ball".to_owned(),
                legs: "transport_beam".to_owned(),
                head: "noop".to_owned(),
            },
        }
    }
}

} // verus!
