//! Turning the player's raw input into game input: which game actions are
//! held, and whether the camera follows the mouse or the gamepad.
use vstd::prelude::*;
use crate::config::{GameAction, UserAction};

verus! {

/// Which device the player aims with, and so what the camera follows.
#[derive(Debug, Clone, Copy, PartialEq, Eq, Hash, Structural)]
pub enum CameraFollowMode {
    Mouse,
    Controller,
}

impl Default for CameraFollowMode {
    /// The controller is the default: a simple mouse movement switches to the
    /// mouse, while switching to the controller takes more.
    fn default() -> (m: Self)
        ensures
            m == CameraFollowMode::Controller,
    {
        CameraFollowMode::Controller
    }
}

/// The follow mode after one frame of input.
pub open spec fn spec_next_camera_mode(
    mode: CameraFollowMode,
    cursor_moved: bool,
    aim_stick_pushed: bool,
) -> CameraFollowMode {
    if cursor_moved {
        CameraFollowMode::Mouse
    } else if aim_stick_pushed {
        CameraFollowMode::Controller
    } else {
        mode
    }
}

/// Guesses whether the player wants to aim with the mouse or the controller:
/// any cursor movement in the frame means the mouse; otherwise the aim stick
/// pushed past half its range (`aim_stick_pushed`) means the controller;
/// otherwise the mode stays as it was.
pub fn next_camera_mode(mode: CameraFollowMode, cursor_moved: bool, aim_stick_pushed: bool) -> (next:
    CameraFollowMode)
    ensures
        next == spec_next_camera_mode(mode, cursor_moved, aim_stick_pushed),
        cursor_moved ==> next == CameraFollowMode::Mouse,
        next == CameraFollowMode::Controller ==> aim_stick_pushed || mode == CameraFollowMode::Controller,
        !cursor_moved && aim_stick_pushed ==> next == CameraFollowMode::Controller,
        !cursor_moved && !aim_stick_pushed ==> next == mode,
{
    if cursor_moved {
        CameraFollowMode::Mouse
    } else if aim_stick_pushed {
        CameraFollowMode::Controller
    } else {
        mode
    }
}

/// How the follow mode moves, for every previous mode: a cursor movement
/// always makes it follow the mouse; without one, pushing the aim stick
/// always makes it follow the controller (also when it already did); with
/// neither, it stays. Following the controller therefore persists while the
/// stick is pushed, and only a cursor movement switches back to the mouse.
pub proof fn lemma_camera_mode_switching(mode: CameraFollowMode, cursor_moved: bool, aim_stick_pushed: bool)
    ensures
        cursor_moved ==> spec_next_camera_mode(mode, cursor_moved, aim_stick_pushed)
            == CameraFollowMode::Mouse,
        !cursor_moved && aim_stick_pushed ==> spec_next_camera_mode(mode, cursor_moved, aim_stick_pushed)
            == CameraFollowMode::Controller,
        !cursor_moved && !aim_stick_pushed ==> spec_next_camera_mode(mode, cursor_moved, aim_stick_pushed)
            == mode,
        spec_next_camera_mode(CameraFollowMode::Controller, false, true) == CameraFollowMode::Controller,
        spec_next_camera_mode(spec_next_camera_mode(mode, cursor_moved, aim_stick_pushed), false, false)
            == spec_next_camera_mode(mode, cursor_moved, aim_stick_pushed),
{
}

/// The game actions among the pressed user actions, in order.
pub open spec fn spec_pressed_game_actions(pressed: Seq<UserAction>) -> Seq<GameAction>
    decreases pressed.len(),
{
    if pressed.len() == 0 {
        Seq::empty()
    } else {
        let rest = spec_pressed_game_actions(pressed.drop_last());
        match pressed.last().spec_game_action() {
            Some(g) => rest.push(g),
            None => rest,
        }
    }
}

/// The game actions among the pressed user actions, in order; menu actions,
/// `Menu` and the axis pairs are left out.
pub fn pressed_game_actions(pressed: &Vec<UserAction>) -> (actions: Vec<GameAction>)
    ensures
        actions@ == spec_pressed_game_actions(pressed@),
{
    let mut actions: Vec<GameAction> = Vec::new();
    let mut i: usize = 0;
    while i < pressed.len()
        invariant
            i <= pressed@.len(),
            actions@ == spec_pressed_game_actions(pressed@.take(i as int)),
        decreases pressed.len() - i,
    {
        let a = pressed[i];
        assert(pressed@.take(i as int + 1).drop_last() =~= pressed@.take(i as int));
        match a.game_action() {
            Some(g) => actions.push(g),
            None => {},
        }
        i = i + 1;
    }
    assert(pressed@.take(pressed@.len() as int) =~= pressed@);
    actions
}

/// A game action is held exactly when it was pressed: each pressed user
/// action that is a game action gives that game action, and nothing else is
/// given.
pub proof fn lemma_pressed_game_actions(pressed: Seq<UserAction>, g: GameAction)
    ensures
        spec_pressed_game_actions(pressed).contains(g) <==> pressed.contains(g.spec_user_action()),
        spec_pressed_game_actions(pressed).len() <= pressed.len(),
    decreases pressed.len(),
{
    if pressed.len() > 0 {
        let init = pressed.drop_last();
        lemma_pressed_game_actions(init, g);
        let rest = spec_pressed_game_actions(init);
        let last = pressed.last();
        assert(pressed =~= init.push(last));
        if pressed.contains(g.spec_user_action()) {
            let k = choose|k: int| 0 <= k < pressed.len() && pressed[k] == g.spec_user_action();
            if k < pressed.len() - 1 {
                assert(init[k] == g.spec_user_action());
            }
        }
        if init.contains(g.spec_user_action()) {
            let k = choose|k: int| 0 <= k < init.len() && init[k] == g.spec_user_action();
            assert(pressed[k] == g.spec_user_action());
        }
        match last.spec_game_action() {
            Some(h) => {
                let full = rest.push(h);
                if full.contains(g) {
                    let k = choose|k: int| 0 <= k < full.len() && full[k] == g;
                    if k < rest.len() {
                        assert(rest[k] == g);
                    }
                }
                if rest.contains(g) {
                    let k = choose|k: int| 0 <= k < rest.len() && rest[k] == g;
                    assert(full[k] == g);
                }
                assert(h == g ==> full[full.len() - 1] == g);
                assert(last == g.spec_user_action() ==> pressed[pressed.len() - 1] == last);
            },
            None => {
                assert(last == g.spec_user_action() ==> last.spec_game_action() is Some);
            },
        }
    }
}

} // verus!
