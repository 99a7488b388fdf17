use gam_client::audio::choose_track;
use gam_client::bar::{BarChildMarker, BarMarker};
use gam_client::config::{
    default_controls, AntiAliasing, AntiAliasingMode, GameAction, GamepadButton, GamepadStick,
    Graphics, InputBinding, Key, MenuAction, MouseButton, MsaaSamples, PlayerConfig, Sensitivity,
    UserAction,
};
use gam_client::controls::{next_camera_mode, pressed_game_actions, CameraFollowMode};
use gam_client::debug::DebugFlags;
use gam_client::hud::{FpsFrameCounter, FPS_SAMPLE_FRAMES};
use gam_client::level::{light_grid, light_offset, wall_pieces, WallKind, WallMaterial, WallPart, WallPiece};
use gam_client::particles::{ParticleEffectPool, PoolAction};
use gam_client::shapes::{
    chunk_triangle_indices, chunk_vertex_layout, hollow_chunk_indices, Ring, RingVertex,
};

const ALL_ACTIONS: [UserAction; 15] = [
    UserAction::LeftArm,
    UserAction::LeftArmSecondary,
    UserAction::RightArm,
    UserAction::RightArmSecondary,
    UserAction::LeftShoulder,
    UserAction::RightShoulder,
    UserAction::Legs,
    UserAction::Head,
    UserAction::Move,
    UserAction::Aim,
    UserAction::Menu,
    UserAction::Select,
    UserAction::Cancel,
    UserAction::TabLeft,
    UserAction::TabRight,
];

#[test]
fn floor_is_not_a_wall() {
    assert!(!WallKind::Floor.is_wall());
    assert!(WallKind::Short.is_wall());
    assert!(WallKind::Standard.is_wall());
    assert!(WallKind::Tall.is_wall());
}

#[test]
fn wall_materials() {
    assert_eq!(WallKind::Floor.opaque(), WallMaterial::Floor);
    assert_eq!(WallKind::Floor.trans(), WallMaterial::Floor);
    assert_eq!(WallKind::Short.opaque(), WallMaterial::ShortWall);
    assert_eq!(WallKind::Short.trans(), WallMaterial::ShortWallTrans);
    assert_eq!(WallKind::Standard.opaque(), WallMaterial::Wall);
    assert_eq!(WallKind::Standard.trans(), WallMaterial::WallTrans);
    assert_eq!(WallKind::Tall.opaque(), WallMaterial::TallWall);
    assert_eq!(WallKind::Tall.trans(), WallMaterial::TallWallTrans);
}

#[test]
fn wall_is_cut_into_base_and_upper() {
    assert_eq!(
        wall_pieces(WallKind::Tall),
        vec![
            WallPiece { part: WallPart::Base, kind: WallKind::Floor },
            WallPiece { part: WallPart::Upper, kind: WallKind::Tall },
        ]
    );
    assert_eq!(
        wall_pieces(WallKind::Floor),
        vec![WallPiece { part: WallPart::Whole, kind: WallKind::Floor }]
    );
    for kind in [WallKind::Short, WallKind::Standard, WallKind::Tall] {
        let pieces = wall_pieces(kind);
        assert_eq!(pieces.iter().filter(|p| p.kind.is_wall()).count(), 1);
    }
}

#[test]
fn light_offsets_centre_the_grid() {
    assert_eq!(light_offset(1), 0);
    assert_eq!(light_offset(2), -1);
    assert_eq!(light_offset(3), -2);
    assert_eq!(light_offset(4), -3);
    assert_eq!(light_offset(7), -6);
}

#[test]
fn light_grid_rows() {
    let cells = light_grid(2, 3);
    assert_eq!(cells, vec![(-1, -2), (-1, 0), (-1, 2), (1, -2), (1, 0), (1, 2)]);
    let single = light_grid(1, 1);
    assert_eq!(single, vec![(0, 0)]);
    let grid = light_grid(4, 5);
    assert_eq!(grid.len(), 20);
    let sum_x: i64 = grid.iter().map(|c| c.0).sum();
    let sum_z: i64 = grid.iter().map(|c| c.1).sum();
    assert_eq!((sum_x, sum_z), (0, 0));
}

#[test]
fn chunk_layout_inner_then_outer() {
    let layout = chunk_vertex_layout(3);
    assert_eq!(
        layout,
        vec![
            RingVertex { ring: Ring::Inner, step: 0 },
            RingVertex { ring: Ring::Inner, step: 1 },
            RingVertex { ring: Ring::Inner, step: 2 },
            RingVertex { ring: Ring::Outer, step: 0 },
            RingVertex { ring: Ring::Outer, step: 1 },
            RingVertex { ring: Ring::Outer, step: 2 },
        ]
    );
}

#[test]
fn chunk_indices_close_the_ring() {
    assert_eq!(
        chunk_triangle_indices(2),
        vec![0, 2, 3, 1, 0, 3, 1, 3, 2, 0, 1, 2]
    );
    assert_eq!(
        chunk_triangle_indices(3),
        vec![0, 3, 4, 1, 0, 4, 1, 4, 5, 2, 1, 5, 2, 5, 3, 0, 2, 3]
    );
}

#[test]
fn chunk_indices_are_in_range() {
    for v in [2u32, 5, 30, 60] {
        let indices = chunk_triangle_indices(v);
        assert_eq!(indices.len(), 6 * v as usize);
        assert!(indices.iter().all(|&i| i < 2 * v));
    }
}

#[test]
fn hollow_chunk_indices_follow_the_outer_chunk() {
    let v = 4u32;
    let chunk = chunk_triangle_indices(v);
    let hollow = hollow_chunk_indices(v);
    assert_eq!(hollow.len(), 12 * v as usize);
    assert_eq!(&hollow[..chunk.len()], &chunk[..]);
    for (k, &idx) in chunk.iter().enumerate() {
        assert_eq!(hollow[chunk.len() + k], idx + 2 * v);
    }
    assert!(hollow.iter().all(|&i| i < 4 * v));
}

#[test]
fn pool_spawns_then_reuses() {
    let mut pool: ParticleEffectPool<&str, u64> = ParticleEffectPool::new("death");
    assert_eq!(*pool.asset(), "death");
    // Two effects in frame 1: both need new instances.
    assert_eq!(pool.trigger(1), PoolAction::Spawn);
    pool.add_spawned(10);
    assert_eq!(pool.trigger(1), PoolAction::Spawn);
    pool.add_spawned(11);
    // Frame 2: the instances are reused in order, then a new one is needed.
    assert_eq!(pool.trigger(2), PoolAction::Reuse(10));
    assert_eq!(pool.trigger(2), PoolAction::Reuse(11));
    assert_eq!(pool.trigger(2), PoolAction::Spawn);
    pool.add_spawned(12);
    // Frame 3: starts over from the first instance.
    assert_eq!(pool.trigger(3), PoolAction::Reuse(10));
}

#[test]
fn pool_reset_starts_over_within_a_frame() {
    let mut pool: ParticleEffectPool<(), u32> = ParticleEffectPool::new(());
    assert_eq!(pool.trigger(0), PoolAction::Spawn);
    pool.add_spawned(5);
    pool.reset();
    assert_eq!(pool.trigger(0), PoolAction::Reuse(5));
    assert_eq!(pool.trigger(0), PoolAction::Spawn);
}

#[test]
fn default_controls_first_and_last() {
    let controls = default_controls();
    assert_eq!(controls.len(), 35);
    assert_eq!(controls[0], (UserAction::Menu, InputBinding::Key(Key::Escape)));
    assert_eq!(
        controls[4],
        (
            UserAction::Move,
            InputBinding::KeyDPad { up: Key::KeyE, down: Key::KeyD, left: Key::KeyS, right: Key::KeyF }
        )
    );
    assert_eq!(controls[5], (UserAction::Aim, InputBinding::Stick(GamepadStick::Right)));
    assert_eq!(controls[34], (UserAction::Cancel, InputBinding::Mouse(MouseButton::Right)));
    assert!(controls.contains(&(UserAction::Legs, InputBinding::Gamepad(GamepadButton::South))));
}

fn is_keyboard_mouse(b: &InputBinding) -> bool {
    matches!(b, InputBinding::Key(_) | InputBinding::Mouse(_) | InputBinding::KeyDPad { .. })
}

fn is_axis(b: &InputBinding) -> bool {
    matches!(b, InputBinding::Stick(_) | InputBinding::GamepadDPad | InputBinding::KeyDPad { .. })
}

#[test]
fn default_controls_cover_keyboard_and_gamepad() {
    let controls = default_controls();
    for action in ALL_ACTIONS {
        let gamepad = controls.iter().any(|(a, b)| *a == action && !is_keyboard_mouse(b));
        let kbm = controls.iter().any(|(a, b)| *a == action && is_keyboard_mouse(b));
        assert!(gamepad, "{action:?} has no gamepad binding");
        assert_eq!(kbm, action != UserAction::Aim, "{action:?}");
    }
}

#[test]
fn default_controls_axis_kinds() {
    for (action, binding) in default_controls() {
        assert_eq!(is_axis(&binding), action.is_dual_axis(), "{action:?} {binding:?}");
    }
}

#[test]
fn game_and_menu_actions() {
    assert_eq!(UserAction::Legs.game_action(), Some(GameAction::Legs));
    assert_eq!(UserAction::Select.game_action(), None);
    assert_eq!(UserAction::Select.menu_action(), Some(MenuAction::Select));
    assert_eq!(UserAction::Menu.game_action(), None);
    assert_eq!(UserAction::Menu.menu_action(), None);
    assert_eq!(UserAction::Move.game_action(), None);
    for action in ALL_ACTIONS {
        assert!(!(action.game_action().is_some() && action.menu_action().is_some()));
        if let Some(g) = action.game_action() {
            assert_eq!(g.user_action(), action);
        }
        if let Some(m) = action.menu_action() {
            assert_eq!(m.user_action(), action);
        }
    }
    assert_eq!(GameAction::Head.user_action().game_action(), Some(GameAction::Head));
    assert_eq!(MenuAction::TabLeft.user_action().menu_action(), Some(MenuAction::TabLeft));
}

#[test]
fn pressed_actions_keep_game_actions_in_order() {
    let pressed = vec![
        UserAction::Select,
        UserAction::RightArm,
        UserAction::Move,
        UserAction::Legs,
        UserAction::Menu,
    ];
    assert_eq!(pressed_game_actions(&pressed), vec![GameAction::RightArm, GameAction::Legs]);
    assert_eq!(pressed_game_actions(&vec![]), vec![]);
}

#[test]
fn camera_follow_mode_switching() {
    assert_eq!(CameraFollowMode::default(), CameraFollowMode::Controller);
    assert_eq!(
        next_camera_mode(CameraFollowMode::Controller, true, true),
        CameraFollowMode::Mouse
    );
    assert_eq!(
        next_camera_mode(CameraFollowMode::Mouse, false, true),
        CameraFollowMode::Controller
    );
    assert_eq!(
        next_camera_mode(CameraFollowMode::Mouse, false, false),
        CameraFollowMode::Mouse
    );
    assert_eq!(
        next_camera_mode(CameraFollowMode::Controller, false, false),
        CameraFollowMode::Controller
    );
}

#[test]
fn anti_aliasing_selection() {
    assert_eq!(AntiAliasing::default(), AntiAliasing::Off);
    assert_eq!(AntiAliasing::select(AntiAliasingMode::Off), AntiAliasing::Off);
    assert_eq!(
        AntiAliasing::select(AntiAliasingMode::Fxaa),
        AntiAliasing::Fxaa { sensitivity: Sensitivity::Medium }
    );
    assert_eq!(
        AntiAliasing::select(AntiAliasingMode::Msaa),
        AntiAliasing::Msaa { samples: MsaaSamples::Four }
    );
    assert_eq!(
        AntiAliasing::Fxaa { sensitivity: Sensitivity::Ultra }.mode(),
        AntiAliasingMode::Fxaa
    );
    assert_eq!(AntiAliasing::Msaa { samples: MsaaSamples::One }.mode(), AntiAliasingMode::Msaa);
    assert_eq!(AntiAliasing::Off.mode(), AntiAliasingMode::Off);
}

#[test]
fn msaa_sample_counts() {
    assert_eq!(MsaaSamples::One.count(), 1);
    assert_eq!(MsaaSamples::Four.count(), 4);
    assert_eq!(MsaaSamples::default(), MsaaSamples::Four);
}

#[test]
fn graphics_defaults() {
    let g = Graphics::default();
    assert_eq!(g.anti_aliasing, AntiAliasing::Off);
    assert!(!g.bloom);
    assert_eq!(Sensitivity::default(), Sensitivity::Medium);
}

#[test]
fn player_config_default_loadout() {
    let p = PlayerConfig::default();
    assert_eq!(p.ability_ids.left_arm, "gun");
    assert_eq!(p.ability_ids.right_arm, "rocket");
    assert_eq!(p.ability_ids.left_shoulder, "frag_grenade");
    assert_eq!(p.ability_ids.right_shoulder, "gravity_ball");
    assert_eq!(p.ability_ids.legs, "transport_beam");
    assert_eq!(p.ability_ids.head, "noop");
}

#[test]
fn fps_samples_every_hundred_frames() {
    let mut counter = FpsFrameCounter::new();
    let mut sampled = vec![];
    for _ in 0..250 {
        if counter.tick() {
            sampled.push(counter.frame());
        }
    }
    assert_eq!(FPS_SAMPLE_FRAMES, 100);
    assert_eq!(sampled, vec![100, 200]);
    assert_eq!(counter.frame(), 250);
}

#[test]
fn music_track_choice() {
    assert_eq!(choose_track(None), None);
    assert_eq!(choose_track(Some(1)), Some(0));
    for _ in 0..50 {
        let t = choose_track(Some(3)).unwrap();
        assert!(t < 3);
    }
}

#[test]
fn debug_all_implies_every_aid() {
    let all = DebugFlags {
        all: true,
        paths: false,
        raycast_cursor: false,
        inspector: false,
        rapier: false,
        frame_time: false,
        debug_text: false,
    };
    let f = all.features();
    assert!(f.paths && f.raycast_cursor && f.inspector && f.rapier && f.frame_time && f.debug_text);

    let some = DebugFlags { all: false, paths: true, debug_text: true, ..all };
    let f = some.features();
    assert!(f.paths && f.debug_text);
    assert!(!f.raycast_cursor && !f.inspector && !f.rapier && !f.frame_time);
}

#[test]
fn bar_markers_construct() {
    let _health: BarMarker<u8> = BarMarker::default();
    let _energy: BarChildMarker<u16> = BarChildMarker::default();
}
