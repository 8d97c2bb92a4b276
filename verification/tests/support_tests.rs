//! The supporting pieces: sprite sheet parsing, effects, the stage
//! indicator, the frame counter and the game bookkeeping.

use galangua_core::effect::{to_earned_point_type, EarnedPoint, EarnedPointType, SmallBomb};
use galangua_core::framework::SystemTrait;
use galangua_core::fps_calc::FpsCalc;
use galangua_core::game_info::{CaptureState, GameAction, GameInfo, GameState};
use galangua_core::sprite_sheet::SpriteSheet;
use galangua_core::stage_indicator::{calc_width, StageIndicator};
use galangua_core::types::Vec2I;

struct NullSystem {
    played: u32,
}

impl SystemTrait for NullSystem {
    fn play_se(&mut self, _channel: u32, _id: u32) {
        self.played += 1;
    }

    fn get_u32(&self, _key: &str) -> Option<u32> {
        None
    }

    fn set_u32(&mut self, _key: &str, _value: u32) {}
}

#[test]
fn sprite_sheet_loads_frames() {
    let text = r#"{
        "frames": {
            "gopher1.png": {
                "frame": {"x": 0, "y": 0, "w": 16, "h": 16},
                "rotated": false,
                "trimmed": false
            },
            "dman1.png": {
                "frame": {"x": 16, "y": 0, "w": 16, "h": 16},
                "rotated": true,
                "trimmed": true,
                "spriteSourceSize": {"x": 1, "y": 2, "w": 14, "h": 12},
                "sourceSize": {"w": 16, "h": 16}
            }
        },
        "meta": {"image": "galangua.png"}
    }"#;
    let sheet = SpriteSheet::load(text).expect("well-formed sheet");
    assert_eq!(sheet.texture_name, "galangua");
    let s = sheet.get("gopher1").expect("extension-stripped key");
    assert_eq!(s.frame.x, 0);
    assert_eq!(s.frame.w, 16);
    assert!(!s.rotated);
    assert!(s.trimmed.is_none());
    let t = sheet.get("dman1").expect("second sprite");
    assert!(t.rotated);
    let trim = t.trimmed.expect("trim data kept");
    assert_eq!(trim.sprite_source_size.x, 1);
    assert_eq!(trim.source_size.w, 16);
    assert!(sheet.get("nothere").is_none());
}

#[test]
fn sprite_sheet_rejects_bad_documents() {
    assert!(SpriteSheet::load("this is not json").is_none());
    assert!(SpriteSheet::load("[1, 2, 3]").is_none());
    assert!(SpriteSheet::load(r#"{"meta": {"image": 7}, "frames": {}}"#).is_none());
    assert!(
        SpriteSheet::load(r#"{"meta": {"image": "t.png"}, "frames": {"a.png": {"rotated": false}}}"#)
            .is_none()
    );
}

#[test]
fn empty_sheet_has_nothing() {
    let sheet = SpriteSheet::empty();
    assert_eq!(sheet.texture_name, "");
    assert!(sheet.get("anything").is_none());
}

#[test]
fn effects_live_their_frames() {
    let mut p = EarnedPoint::new(EarnedPointType::Point800, Vec2I { x: 10, y: 10 });
    let mut frames = 0;
    while p.update() {
        frames += 1;
    }
    assert_eq!(frames, 29);
    let mut b = SmallBomb::new(Vec2I { x: 10, y: 10 });
    let mut frames = 0;
    while b.update() {
        frames += 1;
    }
    assert_eq!(frames, 14);
}

#[test]
fn earned_point_types_by_amount() {
    assert_eq!(to_earned_point_type(1600), Some(EarnedPointType::Point1600));
    assert_eq!(to_earned_point_type(800), Some(EarnedPointType::Point800));
    assert_eq!(to_earned_point_type(400), Some(EarnedPointType::Point400));
    assert_eq!(to_earned_point_type(150), Some(EarnedPointType::Point150));
    assert_eq!(to_earned_point_type(100), None);
}

#[test]
fn stage_indicator_counts_flags() {
    assert_eq!(calc_width(0), 0);
    assert_eq!(calc_width(1), 8);
    assert_eq!(calc_width(5), 8);
    assert_eq!(calc_width(6), 16);
    assert_eq!(calc_width(10), 16);
    assert_eq!(calc_width(38), 48);
    let mut si = StageIndicator::new();
    si.set_stage(7);
    let mut sys = NullSystem { played: 0 };
    for _ in 0..40 {
        si.update(&mut sys);
    }
    // 7 = one five-flag and two one-flags: three sounds
    assert_eq!(sys.played, 3);
    assert_eq!(si.stage_disp, 7);
}

#[test]
fn fps_counts_draws_within_a_second() {
    let mut f = FpsCalc::new();
    assert_eq!(f.fps(), 0);
    let latched = f.update();
    // within the same wall-clock second nothing latches
    assert!(!latched);
    assert_eq!(f.fps(), 0);
}

#[test]
fn game_info_player_lifecycle() {
    let mut gi = GameInfo::new();
    assert_eq!(gi.left_ship, 3);
    assert!(gi.can_capture());
    assert!(gi.can_capture_attack());
    // the ship dies: attacks pause, the wait begins
    let acts = gi.crash_player(true);
    assert_eq!(acts, vec![GameAction::PauseAttack(true)]);
    assert_eq!(gi.game_state, GameState::PlayerDead);
    for _ in 0..60 {
        gi.update(true);
    }
    assert_eq!(gi.game_state, GameState::WaitReady);
    // the field is clear: the next ship launches disarmed
    let mut launched = Vec::new();
    for _ in 0..61 {
        launched = gi.update(true);
        if gi.game_state != GameState::WaitReady {
            break;
        }
    }
    assert_eq!(gi.game_state, GameState::WaitReady2);
    assert_eq!(gi.left_ship, 2);
    assert_eq!(
        launched,
        vec![GameAction::RestartPlayers, GameAction::EnablePlayerShot(false)]
    );
    // it arms after the wait
    let mut armed = Vec::new();
    for _ in 0..61 {
        armed = gi.update(true);
        if gi.game_state == GameState::Playing {
            break;
        }
    }
    assert_eq!(gi.game_state, GameState::Playing);
    assert!(armed.contains(&GameAction::EnablePlayerShot(true)));
}

#[test]
fn game_info_capture_flow() {
    let mut gi = GameInfo::new();
    gi.start_capturing();
    assert_eq!(gi.capture_state, CaptureState::Capturing);
    assert!(!gi.can_capture_attack());
    gi.capture_player();
    assert_eq!(gi.game_state, GameState::Capturing);
    assert!(!gi.can_capture());
    gi.player_captured();
    assert_eq!(gi.capture_state, CaptureState::Captured);
    gi.capture_completed();
    assert_eq!(gi.game_state, GameState::WaitReady);
    // after the held ship is resolved the capture slot frees
    gi.capture_state = CaptureState::Recapturing;
    gi.end_capture_attack();
    assert_eq!(gi.capture_state, CaptureState::NoCapture);
}

#[test]
fn game_over_when_ships_run_out() {
    let mut gi = GameInfo::new();
    gi.left_ship = 1;
    let acts = gi.next_player();
    assert_eq!(gi.game_state, GameState::GameOver);
    assert_eq!(gi.left_ship, 0);
    assert_eq!(acts, vec![GameAction::PauseAttack(true)]);
}
