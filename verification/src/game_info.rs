//! The game-wide player/capture bookkeeping: how many ships remain,
//! what the player is doing, and where the capture protocol stands.
//!
//! The decisions live here as a pure state machine; the owner performs
//! the returned actions (restarting the player ship, pausing the
//! schedulers, stopping the star field) and feeds back what it sees.

use vstd::prelude::*;
use crate::consts::DEFAULT_LEFT_SHIP;
use crate::types::FormationIndex;

verus! {

/// Ticks waited before a new ship launches.
pub const WAIT_READY_TICKS: u32 = 60;

/// The player's lifecycle state.
#[derive(Clone, Copy, Debug, PartialEq, Eq, Structural)]
pub enum GameState {
    /// Normal play.
    Playing,
    /// The ship just exploded.
    PlayerDead,
    /// Waiting for the field to clear before the next ship.
    WaitReady,
    /// The next ship is on screen but not yet armed.
    WaitReady2,
    /// The beam is pulling the ship in.
    Capturing,
    /// The ship is held by the Owl.
    Captured,
    /// A recaptured ship is docking.
    Recapturing,
    /// No ships left.
    GameOver,
}

/// Where the capture protocol stands, game-wide.
#[derive(Clone, Copy, Debug, PartialEq, Eq, Structural)]
pub enum CaptureState {
    /// No capture anywhere.
    NoCapture,
    /// An Owl is pulling the ship in.
    Capturing,
    /// An Owl holds a captured ship.
    Captured,
    /// A held ship is being recaptured.
    Recapturing,
    /// The player flies a dual fighter.
    Dual,
}

/// An action the owner must perform after a bookkeeping step.
#[derive(Clone, Copy, Debug, PartialEq, Eq, Structural)]
pub enum GameAction {
    /// Arm or disarm the player's gun.
    EnablePlayerShot(bool),
    /// Suspend or resume the attack and appearance schedulers.
    PauseAttack(bool),
    /// Freeze or release the star field.
    SetStarStop(bool),
    /// Put the next ship on screen, disarmed.
    RestartPlayers,
}

/// The game-wide bookkeeping state.
pub struct GameInfo {
    /// Ships remaining (including the one in play).
    pub left_ship: u32,
    /// Player lifecycle state.
    pub game_state: GameState,
    /// Ticks inside the current state.
    pub count: u32,
    /// Capture protocol state.
    pub capture_state: CaptureState,
    /// Slot of the Owl holding a capture.
    pub capture_enemy_fi: FormationIndex,
}

impl GameInfo {
    /// The tick counter stays bounded.
    pub open spec fn wf(&self) -> bool {
        self.count <= 0x4000_0000
    }

    /// Builds the start-of-game state.
    pub fn new() -> (r: GameInfo)
        ensures
            r.wf(),
            r.left_ship == DEFAULT_LEFT_SHIP,
            r.game_state is Playing,
            r.count == 0,
            r.capture_state is NoCapture,
            r.capture_enemy_fi == FormationIndex(0, 0),
    {
        GameInfo {
            left_ship: DEFAULT_LEFT_SHIP,
            game_state: GameState::Playing,
            count: 0,
            capture_state: CaptureState::NoCapture,
            capture_enemy_fi: FormationIndex(0, 0),
        }
    }

    /// One bookkeeping tick.  A dead ship waits, then the next ship
    /// launches once no attacker is out; a launched ship arms after a
    /// fixed wait; a captured ship just counts.  The returned actions
    /// are what the owner must apply.
    pub fn update(&mut self, is_no_attacker: bool) -> (r: Vec<GameAction>)
        requires
            old(self).wf(),
        ensures
            final(self).wf(),
            final(self).capture_state == old(self).capture_state,
            final(self).capture_enemy_fi == old(self).capture_enemy_fi,
            // dead: after the wait, move to WaitReady
            old(self).game_state is PlayerDead ==> final(self).left_ship == old(self).left_ship
                && (final(self).game_state is PlayerDead || final(self).game_state is WaitReady),
            // waiting: once the field is clear and the wait has passed,
            // the next ship launches (or the game ends)
            old(self).game_state is WaitReady && !is_no_attacker ==> *final(self) == *old(self)
                && r@.len() == 0,
            // arming: after the wait the ship arms and play resumes
            old(self).game_state is WaitReady2 ==> final(self).left_ship == old(self).left_ship
                && (final(self).game_state is WaitReady2 || final(self).game_state is Playing),
            old(self).game_state is Playing ==> *final(self) == *old(self) && r@.len() == 0,
            old(self).game_state is GameOver ==> *final(self) == *old(self) && r@.len() == 0,
    {
        let mut actions: Vec<GameAction> = Vec::new();
        match self.game_state {
            GameState::PlayerDead => {
                self.bump_count();
                if self.count >= WAIT_READY_TICKS {
                    self.game_state = GameState::WaitReady;
                    self.count = 0;
                }
            },
            GameState::WaitReady => {
                if is_no_attacker {
                    self.bump_count();
                    if self.count >= WAIT_READY_TICKS {
                        let next = self.next_player();
                        return next;
                    }
                }
            },
            GameState::WaitReady2 => {
                self.bump_count();
                if self.count >= WAIT_READY_TICKS {
                    actions.push(GameAction::EnablePlayerShot(true));
                    actions.push(GameAction::PauseAttack(false));
                    actions.push(GameAction::SetStarStop(false));
                    self.game_state = GameState::Playing;
                    self.count = 0;
                }
            },
            GameState::Captured => {
                self.bump_count();
            },
            _ => {},
        }
        actions
    }

    /// Saturating tick count.
    fn bump_count(&mut self)
        requires
            old(self).wf(),
        ensures
            final(self).wf(),
            *final(self) == (GameInfo {
                count: if old(self).count < 0x4000_0000 {
                    (old(self).count + 1) as u32
                } else {
                    old(self).count
                },
                ..*old(self)
            }),
    {
        if self.count < 0x4000_0000 {
            self.count = self.count + 1;
        }
    }

    /// True when a new capture attack may start: nothing captured or
    /// being captured anywhere.
    pub fn can_capture_attack(&self) -> (r: bool)
        ensures
            r == (self.capture_state is NoCapture),
    {
        matches!(self.capture_state, CaptureState::NoCapture)
    }

    /// True when the player may be captured right now.
    pub fn can_capture(&self) -> (r: bool)
        ensures
            r == (self.game_state is Playing),
    {
        matches!(self.game_state, GameState::Playing)
    }

    /// A capture attack ended without a held ship.  Asking this of a
    /// completed capture is a programming error, ruled out here.
    pub fn end_capture_attack(&mut self)
        requires
            old(self).wf(),
            !(old(self).capture_state is Captured),
        ensures
            final(self).wf(),
            *final(self) == (GameInfo {
                capture_state: CaptureState::NoCapture,
                capture_enemy_fi: FormationIndex(0, 0),
                ..*old(self)
            }),
    {
        self.capture_state = CaptureState::NoCapture;
        self.capture_enemy_fi = FormationIndex(0, 0);
    }

    /// An Owl's beam started pulling the ship in.
    pub fn start_capturing(&mut self)
        requires
            old(self).wf(),
        ensures
            final(self).wf(),
            *final(self) == (GameInfo { capture_state: CaptureState::Capturing, ..*old(self) }),
    {
        self.capture_state = CaptureState::Capturing;
    }

    /// The beam caught the ship: play is interrupted.
    pub fn capture_player(&mut self)
        requires
            old(self).wf(),
        ensures
            final(self).wf(),
            *final(self) == (GameInfo {
                game_state: GameState::Capturing,
                capture_state: CaptureState::Capturing,
                ..*old(self)
            }),
    {
        self.game_state = GameState::Capturing;
        self.capture_state = CaptureState::Capturing;
    }

    /// The capture animation finished: the Owl holds the ship.
    pub fn player_captured(&mut self)
        requires
            old(self).wf(),
        ensures
            final(self).wf(),
            *final(self) == (GameInfo {
                game_state: GameState::Captured,
                capture_state: CaptureState::Captured,
                count: 0,
                ..*old(self)
            }),
    {
        self.capture_state = CaptureState::Captured;
        self.game_state = GameState::Captured;
        self.count = 0;
    }

    /// The capture fully resolved: schedule the next ship launch on
    /// the coming tick.
    pub fn capture_completed(&mut self)
        requires
            old(self).wf(),
        ensures
            final(self).wf(),
            *final(self) == (GameInfo {
                game_state: GameState::WaitReady,
                count: (WAIT_READY_TICKS - 1) as u32,
                ..*old(self)
            }),
    {
        self.game_state = GameState::WaitReady;
        self.count = WAIT_READY_TICKS - 1;
    }

    /// The ship collided.  A real death pauses the attackers and
    /// starts the dead-ship wait; losing one half of a dual fighter
    /// only drops back to a single ship.
    pub fn crash_player(&mut self, died: bool) -> (r: Vec<GameAction>)
        requires
            old(self).wf(),
            !died ==> old(self).capture_state is Dual,
        ensures
            final(self).wf(),
            died && !(old(self).game_state is Recapturing) ==> *final(self) == (GameInfo {
                game_state: GameState::PlayerDead,
                count: 0,
                ..*old(self)
            }) && r@ == seq![GameAction::PauseAttack(true)],
            died && old(self).game_state is Recapturing ==> *final(self) == *old(self) && r@.len()
                == 0,
            !died ==> *final(self) == (GameInfo {
                capture_state: CaptureState::NoCapture,
                ..*old(self)
            }) && r@.len() == 0,
    {
        let mut actions: Vec<GameAction> = Vec::new();
        if died {
            if !matches!(self.game_state, GameState::Recapturing) {
                actions.push(GameAction::PauseAttack(true));
                self.game_state = GameState::PlayerDead;
                self.count = 0;
            }
        } else {
            self.capture_state = CaptureState::NoCapture;
        }
        actions
    }

    /// Launches the next ship, or ends the game when none is left.
    pub fn next_player(&mut self) -> (r: Vec<GameAction>)
        requires
            old(self).wf(),
        ensures
            final(self).wf(),
            final(self).capture_state == old(self).capture_state,
            final(self).capture_enemy_fi == old(self).capture_enemy_fi,
            old(self).left_ship <= 1 ==> final(self).game_state is GameOver && final(self).left_ship == 0 && final(self).count == 0,
            old(self).left_ship > 1 ==> final(self).game_state is WaitReady2 && final(self).left_ship == old(self).left_ship - 1 && final(self).count == 0 && r@ == seq![
                GameAction::RestartPlayers,
                GameAction::EnablePlayerShot(false),
            ],
    {
        let mut actions: Vec<GameAction> = Vec::new();
        if self.left_ship > 0 {
            self.left_ship = self.left_ship - 1;
        }
        if self.left_ship == 0 {
            actions.push(GameAction::PauseAttack(true));
            self.game_state = GameState::GameOver;
            self.count = 0;
            let mut game_over: Vec<GameAction> = Vec::new();
            game_over.push(GameAction::PauseAttack(true));
            proof {
                assert(game_over@ =~= seq![GameAction::PauseAttack(true)]);
            }
            return game_over;
        }
        actions.push(GameAction::RestartPlayers);
        actions.push(GameAction::EnablePlayerShot(false));
        self.game_state = GameState::WaitReady2;
        self.count = 0;
        proof {
            assert(actions@ =~= seq![
                GameAction::RestartPlayers,
                GameAction::EnablePlayerShot(false),
            ]);
        }
        actions
    }
}

} // verus!
