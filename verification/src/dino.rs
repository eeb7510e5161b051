use crate::config::{Config, DINO_RUN_A, DINO_RUN_B, DINO_STANDING};
use crate::timer::AnimationTimer;
use vstd::prelude::*;

verus! {

/// What the player is doing. The two states exclude each other.
#[derive(Clone, Copy, Debug, PartialEq, Eq, Structural)]
pub enum RunState {
    /// On the ground, ready to jump.
    Running,
    /// In the air, or just landed and not yet running again.
    Jumping,
}

/// The player's record.
#[derive(Clone, Copy, Debug, PartialEq, Eq, Structural)]
pub struct Player {
    /// Running or jumping.
    pub state: RunState,
    /// Vertical velocity, upward positive.
    pub vel_y: i32,
    /// Horizontal position.
    pub x: i32,
    /// Vertical position.
    pub y: i32,
    /// Atlas index of the sprite that is shown.
    pub sprite_index: u32,
    /// Timer of the run cycle.
    pub timer: AnimationTimer,
}

/// `value` held within `low..=high`.
pub open spec fn clamped(value: int, low: int, high: int) -> int {
    if value < low {
        low
    } else if value > high {
        high
    } else {
        value
    }
}

/// The run-cycle frame that follows `index`: the two running sprites take
/// turns, and any other sprite gives way to the first of them.
pub open spec fn next_run_frame(index: u32) -> u32 {
    if index == DINO_RUN_A {
        DINO_RUN_B
    } else {
        DINO_RUN_A
    }
}

impl Player {
    /// The player as the session starts: running, at rest, on the ground,
    /// shown standing, with a repeating timer for the run cycle.
    pub open spec fn spawned(cfg: Config) -> Player {
        Player {
            state: RunState::Running,
            vel_y: 0,
            x: cfg.player_x,
            y: cfg.ground_level,
            sprite_index: DINO_STANDING,
            timer: AnimationTimer {
                period: cfg.frame_period,
                elapsed: 0,
                repeating: true,
                finished: false,
                times_finished: 0,
            },
        }
    }

    /// Whether the player is at ground level, give or take the tolerance.
    pub open spec fn on_ground(&self, cfg: Config) -> bool {
        &&& self.y - cfg.ground_level <= cfg.landing_tolerance
        &&& cfg.ground_level - self.y <= cfg.landing_tolerance
    }

    /// The player after the frame's decision. A running player who is told to
    /// jump takes the jump velocity and is jumping. A jumping player who is
    /// back on the ground comes to rest and is running. Anyone else is left
    /// as they are.
    pub open spec fn reacted(&self, jump_pressed: bool, cfg: Config) -> Player {
        match self.state {
            RunState::Running => if jump_pressed {
                Player { state: RunState::Jumping, vel_y: cfg.jump_velocity, ..*self }
            } else {
                *self
            },
            RunState::Jumping => if self.on_ground(cfg) {
                Player { state: RunState::Running, vel_y: 0, ..*self }
            } else {
                *self
            },
        }
    }

    /// Whether gravity can be taken off the velocity without leaving `i32`.
    pub open spec fn can_integrate(&self, cfg: Config) -> bool {
        i32::MIN <= self.vel_y - cfg.gravity
    }

    /// The player after gravity has acted for one frame: the velocity loses
    /// `gravity`, the height gains the new velocity and is then held between
    /// the ground and the ceiling.
    pub open spec fn integrated(&self, cfg: Config) -> Player {
        let velocity = self.vel_y - cfg.gravity;
        Player {
            vel_y: velocity as i32,
            y: clamped(self.y + velocity, cfg.ground_level as int, cfg.half_height as int) as i32,
            ..*self
        }
    }

    /// The player after one frame: the decision, then gravity.
    pub open spec fn moved(&self, jump_pressed: bool, cfg: Config) -> Player {
        self.reacted(jump_pressed, cfg).integrated(cfg)
    }

    /// Whether the player can be animated for a frame of `delta`
    /// nanoseconds: while running, the timer must be able to take the tick.
    pub open spec fn can_animate(&self, delta: u64) -> bool {
        self.state == RunState::Running ==> self.timer.wf() && self.timer.can_tick(delta)
    }

    /// The player after one frame of animation lasting `delta`. While
    /// jumping the standing sprite is shown and the timer rests. While
    /// running the timer ticks, and a tick that completes a period moves the
    /// run cycle on by one frame.
    pub open spec fn animated(&self, delta: u64) -> Player {
        match self.state {
            RunState::Jumping => Player { sprite_index: DINO_STANDING, ..*self },
            RunState::Running => {
                let timer = self.timer.ticked(delta);
                Player {
                    timer: timer,
                    sprite_index: if timer.just_finished_spec() {
                        next_run_frame(self.sprite_index)
                    } else {
                        self.sprite_index
                    },
                    ..*self
                }
            },
        }
    }

    /// Tells whether the player is at ground level, give or take the
    /// tolerance.
    pub fn is_on_ground(&self, cfg: &Config) -> (grounded: bool)
        ensures
            grounded == self.on_ground(*cfg),
    {
        let height: i64 = self.y as i64 - cfg.ground_level as i64;
        let tolerance: i64 = cfg.landing_tolerance as i64;
        height <= tolerance && -height <= tolerance
    }

    /// Tells whether gravity can be taken off the velocity.
    pub fn is_integrable(&self, cfg: &Config) -> (ok: bool)
        ensures
            ok == self.can_integrate(*cfg),
    {
        i32::MIN as i64 <= self.vel_y as i64 - cfg.gravity as i64
    }

    /// Tells whether the player can be moved by one frame with the jump key
    /// as given.
    pub fn is_movable(&self, jump_pressed: bool, cfg: &Config) -> (ok: bool)
        ensures
            ok == self.reacted(jump_pressed, *cfg).can_integrate(*cfg),
    {
        let mut probe: Player = *self;
        react(&mut probe, jump_pressed, cfg);
        probe.is_integrable(cfg)
    }

    /// Tells whether the player can be animated for a frame of `delta`
    /// nanoseconds.
    pub fn is_animable(&self, delta: u64) -> (ok: bool)
        ensures
            ok == self.can_animate(delta),
    {
        match self.state {
            RunState::Jumping => true,
            RunState::Running => self.timer.is_valid() && self.timer.accepts(delta),
        }
    }
}

/// Makes the player that the session starts with.
pub fn spawn_dino(cfg: &Config) -> (player: Player)
    ensures
        player == Player::spawned(*cfg),
        cfg.wf() ==> player.timer.wf(),
{
    Player {
        state: RunState::Running,
        vel_y: 0,
        x: cfg.player_x,
        y: cfg.ground_level,
        sprite_index: DINO_STANDING,
        timer: AnimationTimer::new(cfg.frame_period, true),
    }
}

/// Takes the frame's decision: starts a jump, ends one, or neither.
pub fn react(player: &mut Player, jump_pressed: bool, cfg: &Config)
    ensures
        *final(player) == old(player).reacted(jump_pressed, *cfg),
{
    match player.state {
        RunState::Running => {
            if jump_pressed {
                player.vel_y = cfg.jump_velocity;
                player.state = RunState::Jumping;
            }
        },
        RunState::Jumping => {
            if player.is_on_ground(cfg) {
                player.vel_y = 0;
                player.state = RunState::Running;
            }
        },
    }
}

/// Lets gravity act for one frame and keeps the player inside the window.
pub fn integrate(player: &mut Player, cfg: &Config)
    requires
        cfg.wf(),
        old(player).can_integrate(*cfg),
    ensures
        *final(player) == old(player).integrated(*cfg),
        final(player).vel_y == old(player).vel_y - cfg.gravity,
        cfg.ground_level <= final(player).y <= cfg.half_height,
{
    let velocity: i32 = player.vel_y - cfg.gravity;
    let target: i64 = player.y as i64 + velocity as i64;
    player.vel_y = velocity;
    if target < cfg.ground_level as i64 {
        player.y = cfg.ground_level;
    } else if target > cfg.half_height as i64 {
        player.y = cfg.half_height;
    } else {
        player.y = target as i32;
    }
}

/// Moves the player by one frame: the decision on the jump key and on
/// landing, then gravity, with the height held between the ground and the
/// ceiling.
pub fn handle_dino_movement(player: &mut Player, jump_pressed: bool, cfg: &Config)
    requires
        cfg.wf(),
        old(player).reacted(jump_pressed, *cfg).can_integrate(*cfg),
    ensures
        *final(player) == old(player).moved(jump_pressed, *cfg),
        cfg.ground_level <= final(player).y <= cfg.half_height,
{
    react(player, jump_pressed, cfg);
    integrate(player, cfg);
}

/// Animates the player for one frame that lasted `delta` nanoseconds.
pub fn handle_dino_animations(player: &mut Player, delta: u64)
    requires
        old(player).can_animate(delta),
    ensures
        *final(player) == old(player).animated(delta),
{
    match player.state {
        RunState::Jumping => {
            player.sprite_index = DINO_STANDING;
        },
        RunState::Running => {
            player.timer.tick(delta);
            if player.timer.just_finished() {
                if player.sprite_index == DINO_RUN_A {
                    player.sprite_index = DINO_RUN_B;
                } else {
                    player.sprite_index = DINO_RUN_A;
                }
            }
        },
    }
}

} // verus!
