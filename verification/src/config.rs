use vstd::prelude::*;

verus! {

/// Atlas index of the standing (and jumping) player sprite.
pub const DINO_STANDING: u32 = 0;

/// Atlas index of the first frame of the run cycle.
pub const DINO_RUN_A: u32 = 1;

/// Atlas index of the second frame of the run cycle.
pub const DINO_RUN_B: u32 = 2;

/// Atlas index of the ground tile.
pub const GROUND_SPRITE: u32 = 0;

/// Atlas index of the cloud.
pub const CLOUD_SPRITE: u32 = 1;

/// Atlas index of the bird with its wings up.
pub const BIRD_WINGS_UP: u32 = 2;

/// Atlas index of the bird with its wings down.
pub const BIRD_WINGS_DOWN: u32 = 3;

/// Severity carried by a bird, the one hazard that the spawner makes.
pub const BIRD_SEVERITY: u8 = 1;

/// One spawn check in this many brings a new bird or cloud.
pub const SPAWN_ODDS: i32 = 200;

/// Session parameters that the update routines read. Lengths are in pixels,
/// speeds in pixels per frame, the frame period in nanoseconds.
#[derive(Clone, Copy, Debug, PartialEq, Eq, Structural)]
pub struct Config {
    /// Half of the window's width: the right edge is at `+half_width`.
    pub half_width: i32,
    /// Half of the window's height: the ceiling of the player's jump.
    pub half_height: i32,
    /// Height at which the player stands.
    pub ground_level: i32,
    /// Horizontal position of the player, which never changes.
    pub player_x: i32,
    /// Vertical velocity that a jump starts with.
    pub jump_velocity: i32,
    /// Loss of vertical velocity per frame.
    pub gravity: i32,
    /// Greatest distance from the ground at which a jump counts as landed.
    pub landing_tolerance: i32,
    /// Leftward travel of the scenery per frame.
    pub track_speed: i32,
    /// Half of a ground tile's width.
    pub tile_half_width: i32,
    /// Height at which the ground tiles lie.
    pub track_y: i32,
    /// How far beyond the left edge a bird or cloud travels before it goes.
    pub despawn_margin: i32,
    /// One spawn check in this many succeeds.
    pub spawn_odds: i32,
    /// Lowest height at which a bird or cloud appears.
    pub band_low: i32,
    /// Greatest height at which a bird or cloud appears.
    pub band_high: i32,
    /// Time between two frames of an animation.
    pub frame_period: u64,
    /// Period of the session's spawn timer.
    pub spawn_period: u64,
    /// Width of the player's bounding box.
    pub player_width: i32,
    /// Height of the player's bounding box.
    pub player_height: i32,
    /// Width of a hazard's bounding box.
    pub obstacle_width: i32,
    /// Height of a hazard's bounding box.
    pub obstacle_height: i32,
}

impl Config {
    /// What every routine asks of a configuration: lengths and speeds are not
    /// negative, the ground is not above the ceiling, the spawn band is not
    /// empty, the two timer periods are above zero, and the two despawn
    /// thresholds and a tile's width fit in `i32`.
    pub open spec fn wf(&self) -> bool {
        &&& 0 <= self.half_width
        &&& self.ground_level <= self.half_height
        &&& 0 <= self.jump_velocity
        &&& 0 <= self.gravity
        &&& 0 <= self.landing_tolerance
        &&& 0 <= self.track_speed
        &&& 0 <= self.tile_half_width
        &&& 2 * self.tile_half_width <= i32::MAX
        &&& self.tile_half_width + self.half_width <= i32::MAX
        &&& 0 <= self.despawn_margin
        &&& self.half_width + self.despawn_margin <= i32::MAX
        &&& 1 <= self.spawn_odds
        &&& self.band_low <= self.band_high
        &&& 0 < self.frame_period
        &&& 0 < self.spawn_period
        &&& 0 <= self.player_width
        &&& 0 <= self.player_height
        &&& 0 <= self.obstacle_width
        &&& 0 <= self.obstacle_height
    }

    /// The configuration of the standard game: a 640 by 320 window, a jump of
    /// 25 against a gravity of 2, scenery that scrolls 5 per frame, and four
    /// animation frames per second, and a spawn timer of one second.
    pub open spec fn standard_spec() -> Config {
        Config {
            half_width: 320,
            half_height: 160,
            ground_level: (-128) as i32,
            player_x: (-213) as i32,
            jump_velocity: 25,
            gravity: 2,
            landing_tolerance: 0,
            track_speed: 5,
            tile_half_width: 599,
            track_y: (-144) as i32,
            despawn_margin: 50,
            spawn_odds: SPAWN_ODDS,
            band_low: 32,
            band_high: 128,
            frame_period: 250_000_000,
            spawn_period: 1_000_000_000,
            player_width: 41,
            player_height: 44,
            obstacle_width: 24,
            obstacle_height: 49,
        }
    }

    /// Builds the configuration of the standard game.
    pub fn standard() -> (cfg: Config)
        ensures
            cfg == Config::standard_spec(),
            cfg.wf(),
    {
        Config {
            half_width: 320,
            half_height: 160,
            ground_level: -128,
            player_x: -213,
            jump_velocity: 25,
            gravity: 2,
            landing_tolerance: 0,
            track_speed: 5,
            tile_half_width: 599,
            track_y: -144,
            despawn_margin: 50,
            spawn_odds: SPAWN_ODDS,
            band_low: 32,
            band_high: 128,
            frame_period: 250_000_000,
            spawn_period: 1_000_000_000,
            player_width: 41,
            player_height: 44,
            obstacle_width: 24,
            obstacle_height: 49,
        }
    }

    /// Tells whether the configuration is well formed.
    pub fn is_valid(&self) -> (ok: bool)
        ensures
            ok == self.wf(),
    {
        let tile: i64 = self.tile_half_width as i64;
        let half: i64 = self.half_width as i64;
        let margin: i64 = self.despawn_margin as i64;
        let limit: i64 = i32::MAX as i64;
        0 <= self.half_width && self.ground_level <= self.half_height && 0 <= self.jump_velocity
            && 0 <= self.gravity && 0 <= self.landing_tolerance && 0 <= self.track_speed && 0
            <= self.tile_half_width && 2 * tile <= limit && tile + half <= limit && 0
            <= self.despawn_margin && half + margin <= limit && 1 <= self.spawn_odds
            && self.band_low <= self.band_high && 0 < self.frame_period && 0 < self.spawn_period && 0
            <= self.player_width
            && 0 <= self.player_height && 0 <= self.obstacle_width && 0 <= self.obstacle_height
    }

    /// Leftmost position at which a ground segment still exists: its right
    /// edge then touches the window's left edge.
    pub open spec fn track_edge(&self) -> int {
        -(self.tile_half_width + self.half_width)
    }

    /// Leftmost position at which a bird or cloud still exists.
    pub open spec fn object_edge(&self) -> int {
        -(self.half_width + self.despawn_margin)
    }
}

} // verus!
