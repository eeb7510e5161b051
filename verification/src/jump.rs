use crate::config::Config;
use crate::dino::{Player, RunState};
use vstd::prelude::*;

verus! {

/// Height above the ground `frames` frames into a jump that starts with
/// velocity `v0` under gravity `g`, where neither the ground nor the ceiling
/// is in the way: each frame adds the velocity of that frame.
pub open spec fn jump_height(frames: nat, v0: int, g: int) -> int
    decreases frames,
{
    if frames == 0 {
        0
    } else {
        jump_height((frames - 1) as nat, v0, g) + v0 - g * frames
    }
}

/// The frame of a jump at which the player is back on the ground: the first
/// frame whose free height is not above zero.
pub open spec fn landing_frame(v0: int, g: int) -> nat {
    if v0 <= g {
        1
    } else {
        ((2 * v0 + g - 1) / g - 1) as nat
    }
}

/// The player after `frames` more frames in which the jump key is not
/// pressed.
pub open spec fn coasted(player: Player, frames: nat, cfg: Config) -> Player
    decreases frames,
{
    if frames == 0 {
        player
    } else {
        coasted(player, (frames - 1) as nat, cfg).moved(false, cfg)
    }
}

/// The player after one frame for each entry of `keys`, which tells whether
/// the jump key was pressed in that frame.
pub open spec fn played(player: Player, keys: Seq<bool>, cfg: Config) -> Player
    decreases keys.len(),
{
    if keys.len() == 0 {
        player
    } else {
        played(player, keys.drop_last(), cfg).moved(keys.last(), cfg)
    }
}

/// The player in frame `frame` of a jump that begins in frame 1.
pub open spec fn jumped(player: Player, frame: nat, cfg: Config) -> Player
    recommends
        frame >= 1,
{
    coasted(player.moved(true, cfg), (frame - 1) as nat, cfg)
}

/// After any frame the player is between the ground and the ceiling,
/// whatever their height and velocity were before.
pub proof fn lemma_height_stays_in_window(player: Player, jump_pressed: bool, cfg: Config)
    requires
        cfg.wf(),
    ensures
        cfg.ground_level <= player.moved(jump_pressed, cfg).y <= cfg.half_height,
{
}

/// After any number of frames, at least one, and whatever the keys were, the
/// player is between the ground and the ceiling.
pub proof fn lemma_height_stays_in_window_for_all_frames(
    player: Player,
    keys: Seq<bool>,
    cfg: Config,
)
    requires
        cfg.wf(),
        keys.len() >= 1,
    ensures
        cfg.ground_level <= played(player, keys, cfg).y <= cfg.half_height,
{
    lemma_height_stays_in_window(played(player, keys.drop_last(), cfg), keys.last(), cfg);
}

/// The free height of a jump is a parabola in the frame number:
/// twice the height is `frames * (2 * v0 - g * (frames + 1))`.
pub proof fn lemma_jump_height_is_parabola(frames: nat, v0: int, g: int)
    ensures
        2 * jump_height(frames, v0, g) == frames * (2 * v0 - g * (frames + 1)),
    decreases frames,
{
    if frames > 0 {
        let before = (frames - 1) as nat;
        lemma_jump_height_is_parabola(before, v0, g);
        let h = jump_height(before, v0, g);
        assert(2 * (h + v0 - g * frames) == frames * (2 * v0 - g * (frames + 1))) by (nonlinear_arith)
            requires
                2 * h == (frames - 1) * (2 * v0 - g * ((frames - 1) + 1)),
        ;
    } else {
        assert(frames * (2 * v0 - g * (frames + 1)) == 0) by (nonlinear_arith)
            requires
                frames == 0,
        ;
    }
}

/// While a jump is above the ground, twice the starting velocity exceeds
/// gravity times the next frame number.
proof fn lemma_positive_height_bounds_frame(frames: nat, v0: int, g: int)
    requires
        frames >= 1,
    ensures
        jump_height(frames, v0, g) > 0 <==> g * (frames + 1) < 2 * v0,
{
    lemma_jump_height_is_parabola(frames, v0, g);
    let h = jump_height(frames, v0, g);
    let slack = 2 * v0 - g * (frames + 1);
    assert((frames * slack > 0) <==> slack > 0) by (nonlinear_arith)
        requires
            frames >= 1,
    ;
}

/// The landing frame is the first frame at which the free height is not
/// above zero: before it the jump is above the ground.
pub proof fn lemma_landing_frame_is_first(v0: int, g: int)
    requires
        0 <= v0,
        0 < g,
    ensures
        landing_frame(v0, g) >= 1,
        jump_height(landing_frame(v0, g), v0, g) <= 0,
        forall|frame: nat|
            1 <= frame < landing_frame(v0, g) ==> #[trigger] jump_height(frame, v0, g) > 0,
{
    let landing = landing_frame(v0, g);
    if v0 <= g {
        assert(jump_height(1, v0, g) == v0 - g) by {
            reveal_with_fuel(jump_height, 2);
        }
    } else {
        let top = 2 * v0 + g - 1;
        let c = top / g;
        vstd::arithmetic::div_mod::lemma_fundamental_div_mod(top, g);
        vstd::arithmetic::div_mod::lemma_mod_bound(top, g);
        // g * c <= top < g * c + g
        assert(c >= 3) by (nonlinear_arith)
            requires
                top == g * c + top % g,
                0 <= top % g < g,
                top == 2 * v0 + g - 1,
                v0 > g,
                g > 0,
        ;
        assert(landing == c - 1);
        assert(g * (landing + 1) >= 2 * v0) by (nonlinear_arith)
            requires
                top == g * c + top % g,
                0 <= top % g < g,
                top == 2 * v0 + g - 1,
                landing + 1 == c,
        ;
        lemma_positive_height_bounds_frame(landing, v0, g);
        assert forall|frame: nat| 1 <= frame < landing implies #[trigger] jump_height(
            frame,
            v0,
            g,
        ) > 0 by {
            assert(g * (frame + 1) < 2 * v0) by (nonlinear_arith)
                requires
                    top == g * c + top % g,
                    0 <= top % g < g,
                    top == 2 * v0 + g - 1,
                    frame + 1 <= c - 1,
                    g > 0,
            ;
            lemma_positive_height_bounds_frame(frame, v0, g);
        }
    }
}

/// A jump follows its parabola. Let a running player on the ground jump, and
/// let every earlier frame of the jump be above the landing tolerance and
/// every frame up to this one be under the ceiling. Then in frame `frame` the
/// player is still jumping, has lost `gravity` once per frame, and stands at
/// the free height, or on the ground where that height is not above zero.
pub proof fn lemma_jump_follows_parabola(player: Player, frame: nat, cfg: Config)
    requires
        cfg.wf(),
        player.state == RunState::Running,
        player.y == cfg.ground_level,
        frame >= 1,
        forall|f: nat|
            1 <= f < frame ==> cfg.landing_tolerance < #[trigger] jump_height(
                f,
                cfg.jump_velocity as int,
                cfg.gravity as int,
            ),
        forall|f: nat|
            1 <= f <= frame ==> #[trigger] jump_height(
                f,
                cfg.jump_velocity as int,
                cfg.gravity as int,
            ) <= cfg.half_height - cfg.ground_level,
    ensures
        jumped(player, frame, cfg).state == RunState::Jumping,
        jumped(player, frame, cfg).vel_y == cfg.jump_velocity - cfg.gravity * frame,
        jumped(player, frame, cfg).y == cfg.ground_level + jump_height(
            frame,
            cfg.jump_velocity as int,
            cfg.gravity as int,
        ) || (jumped(player, frame, cfg).y == cfg.ground_level && jump_height(
            frame,
            cfg.jump_velocity as int,
            cfg.gravity as int,
        ) <= 0),
        jumped(player, frame, cfg).x == player.x,
    decreases frame,
{
    let v0 = cfg.jump_velocity as int;
    let g = cfg.gravity as int;
    if frame == 1 {
        assert(jump_height(1, v0, g) == v0 - g) by {
            reveal_with_fuel(jump_height, 2);
        }
        assert(g * 1 == g) by (nonlinear_arith);
        assert(coasted(player.moved(true, cfg), 0, cfg) == player.moved(true, cfg));
    } else {
        let before = (frame - 1) as nat;
        lemma_jump_follows_parabola(player, before, cfg);
        let earlier = jumped(player, before, cfg);
        let height = jump_height(before, v0, g);
        assert(height > cfg.landing_tolerance);
        assert(earlier.y == cfg.ground_level + height);
        assert(!earlier.on_ground(cfg));
        lemma_positive_height_bounds_frame(before, v0, g);
        assert(g * frame < 2 * v0);
        assert(g * frame == g * before + g) by (nonlinear_arith)
            requires
                frame == before + 1,
        ;
        assert(jumped(player, frame, cfg) == earlier.moved(false, cfg));
        assert(jump_height(frame, v0, g) == height + v0 - g * frame);
    }
}

/// A jump comes back to the ground at its landing frame, and not before.
/// Let a running player on the ground jump, with gravity above zero, and let
/// every frame before the landing frame be above the landing tolerance and
/// under the ceiling. Then the player is above the ground in all those
/// frames, on the ground and still jumping at the landing frame, and running
/// on the ground, at rest but for one pull of gravity, in the frame after.
pub proof fn lemma_jump_lands(player: Player, cfg: Config)
    requires
        cfg.wf(),
        cfg.gravity > 0,
        player.state == RunState::Running,
        player.y == cfg.ground_level,
        forall|f: nat|
            1 <= f < landing_frame(cfg.jump_velocity as int, cfg.gravity as int)
                ==> cfg.landing_tolerance < #[trigger] jump_height(
                f,
                cfg.jump_velocity as int,
                cfg.gravity as int,
            ) <= cfg.half_height - cfg.ground_level,
    ensures
        forall|f: nat|
            1 <= f < landing_frame(cfg.jump_velocity as int, cfg.gravity as int) ==> (
            #[trigger] jumped(player, f, cfg)).y == cfg.ground_level + jump_height(
                f,
                cfg.jump_velocity as int,
                cfg.gravity as int,
            ) && jumped(player, f, cfg).y > cfg.ground_level && jumped(player, f, cfg).state
                == RunState::Jumping,
        jumped(
            player,
            landing_frame(cfg.jump_velocity as int, cfg.gravity as int),
            cfg,
        ).y == cfg.ground_level,
        jumped(
            player,
            landing_frame(cfg.jump_velocity as int, cfg.gravity as int),
            cfg,
        ).state == RunState::Jumping,
        jumped(
            player,
            landing_frame(cfg.jump_velocity as int, cfg.gravity as int) + 1,
            cfg,
        ).state == RunState::Running,
        jumped(
            player,
            landing_frame(cfg.jump_velocity as int, cfg.gravity as int) + 1,
            cfg,
        ).y == cfg.ground_level,
        jumped(
            player,
            landing_frame(cfg.jump_velocity as int, cfg.gravity as int) + 1,
            cfg,
        ).vel_y == -cfg.gravity,
{
    let v0 = cfg.jump_velocity as int;
    let g = cfg.gravity as int;
    let landing = landing_frame(v0, g);
    lemma_landing_frame_is_first(v0, g);
    assert forall|f: nat| 1 <= f < landing implies (#[trigger] jumped(player, f, cfg)).y
        == cfg.ground_level + jump_height(f, v0, g) && jumped(player, f, cfg).y > cfg.ground_level
        && jumped(player, f, cfg).state == RunState::Jumping by {
        lemma_jump_follows_parabola(player, f, cfg);
    }
    lemma_jump_follows_parabola(player, landing, cfg);
    let landed = jumped(player, landing, cfg);
    assert(landed.y == cfg.ground_level);
    assert(landed.on_ground(cfg));
    assert(jumped(player, landing + 1, cfg) == landed.moved(false, cfg)) by {
        assert(((landing + 1) - 1) as nat == landing);
        assert(coasted(player.moved(true, cfg), landing as nat, cfg) == coasted(
            player.moved(true, cfg),
            (landing - 1) as nat,
            cfg,
        ).moved(false, cfg));
    }
}

/// Computes the landing frame of the configured jump.
pub fn frames_to_land(cfg: &Config) -> (frames: u64)
    requires
        cfg.wf(),
        cfg.gravity > 0,
    ensures
        frames == landing_frame(cfg.jump_velocity as int, cfg.gravity as int),
{
    if cfg.jump_velocity <= cfg.gravity {
        1
    } else {
        let v0: u64 = cfg.jump_velocity as u64;
        let g: u64 = cfg.gravity as u64;
        let top: u64 = 2 * v0 + g - 1;
        proof {
            let t: int = top as int;
            let d: int = g as int;
            vstd::arithmetic::div_mod::lemma_fundamental_div_mod(t, d);
            vstd::arithmetic::div_mod::lemma_mod_bound(t, d);
            assert(t / d >= 1) by (nonlinear_arith)
                requires
                    t == d * (t / d) + t % d,
                    0 <= t % d < d,
                    t >= d,
                    d > 0,
            ;
        }
        top / g - 1
    }
}

} // verus!
