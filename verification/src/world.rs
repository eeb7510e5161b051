use crate::collision::{collisions, handle_collisions};
use crate::config::Config;
use crate::desert::{
    add_environment_objects, can_scroll_track, handle_animations, handle_desert_object_movement,
    handle_track_movement, scrolled_objects, scrolled_track, spawn_desert, spawn_from_draws,
    spawn_outcome, spawn_timer, with_spawn, EnvObject, GroundSegment,
};
use crate::dino::{handle_dino_animations, handle_dino_movement, spawn_dino, Player};
use crate::jump::lemma_height_stays_in_window;
use crate::timer::AnimationTimer;
use crate::scroll::{
    lemma_first_track_is_steady, lemma_steady_track_covers_window,
    lemma_steady_track_stays_steady, steady_config, steady_track, window_covered,
};
use vstd::prelude::*;

verus! {

/// Everything that the update routines work on.
#[derive(Debug)]
pub struct World {
    /// The one player.
    pub player: Player,
    /// The ground segments, from left to right.
    pub ground: Vec<GroundSegment>,
    /// The birds and clouds, oldest first.
    pub objects: Vec<EnvObject>,
    /// The session's spawn timer. The spawn check is made in every frame,
    /// so no frame ticks it.
    pub spawn_timer: AnimationTimer,
}

/// The world as a value: the player and the two lists.
pub struct WorldView {
    /// The one player.
    pub player: Player,
    /// The ground segments, from left to right.
    pub ground: Seq<GroundSegment>,
    /// The birds and clouds, oldest first.
    pub objects: Seq<EnvObject>,
    /// The session's spawn timer.
    pub spawn_timer: AnimationTimer,
}

impl View for World {
    type V = WorldView;

    open spec fn view(&self) -> WorldView {
        WorldView {
            player: self.player,
            ground: self.ground@,
            objects: self.objects@,
            spawn_timer: self.spawn_timer,
        }
    }
}

/// Every object of `sky` after one frame of animation lasting `delta`.
pub open spec fn flapped_objects(sky: Seq<EnvObject>, delta: u64) -> Seq<EnvObject> {
    Seq::new(sky.len(), |i: int| sky[i].flapped(delta))
}

impl WorldView {
    /// The world as the session starts: the player at rest on the ground,
    /// one ground segment, an empty sky, and the spawn timer with no time on
    /// it.
    pub open spec fn initial(cfg: Config) -> WorldView {
        WorldView {
            player: Player::spawned(cfg),
            ground: seq![GroundSegment::first(cfg)],
            objects: Seq::empty(),
            spawn_timer: spawn_timer(cfg),
        }
    }

    /// Whether a frame of `delta` nanoseconds can be played: the player's
    /// velocity can take one more pull of gravity, a ground segment that is
    /// due has a place that fits, and every timer that is animated, that of
    /// a bird yet to come included, can take the tick.
    pub open spec fn can_update(&self, jump_pressed: bool, delta: u64, cfg: Config) -> bool {
        &&& self.player.reacted(jump_pressed, cfg).can_integrate(cfg)
        &&& can_scroll_track(self.ground, cfg)
        &&& self.player.moved(jump_pressed, cfg).can_animate(delta)
        &&& EnvObject::bird(cfg, cfg.band_low).can_animate(delta)
        &&& forall|i: int|
            0 <= i < self.objects.len() ==> (#[trigger] self.objects[i]).can_animate(delta)
    }

    /// The world after one frame. The routines run in a fixed order: the
    /// player moves, the spawn check adds what it brings, ground and sky
    /// scroll, and then player and sky are animated. The spawn timer is as
    /// it was.
    pub open spec fn updated(
        &self,
        jump_pressed: bool,
        delta: u64,
        spawn: Option<EnvObject>,
        cfg: Config,
    ) -> WorldView {
        WorldView {
            player: self.player.moved(jump_pressed, cfg).animated(delta),
            ground: scrolled_track(self.ground, cfg),
            objects: flapped_objects(scrolled_objects(with_spawn(self.objects, spawn), cfg), delta),
            spawn_timer: self.spawn_timer,
        }
    }

    /// The hits that the frame's last routine reports.
    pub open spec fn hits(&self, cfg: Config) -> Seq<usize> {
        collisions(self.player, self.objects, cfg)
    }
}

/// What one frame brings from outside: the jump key, the time that the frame
/// lasted, and what the spawn check made.
pub struct Frame {
    /// Whether the jump key went down in this frame.
    pub jump_pressed: bool,
    /// Length of the frame in nanoseconds.
    pub delta: u64,
    /// The bird or cloud that the spawn check brought, if any.
    pub spawn: Option<EnvObject>,
}

/// The world after the given frames, played in order.
pub open spec fn played_frames(world: WorldView, frames: Seq<Frame>, cfg: Config) -> WorldView
    decreases frames.len(),
{
    if frames.len() == 0 {
        world
    } else {
        played_frames(world, frames.drop_last(), cfg).updated(
            frames.last().jump_pressed,
            frames.last().delta,
            frames.last().spawn,
            cfg,
        )
    }
}

/// What holds throughout a session, whatever the keys, the frame times and
/// the spawns, where the configuration is steady: the player is between the
/// ground and the ceiling, the ground has one or two segments, lies under
/// the whole window and can be scrolled once more, and the spawn timer is the
/// one that the session started with.
pub proof fn lemma_session_stays_in_shape(frames: Seq<Frame>, cfg: Config)
    requires
        steady_config(cfg),
    ensures
        cfg.ground_level <= played_frames(WorldView::initial(cfg), frames, cfg).player.y
            <= cfg.half_height,
        steady_track(played_frames(WorldView::initial(cfg), frames, cfg).ground, cfg),
        1 <= played_frames(WorldView::initial(cfg), frames, cfg).ground.len() <= 2,
        window_covered(played_frames(WorldView::initial(cfg), frames, cfg).ground, cfg),
        can_scroll_track(played_frames(WorldView::initial(cfg), frames, cfg).ground, cfg),
        played_frames(WorldView::initial(cfg), frames, cfg).spawn_timer == spawn_timer(cfg),
    decreases frames.len(),
{
    let start = WorldView::initial(cfg);
    if frames.len() == 0 {
        lemma_first_track_is_steady(cfg);
    } else {
        let earlier = played_frames(start, frames.drop_last(), cfg);
        lemma_session_stays_in_shape(frames.drop_last(), cfg);
        lemma_height_stays_in_window(earlier.player, frames.last().jump_pressed, cfg);
        lemma_steady_track_stays_steady(earlier.ground, cfg);
    }
    lemma_steady_track_covers_window(played_frames(start, frames, cfg).ground, cfg);
}

/// Scrolling keeps each object's timer as it was, so what could be animated
/// before can be animated after.
pub proof fn lemma_scrolling_keeps_timers(sky: Seq<EnvObject>, delta: u64, cfg: Config)
    requires
        forall|i: int| 0 <= i < sky.len() ==> (#[trigger] sky[i]).can_animate(delta),
    ensures
        forall|i: int|
            0 <= i < scrolled_objects(sky, cfg).len() ==> (#[trigger] scrolled_objects(
                sky,
                cfg,
            )[i]).can_animate(delta),
    decreases sky.len(),
{
    if sky.len() > 0 {
        let head = sky.drop_last();
        assert forall|i: int| 0 <= i < head.len() implies (#[trigger] head[i]).can_animate(
            delta,
        ) by {
            assert(head[i] == sky[i]);
        }
        lemma_scrolling_keeps_timers(head, delta, cfg);
        let before = scrolled_objects(head, cfg);
        let all = scrolled_objects(sky, cfg);
        assert forall|i: int| 0 <= i < all.len() implies (#[trigger] all[i]).can_animate(delta) by {
            if i < before.len() {
                assert(all[i] == before[i]);
            } else {
                assert(all[i] == sky.last().shifted(cfg));
                assert(sky[sky.len() - 1].can_animate(delta));
            }
        }
    }
}

impl World {
    /// Sets up the world that the session starts with.
    pub fn new(cfg: &Config) -> (world: World)
        requires
            cfg.wf(),
        ensures
            world@ == WorldView::initial(*cfg),
    {
        let (segment, spawn_timer): (GroundSegment, AnimationTimer) = spawn_desert(cfg);
        let mut ground: Vec<GroundSegment> = Vec::new();
        ground.push(segment);
        let world = World { player: spawn_dino(cfg), ground, objects: Vec::new(), spawn_timer };
        proof {
            assert(world.ground@ =~= seq![GroundSegment::first(*cfg)]);
            assert(world.objects@ =~= Seq::<EnvObject>::empty());
        }
        world
    }

    /// Tells whether a frame of `delta` nanoseconds can be played.
    pub fn is_ready(&self, jump_pressed: bool, delta: u64, cfg: &Config) -> (ready: bool)
        requires
            cfg.wf(),
        ensures
            ready == self@.can_update(jump_pressed, delta, *cfg),
    {
        if !self.player.is_movable(jump_pressed, cfg) {
            return false;
        }
        if self.ground.len() == 1 && !self.ground[0].is_followable(cfg) {
            return false;
        }
        let mut mover: Player = self.player;
        handle_dino_movement(&mut mover, jump_pressed, cfg);
        if !mover.is_animable(delta) {
            return false;
        }
        let newcomer: Option<EnvObject> = spawn_from_draws(0, 0, cfg.band_low, cfg);
        match newcomer {
            Some(bird) => {
                if !bird.is_animable(delta) {
                    return false;
                }
            },
            None => {},
        }
        let count: usize = self.objects.len();
        let mut i: usize = 0;
        while i < count
            invariant
                i <= count,
                self.objects@.len() == count,
                forall|j: int| 0 <= j < i ==> (#[trigger] self.objects@[j]).can_animate(delta),
            decreases count - i,
        {
            if !self.objects[i].is_animable(delta) {
                assert(!self@.objects[i as int].can_animate(delta));
                return false;
            }
            i += 1;
        }
        true
    }

    /// Scrolls, animates and checks for hits: the part of a frame that
    /// follows the player's move and the spawn check.
    fn finish(&mut self, delta: u64, cfg: &Config) -> (hits: Vec<usize>)
        requires
            cfg.wf(),
            old(self).player.can_animate(delta),
            can_scroll_track(old(self).ground@, *cfg),
            forall|i: int|
                0 <= i < old(self).objects@.len() ==> (#[trigger] old(self).objects@[i]).can_animate(
                    delta,
                ),
        ensures
            final(self).player == old(self).player.animated(delta),
            final(self).ground@ == scrolled_track(old(self).ground@, *cfg),
            final(self).objects@ == flapped_objects(
                scrolled_objects(old(self).objects@, *cfg),
                delta,
            ),
            final(self).spawn_timer == old(self).spawn_timer,
            hits@ == final(self)@.hits(*cfg),
    {
        handle_track_movement(&mut self.ground, cfg);
        proof {
            lemma_scrolling_keeps_timers(self.objects@, delta, *cfg);
        }
        handle_desert_object_movement(&mut self.objects, cfg);
        handle_dino_animations(&mut self.player, delta);
        handle_animations(&mut self.objects, delta);
        proof {
            assert(self.objects@ =~= flapped_objects(
                scrolled_objects(old(self).objects@, *cfg),
                delta,
            ));
        }
        handle_collisions(&self.player, &self.objects, cfg)
    }

    /// Plays one frame with the three draws of the spawn check given, and
    /// reports the hits.
    pub fn update_with_draws(
        &mut self,
        jump_pressed: bool,
        delta: u64,
        check: i32,
        kind: i32,
        height: i32,
        cfg: &Config,
    ) -> (hits: Vec<usize>)
        requires
            cfg.wf(),
            old(self)@.can_update(jump_pressed, delta, *cfg),
        ensures
            final(self)@ == old(self)@.updated(
                jump_pressed,
                delta,
                spawn_outcome(check, kind, height, *cfg),
                *cfg,
            ),
            hits@ == final(self)@.hits(*cfg),
            cfg.ground_level <= final(self).player.y <= cfg.half_height,
    {
        handle_dino_movement(&mut self.player, jump_pressed, cfg);
        match spawn_from_draws(check, kind, height, cfg) {
            Some(object) => {
                self.objects.push(object);
            },
            None => {},
        }
        let hits: Vec<usize> = self.finish(delta, cfg);
        hits
    }

    /// Plays one frame and reports the hits: the player moves, the spawn
    /// check is made, ground and sky scroll, player and sky are animated,
    /// and the player's box is held against every hazard.
    pub fn update(&mut self, jump_pressed: bool, delta: u64, cfg: &Config) -> (hits: Vec<usize>)
        requires
            cfg.wf(),
            old(self)@.can_update(jump_pressed, delta, *cfg),
        ensures
            exists|check: i32, kind: i32, height: i32|
                {
                    &&& 0 <= check < cfg.spawn_odds
                    &&& 0 <= kind <= 1
                    &&& cfg.band_low <= height <= cfg.band_high
                    &&& final(self)@ == old(self)@.updated(
                        jump_pressed,
                        delta,
                        #[trigger] spawn_outcome(check, kind, height, *cfg),
                        *cfg,
                    )
                },
            hits@ == final(self)@.hits(*cfg),
            cfg.ground_level <= final(self).player.y <= cfg.half_height,
    {
        handle_dino_movement(&mut self.player, jump_pressed, cfg);
        add_environment_objects(&mut self.objects, cfg);
        proof {
            assert forall|i: int| 0 <= i < self.objects@.len() implies (#[trigger] self.objects@[i]).can_animate(
                delta,
            ) by {
                if i < old(self).objects@.len() {
                    assert(old(self)@.objects[i].can_animate(delta));
                } else {
                    assert(EnvObject::bird(*cfg, cfg.band_low).can_animate(delta));
                }
            }
        }
        let hits: Vec<usize> = self.finish(delta, cfg);
        hits
    }
}

} // verus!
