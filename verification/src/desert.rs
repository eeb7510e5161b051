use crate::config::{BIRD_SEVERITY, BIRD_WINGS_DOWN, BIRD_WINGS_UP, CLOUD_SPRITE, Config};
use crate::random::draw_between;
use crate::timer::AnimationTimer;
use vstd::prelude::*;

verus! {

/// One tile of the scrolling ground, known by the position of its centre.
#[derive(Clone, Copy, Debug, PartialEq, Eq, Structural)]
pub struct GroundSegment {
    /// Horizontal position of the tile's centre.
    pub x: i32,
    /// Vertical position of the tile's centre.
    pub y: i32,
}

/// The kinds of thing that drift across the sky.
#[derive(Clone, Copy, Debug, PartialEq, Eq, Structural)]
pub enum ObjectKind {
    /// A flying hazard, which flaps its wings.
    Bird,
    /// A cloud, which is only decoration.
    Cloud,
}

/// A bird or a cloud.
#[derive(Clone, Copy, Debug, PartialEq, Eq)]
pub struct EnvObject {
    /// Bird or cloud.
    pub kind: ObjectKind,
    /// Horizontal position.
    pub x: i32,
    /// Vertical position.
    pub y: i32,
    /// Atlas index of the sprite that is shown.
    pub sprite_index: u32,
    /// Timer of the wing beat, for an object that is animated.
    pub timer: Option<AnimationTimer>,
    /// How bad it is to run into the object; `None` for what cannot be hit.
    pub severity: Option<u8>,
}

/// The wing frame that follows `index`: the two bird sprites take turns, and
/// any other sprite gives way to the first of them.
pub open spec fn next_wing_frame(index: u32) -> u32 {
    if index == BIRD_WINGS_UP {
        BIRD_WINGS_DOWN
    } else {
        BIRD_WINGS_UP
    }
}

impl GroundSegment {
    /// The segment that the session starts with: its left edge is on the
    /// window's left edge.
    pub open spec fn first(cfg: Config) -> GroundSegment {
        GroundSegment { x: (cfg.tile_half_width - cfg.half_width) as i32, y: cfg.track_y }
    }

    /// Where the segment's centre is after one frame of scrolling.
    pub open spec fn shifted_x(&self, cfg: Config) -> int {
        self.x - cfg.track_speed
    }

    /// Whether one frame of scrolling takes the segment out of sight: its
    /// centre then lies beyond the trailing edge.
    pub open spec fn leaves(&self, cfg: Config) -> bool {
        self.shifted_x(cfg) < cfg.track_edge()
    }

    /// The segment after one frame of scrolling.
    pub open spec fn shifted(&self, cfg: Config) -> GroundSegment {
        GroundSegment { x: self.shifted_x(cfg) as i32, y: self.y }
    }

    /// Where the centre of the segment's follower is after the frame. The
    /// follower is placed one tile to the right of where this segment stood
    /// before the frame and scrolls with it, so the two lie edge to edge.
    pub open spec fn follower_x(&self, cfg: Config) -> int {
        self.shifted_x(cfg) + 2 * cfg.tile_half_width
    }

    /// Whether the position of the segment's follower fits in `i32`.
    pub open spec fn can_follow(&self, cfg: Config) -> bool {
        i32::MIN <= self.follower_x(cfg)
    }
}

/// The segments of `track` that are still in sight after one frame, each
/// scrolled, in their old order.
pub open spec fn scrolled_segments(track: Seq<GroundSegment>, cfg: Config) -> Seq<GroundSegment>
    decreases track.len(),
{
    if track.len() == 0 {
        Seq::empty()
    } else {
        let before = scrolled_segments(track.drop_last(), cfg);
        if track.last().leaves(cfg) {
            before
        } else {
            before.push(track.last().shifted(cfg))
        }
    }
}

/// Whether this frame brings a new segment: the track holds fewer than two
/// segments, and its one segment has scrolled to the left of the origin.
pub open spec fn spawns_follower(track: Seq<GroundSegment>, cfg: Config) -> bool {
    &&& track.len() == 1
    &&& track[0].shifted_x(cfg) < 0
}

/// Whether the track can be scrolled by one frame: where a new segment is
/// due, its position fits in `i32`.
pub open spec fn can_scroll_track(track: Seq<GroundSegment>, cfg: Config) -> bool {
    spawns_follower(track, cfg) ==> track[0].can_follow(cfg)
}

/// The timer that the session starts with for its spawn checks: repeating,
/// with the configured period and no time on it.
pub open spec fn spawn_timer(cfg: Config) -> AnimationTimer {
    AnimationTimer {
        period: cfg.spawn_period,
        elapsed: 0,
        repeating: true,
        finished: false,
        times_finished: 0,
    }
}

/// The segment that joins the track when one is due. It lies one tile to the
/// right of the segment it follows, edge to edge with it.
pub open spec fn follower(track: Seq<GroundSegment>, cfg: Config) -> GroundSegment {
    GroundSegment { x: track[0].follower_x(cfg) as i32, y: cfg.track_y }
}

/// The track after one frame: every segment scrolled, those beyond the
/// trailing edge gone, and the follower at the end where one is due.
pub open spec fn scrolled_track(track: Seq<GroundSegment>, cfg: Config) -> Seq<GroundSegment> {
    if spawns_follower(track, cfg) {
        scrolled_segments(track, cfg).push(follower(track, cfg))
    } else {
        scrolled_segments(track, cfg)
    }
}

impl EnvObject {
    /// A bird as it appears: at the right edge, at height `y`, wings up, with
    /// a repeating wing-beat timer, and dangerous.
    pub open spec fn bird(cfg: Config, y: i32) -> EnvObject {
        EnvObject {
            kind: ObjectKind::Bird,
            x: cfg.half_width,
            y: y,
            sprite_index: BIRD_WINGS_UP,
            timer: Some(
                AnimationTimer {
                    period: cfg.frame_period,
                    elapsed: 0,
                    repeating: true,
                    finished: false,
                    times_finished: 0,
                },
            ),
            severity: Some(BIRD_SEVERITY),
        }
    }

    /// A cloud as it appears: at the right edge, at height `y`, still and
    /// harmless.
    pub open spec fn cloud(cfg: Config, y: i32) -> EnvObject {
        EnvObject {
            kind: ObjectKind::Cloud,
            x: cfg.half_width,
            y: y,
            sprite_index: CLOUD_SPRITE,
            timer: None,
            severity: None,
        }
    }

    /// Whether the player can run into the object.
    pub open spec fn is_obstacle(&self) -> bool {
        self.severity is Some
    }

    /// Whether a tick of `delta` is within reach of the object's timer.
    pub open spec fn can_animate(&self, delta: u64) -> bool {
        self.timer matches Some(timer) ==> timer.wf() && timer.can_tick(delta)
    }

    /// The object after one frame of animation lasting `delta`. One without
    /// a timer is left alone. The timer of the others ticks, and a tick that
    /// completes a period moves the wings on by one frame.
    pub open spec fn flapped(&self, delta: u64) -> EnvObject {
        match self.timer {
            Some(timer) => {
                let timer = timer.ticked(delta);
                EnvObject {
                    timer: Some(timer),
                    sprite_index: if timer.just_finished_spec() {
                        next_wing_frame(self.sprite_index)
                    } else {
                        self.sprite_index
                    },
                    ..*self
                }
            },
            None => *self,
        }
    }

    /// Where the object is after one frame of scrolling.
    pub open spec fn shifted_x(&self, cfg: Config) -> int {
        self.x - cfg.track_speed
    }

    /// Whether one frame of scrolling takes the object beyond the trailing
    /// edge.
    pub open spec fn leaves(&self, cfg: Config) -> bool {
        self.shifted_x(cfg) < cfg.object_edge()
    }

    /// The object after one frame of scrolling.
    pub open spec fn shifted(&self, cfg: Config) -> EnvObject {
        EnvObject { x: self.shifted_x(cfg) as i32, ..*self }
    }
}

/// The objects of `sky` that are still there after one frame, each scrolled,
/// in their old order.
pub open spec fn scrolled_objects(sky: Seq<EnvObject>, cfg: Config) -> Seq<EnvObject>
    decreases sky.len(),
{
    if sky.len() == 0 {
        Seq::empty()
    } else {
        let before = scrolled_objects(sky.drop_last(), cfg);
        if sky.last().leaves(cfg) {
            before
        } else {
            before.push(sky.last().shifted(cfg))
        }
    }
}

/// What three draws decide. The first is the spawn check, which succeeds on
/// zero; the second picks a bird on zero and a cloud otherwise; the third is
/// the height.
pub open spec fn spawn_outcome(check: i32, kind: i32, height: i32, cfg: Config) -> Option<
    EnvObject,
> {
    if check == 0 {
        if kind == 0 {
            Some(EnvObject::bird(cfg, height))
        } else {
            Some(EnvObject::cloud(cfg, height))
        }
    } else {
        None
    }
}

/// `sky` with the spawned object, if there is one, at its end.
pub open spec fn with_spawn(sky: Seq<EnvObject>, spawn: Option<EnvObject>) -> Seq<EnvObject> {
    match spawn {
        Some(object) => sky.push(object),
        None => sky,
    }
}

impl GroundSegment {
    /// Scrolls the segment by one frame, or tells with `None` that it has
    /// passed the trailing edge and goes.
    pub fn scroll(&self, cfg: &Config) -> (moved: Option<GroundSegment>)
        requires
            cfg.wf(),
        ensures
            self.leaves(*cfg) ==> moved is None,
            !self.leaves(*cfg) ==> moved == Some(self.shifted(*cfg)),
            moved matches Some(segment) ==> segment.x == self.shifted_x(*cfg) && segment.y
                == self.y,
    {
        let edge: i64 = -(cfg.tile_half_width as i64 + cfg.half_width as i64);
        let x: i64 = self.x as i64 - cfg.track_speed as i64;
        if x >= edge {
            Some(GroundSegment { x: x as i32, y: self.y })
        } else {
            None
        }
    }

    /// Tells whether the position of the segment's follower fits in `i32`.
    pub fn is_followable(&self, cfg: &Config) -> (ok: bool)
        ensures
            ok == self.can_follow(*cfg),
    {
        let x: i64 = self.x as i64 - cfg.track_speed as i64;
        i32::MIN as i64 <= x + 2 * (cfg.tile_half_width as i64)
    }

    /// Makes the segment that follows this one, where one is due: the track
    /// holds `count` segments, fewer than two, and this one has scrolled to
    /// the left of the origin.
    pub fn follow(&self, count: usize, cfg: &Config) -> (next: Option<GroundSegment>)
        requires
            cfg.wf(),
            count < 2 && self.shifted_x(*cfg) < 0 ==> self.can_follow(*cfg),
        ensures
            next is Some <==> (count < 2 && self.shifted_x(*cfg) < 0),
            next matches Some(segment) ==> segment.x == self.follower_x(*cfg) && segment.y
                == cfg.track_y,
    {
        let x: i64 = self.x as i64 - cfg.track_speed as i64;
        if count < 2 && x < 0 {
            let next: i64 = x + 2 * (cfg.tile_half_width as i64);
            Some(GroundSegment { x: next as i32, y: cfg.track_y })
        } else {
            None
        }
    }
}

impl EnvObject {
    /// Scrolls the object by one frame, or tells with `None` that it has
    /// passed the trailing edge and goes.
    pub fn scroll(&self, cfg: &Config) -> (moved: Option<EnvObject>)
        requires
            cfg.wf(),
        ensures
            self.leaves(*cfg) ==> moved is None,
            !self.leaves(*cfg) ==> moved == Some(self.shifted(*cfg)),
            moved matches Some(object) ==> object.x == self.shifted_x(*cfg),
    {
        let edge: i64 = -(cfg.half_width as i64 + cfg.despawn_margin as i64);
        let x: i64 = self.x as i64 - cfg.track_speed as i64;
        if x >= edge {
            Some(
                EnvObject {
                    kind: self.kind,
                    x: x as i32,
                    y: self.y,
                    sprite_index: self.sprite_index,
                    timer: self.timer,
                    severity: self.severity,
                },
            )
        } else {
            None
        }
    }

    /// Tells whether a tick of `delta` is within reach of the object's
    /// timer.
    pub fn is_animable(&self, delta: u64) -> (ok: bool)
        ensures
            ok == self.can_animate(delta),
    {
        match self.timer {
            Some(timer) => timer.is_valid() && timer.accepts(delta),
            None => true,
        }
    }

    /// Animates the object for one frame that lasted `delta` nanoseconds.
    pub fn flap(&mut self, delta: u64)
        requires
            old(self).can_animate(delta),
        ensures
            *final(self) == old(self).flapped(delta),
    {
        match self.timer {
            Some(timer) => {
                let mut timer: AnimationTimer = timer;
                timer.tick(delta);
                if timer.just_finished() {
                    if self.sprite_index == BIRD_WINGS_UP {
                        self.sprite_index = BIRD_WINGS_DOWN;
                    } else {
                        self.sprite_index = BIRD_WINGS_UP;
                    }
                }
                self.timer = Some(timer);
            },
            None => {},
        }
    }
}

/// Makes what the desert starts with: the first ground segment and the
/// session's spawn timer.
pub fn spawn_desert(cfg: &Config) -> (start: (GroundSegment, AnimationTimer))
    requires
        cfg.wf(),
    ensures
        start.0 == GroundSegment::first(*cfg),
        start.0.x == cfg.tile_half_width - cfg.half_width,
        start.1 == spawn_timer(*cfg),
        start.1.wf(),
{
    (
        GroundSegment { x: cfg.tile_half_width - cfg.half_width, y: cfg.track_y },
        AnimationTimer::new(cfg.spawn_period, true),
    )
}

/// Animates every object that has a timer for one frame that lasted `delta`
/// nanoseconds.
pub fn handle_animations(objects: &mut Vec<EnvObject>, delta: u64)
    requires
        forall|i: int| 0 <= i < old(objects)@.len() ==> (#[trigger] old(objects)@[i]).can_animate(delta),
    ensures
        final(objects)@.len() == old(objects)@.len(),
        forall|i: int|
            0 <= i < old(objects)@.len() ==> #[trigger] final(objects)@[i] == old(
                objects,
            )@[i].flapped(delta),
{
    let count: usize = objects.len();
    let mut i: usize = 0;
    while i < count
        invariant
            i <= count,
            objects@.len() == count,
            old(objects)@.len() == count,
            forall|j: int| 0 <= j < i ==> #[trigger] objects@[j] == old(objects)@[j].flapped(delta),
            forall|j: int| i <= j < count ==> #[trigger] objects@[j] == old(objects)@[j],
            forall|j: int| 0 <= j < count ==> (#[trigger] old(objects)@[j]).can_animate(delta),
        decreases count - i,
    {
        let mut object: EnvObject = objects[i];
        object.flap(delta);
        objects.set(i, object);
        i += 1;
    }
}

/// Scrolls the ground by one frame. Every segment moves left by the track
/// speed. A segment whose centre is then beyond the trailing edge is
/// removed. Where the track held a single segment and that segment is now
/// left of the origin, a new segment joins the track, one tile to the right
/// of it and scrolled like it.
pub fn handle_track_movement(segments: &mut Vec<GroundSegment>, cfg: &Config)
    requires
        cfg.wf(),
        can_scroll_track(old(segments)@, *cfg),
    ensures
        final(segments)@ == scrolled_track(old(segments)@, *cfg),
{
    let count: usize = segments.len();
    let mut kept: Vec<GroundSegment> = Vec::new();
    let mut i: usize = 0;
    while i < count
        invariant
            i <= count,
            segments@.len() == count,
            segments@ == old(segments)@,
            cfg.wf(),
            kept@ == scrolled_segments(segments@.take(i as int), *cfg),
        decreases count - i,
    {
        let segment: GroundSegment = segments[i];
        proof {
            assert(segments@.take(i + 1).drop_last() == segments@.take(i as int));
        }
        match segment.scroll(cfg) {
            Some(moved) => {
                kept.push(moved);
            },
            None => {},
        }
        i += 1;
    }
    proof {
        assert(segments@.take(count as int) == segments@);
    }
    if count == 1 {
        match segments[0].follow(count, cfg) {
            Some(next) => {
                kept.push(next);
            },
            None => {},
        }
    }
    *segments = kept;
}

/// Decides from three draws whether an object appears, and makes it.
pub fn spawn_from_draws(check: i32, kind: i32, height: i32, cfg: &Config) -> (spawn: Option<
    EnvObject,
>)
    ensures
        spawn == spawn_outcome(check, kind, height, *cfg),
{
    if check != 0 {
        return None;
    }
    if kind == 0 {
        Some(
            EnvObject {
                kind: ObjectKind::Bird,
                x: cfg.half_width,
                y: height,
                sprite_index: BIRD_WINGS_UP,
                timer: Some(AnimationTimer::new(cfg.frame_period, true)),
                severity: Some(BIRD_SEVERITY),
            },
        )
    } else {
        Some(
            EnvObject {
                kind: ObjectKind::Cloud,
                x: cfg.half_width,
                y: height,
                sprite_index: CLOUD_SPRITE,
                timer: None,
                severity: None,
            },
        )
    }
}

/// Makes the frame's spawn check. One check in `spawn_odds` succeeds; it
/// then brings a bird or a cloud, each as likely as the other, at the right
/// edge and at a height drawn from the spawn band.
pub fn add_environment_objects(objects: &mut Vec<EnvObject>, cfg: &Config)
    requires
        cfg.wf(),
    ensures
        exists|check: i32, kind: i32, height: i32|
            {
                &&& 0 <= check < cfg.spawn_odds
                &&& 0 <= kind <= 1
                &&& cfg.band_low <= height <= cfg.band_high
                &&& final(objects)@ == with_spawn(
                    old(objects)@,
                    #[trigger] spawn_outcome(check, kind, height, *cfg),
                )
            },
{
    let check: i32 = draw_between(0, cfg.spawn_odds - 1);
    if check == 0 {
        let kind: i32 = draw_between(0, 1);
        let height: i32 = draw_between(cfg.band_low, cfg.band_high);
        let spawn: Option<EnvObject> = spawn_from_draws(check, kind, height, cfg);
        match spawn {
            Some(object) => {
                objects.push(object);
            },
            None => {},
        }
        proof {
            assert(objects@ == with_spawn(old(objects)@, spawn_outcome(check, kind, height, *cfg)));
        }
    } else {
        proof {
            assert(objects@ == with_spawn(
                old(objects)@,
                spawn_outcome(check, 0, cfg.band_low, *cfg),
            ));
        }
    }
}

/// Scrolls the birds and clouds by one frame. Every object moves left by the
/// track speed, and one that is then beyond the trailing edge is removed.
pub fn handle_desert_object_movement(objects: &mut Vec<EnvObject>, cfg: &Config)
    requires
        cfg.wf(),
    ensures
        final(objects)@ == scrolled_objects(old(objects)@, *cfg),
{
    let count: usize = objects.len();
    let mut kept: Vec<EnvObject> = Vec::new();
    let mut i: usize = 0;
    while i < count
        invariant
            i <= count,
            objects@.len() == count,
            objects@ == old(objects)@,
            cfg.wf(),
            kept@ == scrolled_objects(objects@.take(i as int), *cfg),
        decreases count - i,
    {
        let object: EnvObject = objects[i];
        proof {
            assert(objects@.take(i + 1).drop_last() == objects@.take(i as int));
        }
        match object.scroll(cfg) {
            Some(moved) => {
                kept.push(moved);
            },
            None => {},
        }
        i += 1;
    }
    proof {
        assert(objects@.take(count as int) == objects@);
    }
    *objects = kept;
}

} // verus!
