use crate::config::Config;
use crate::desert::{
    can_scroll_track, scrolled_objects, scrolled_segments, scrolled_track, spawns_follower,
    EnvObject, GroundSegment,
};
use vstd::prelude::*;

verus! {

/// A configuration under which the ground never shows a gap: a tile is at
/// least as wide as the window, and one frame of scrolling is no longer than
/// what a tile has over the window.
pub open spec fn steady_config(cfg: Config) -> bool {
    &&& cfg.wf()
    &&& cfg.half_width <= cfg.tile_half_width
    &&& cfg.track_speed <= 2 * (cfg.tile_half_width - cfg.half_width)
}

/// The two shapes of a track in steady scrolling. Either one segment spans
/// the window, or two lie edge to edge, the left one left of the origin and
/// not yet beyond the trailing edge.
pub open spec fn steady_track(track: Seq<GroundSegment>, cfg: Config) -> bool {
    ||| {
        &&& track.len() == 1
        &&& cfg.half_width - cfg.tile_half_width <= track[0].x <= cfg.tile_half_width
            - cfg.half_width
    }
    ||| {
        &&& track.len() == 2
        &&& track[1].x == track[0].x + 2 * cfg.tile_half_width
        &&& cfg.track_edge() <= track[0].x < 0
    }
}

/// Whether the segment lies under the point `at` of the horizontal axis.
pub open spec fn reaches(segment: GroundSegment, at: int, cfg: Config) -> bool {
    segment.x - cfg.tile_half_width <= at <= segment.x + cfg.tile_half_width
}

/// Whether some segment of the track lies under the point `at`.
pub open spec fn covered_at(track: Seq<GroundSegment>, at: int, cfg: Config) -> bool {
    exists|i: int| 0 <= i < track.len() && #[trigger] reaches(track[i], at, cfg)
}

/// Whether the track lies under every point of the window, from its left
/// edge to its right edge.
pub open spec fn window_covered(track: Seq<GroundSegment>, cfg: Config) -> bool {
    forall|at: int| -cfg.half_width <= at <= cfg.half_width ==> #[trigger] covered_at(track, at, cfg)
}

/// The track after `frames` frames of scrolling.
pub open spec fn scrolled_track_for(track: Seq<GroundSegment>, frames: nat, cfg: Config) -> Seq<
    GroundSegment,
>
    decreases frames,
{
    if frames == 0 {
        track
    } else {
        scrolled_track(scrolled_track_for(track, (frames - 1) as nat, cfg), cfg)
    }
}

/// The sky after `frames` frames of scrolling in which nothing new appears.
pub open spec fn scrolled_objects_for(sky: Seq<EnvObject>, frames: nat, cfg: Config) -> Seq<
    EnvObject,
>
    decreases frames,
{
    if frames == 0 {
        sky
    } else {
        scrolled_objects(scrolled_objects_for(sky, (frames - 1) as nat, cfg), cfg)
    }
}

/// What scrolling keeps of a track: every segment kept is in sight, none is
/// added, and each segment that does not leave is there, scrolled.
pub proof fn lemma_scrolled_segments_exact(track: Seq<GroundSegment>, cfg: Config)
    requires
        cfg.wf(),
    ensures
        scrolled_segments(track, cfg).len() <= track.len(),
        forall|j: int|
            0 <= j < scrolled_segments(track, cfg).len() ==> (#[trigger] scrolled_segments(
                track,
                cfg,
            )[j]).x >= cfg.track_edge(),
        forall|i: int|
            0 <= i < track.len() && !(#[trigger] track[i]).leaves(cfg) ==> exists|j: int|
                0 <= j < scrolled_segments(track, cfg).len() && #[trigger] scrolled_segments(
                    track,
                    cfg,
                )[j] == track[i].shifted(cfg),
        forall|i: int|
            0 <= i < track.len() && !(#[trigger] track[i]).leaves(cfg) ==> track[i].shifted(cfg).x
                == track[i].shifted_x(cfg),
    decreases track.len(),
{
    if track.len() > 0 {
        let head = track.drop_last();
        lemma_scrolled_segments_exact(head, cfg);
        let before = scrolled_segments(head, cfg);
        let all = scrolled_segments(track, cfg);
        assert forall|j: int| 0 <= j < all.len() implies (#[trigger] all[j]).x
            >= cfg.track_edge() by {
            if j < before.len() {
                assert(all[j] == before[j]);
            }
        }
        assert forall|i: int| 0 <= i < track.len() && !(#[trigger] track[i]).leaves(
            cfg,
        ) implies exists|j: int|
            0 <= j < all.len() && #[trigger] all[j] == track[i].shifted(cfg) by {
            if i < head.len() {
                assert(head[i] == track[i]);
                let j = choose|j: int|
                    0 <= j < before.len() && #[trigger] before[j] == head[i].shifted(cfg);
                assert(all[j] == before[j]);
            } else {
                assert(all[all.len() - 1] == track[i].shifted(cfg));
            }
        }
    }
}

/// A ground segment is gone after the frame if and only if scrolling took
/// its centre beyond the trailing edge. Of the segments that were there
/// before the frame, those in sight are all still there, one frame further
/// left, and nothing of the others is. They stand first in the new track;
/// all that can come after them is the one new segment.
pub proof fn lemma_segment_goes_iff_beyond_edge(track: Seq<GroundSegment>, i: int, cfg: Config)
    requires
        cfg.wf(),
        0 <= i < track.len(),
    ensures
        track[i].leaves(cfg) <==> !(exists|j: int|
            0 <= j < scrolled_segments(track, cfg).len() && (#[trigger] scrolled_segments(
                track,
                cfg,
            )[j]).x == track[i].shifted_x(cfg)),
        !track[i].leaves(cfg) ==> exists|j: int|
            0 <= j < scrolled_segments(track, cfg).len() && #[trigger] scrolled_segments(
                track,
                cfg,
            )[j] == track[i].shifted(cfg),
        scrolled_track(track, cfg).take(scrolled_segments(track, cfg).len() as int)
            == scrolled_segments(track, cfg),
        scrolled_track(track, cfg).len() == scrolled_segments(track, cfg).len() + (if spawns_follower(
            track,
            cfg,
        ) {
            1int
        } else {
            0int
        }),
{
    lemma_scrolled_segments_exact(track, cfg);
    let kept = scrolled_segments(track, cfg);
    if !track[i].leaves(cfg) {
        let j = choose|j: int| 0 <= j < kept.len() && #[trigger] kept[j] == track[i].shifted(cfg);
        assert(kept[j].x == track[i].shifted_x(cfg));
    }
    assert(scrolled_track(track, cfg).take(kept.len() as int) =~= kept);
}

/// The same of the sky: what scrolling keeps is in sight, nothing is added,
/// and each object that does not leave is there, scrolled.
pub proof fn lemma_scrolled_objects_exact(sky: Seq<EnvObject>, cfg: Config)
    requires
        cfg.wf(),
    ensures
        scrolled_objects(sky, cfg).len() <= sky.len(),
        forall|j: int|
            0 <= j < scrolled_objects(sky, cfg).len() ==> (#[trigger] scrolled_objects(
                sky,
                cfg,
            )[j]).x >= cfg.object_edge(),
        forall|i: int|
            0 <= i < sky.len() && !(#[trigger] sky[i]).leaves(cfg) ==> exists|j: int|
                0 <= j < scrolled_objects(sky, cfg).len() && #[trigger] scrolled_objects(
                    sky,
                    cfg,
                )[j] == sky[i].shifted(cfg),
        forall|i: int|
            0 <= i < sky.len() && !(#[trigger] sky[i]).leaves(cfg) ==> sky[i].shifted(cfg).x
                == sky[i].shifted_x(cfg),
    decreases sky.len(),
{
    if sky.len() > 0 {
        let head = sky.drop_last();
        lemma_scrolled_objects_exact(head, cfg);
        let before = scrolled_objects(head, cfg);
        let all = scrolled_objects(sky, cfg);
        assert forall|j: int| 0 <= j < all.len() implies (#[trigger] all[j]).x
            >= cfg.object_edge() by {
            if j < before.len() {
                assert(all[j] == before[j]);
            }
        }
        assert forall|i: int| 0 <= i < sky.len() && !(#[trigger] sky[i]).leaves(
            cfg,
        ) implies exists|j: int|
            0 <= j < all.len() && #[trigger] all[j] == sky[i].shifted(cfg) by {
            if i < head.len() {
                assert(head[i] == sky[i]);
                let j = choose|j: int|
                    0 <= j < before.len() && #[trigger] before[j] == head[i].shifted(cfg);
                assert(all[j] == before[j]);
            } else {
                assert(all[all.len() - 1] == sky[i].shifted(cfg));
            }
        }
    }
}

/// An object alone in the sky is there after `frames` frames, that many
/// steps further left, as long as the sum of the steps keeps it at or before
/// the trailing edge; from the first frame that takes it beyond, the sky is
/// empty.
pub proof fn lemma_lone_object_drifts(object: EnvObject, frames: nat, cfg: Config)
    requires
        cfg.wf(),
    ensures
        object.x - frames * cfg.track_speed >= cfg.object_edge() ==> scrolled_objects_for(
            seq![object],
            frames,
            cfg,
        ) == seq![
            EnvObject { x: (object.x - frames * cfg.track_speed) as i32, ..object },
        ],
        frames >= 1 && object.x - frames * cfg.track_speed < cfg.object_edge()
            ==> scrolled_objects_for(
            seq![object],
            frames,
            cfg,
        ) == Seq::<EnvObject>::empty(),
    decreases frames,
{
    let speed = cfg.track_speed as int;
    if frames == 0 {
        assert(frames * speed == 0) by (nonlinear_arith)
            requires
                frames == 0,
        ;
        assert(seq![object] =~= seq![EnvObject { x: object.x, ..object }]);
    } else {
        let before = (frames - 1) as nat;
        lemma_lone_object_drifts(object, before, cfg);
        assert(frames * speed == before * speed + speed) by (nonlinear_arith)
            requires
                frames == before + 1,
        ;
        assert(before * speed >= 0) by (nonlinear_arith)
            requires
                before >= 0,
                speed >= 0,
        ;
        let earlier = scrolled_objects_for(seq![object], before, cfg);
        if object.x - before * speed >= cfg.object_edge() {
            let drifted = EnvObject { x: (object.x - before * speed) as i32, ..object };
            assert(earlier == seq![drifted]);
            assert(earlier.drop_last() =~= Seq::<EnvObject>::empty());
            assert(scrolled_objects(earlier.drop_last(), cfg) =~= Seq::<EnvObject>::empty());
            assert(earlier.last() == drifted);
            if drifted.leaves(cfg) {
                assert(scrolled_objects(earlier, cfg) =~= Seq::<EnvObject>::empty());
            } else {
                assert(scrolled_objects(earlier, cfg) =~= seq![drifted.shifted(cfg)]);
            }
        } else if before == 0 {
            assert(before * speed == 0) by (nonlinear_arith)
                requires
                    before == 0,
            ;
            assert(object.leaves(cfg));
            assert(earlier == seq![object]);
            assert(earlier.drop_last() =~= Seq::<EnvObject>::empty());
            assert(scrolled_objects(earlier.drop_last(), cfg) =~= Seq::<EnvObject>::empty());
            assert(earlier.last() == object);
            assert(scrolled_objects(earlier, cfg) =~= Seq::<EnvObject>::empty());
        } else {
            assert(earlier =~= Seq::<EnvObject>::empty());
        }
    }
}

/// The track that the session starts with is steady.
pub proof fn lemma_first_track_is_steady(cfg: Config)
    requires
        steady_config(cfg),
    ensures
        steady_track(seq![GroundSegment::first(cfg)], cfg),
{
}

/// One frame of scrolling takes a steady track to a steady track.
pub proof fn lemma_steady_track_stays_steady(track: Seq<GroundSegment>, cfg: Config)
    requires
        steady_config(cfg),
        steady_track(track, cfg),
    ensures
        steady_track(scrolled_track(track, cfg), cfg),
{
    reveal_with_fuel(scrolled_segments, 3);
    if track.len() == 1 {
        assert(track.drop_last() =~= Seq::<GroundSegment>::empty());
        assert(track.last() == track[0]);
    } else {
        let head = track.drop_last();
        assert(head.len() == 1);
        assert(head.drop_last() =~= Seq::<GroundSegment>::empty());
        assert(head.last() == track[0]);
        assert(track.last() == track[1]);
        assert(!spawns_follower(track, cfg));
    }
}

/// A steady track has one or two segments, lies under the whole window, and
/// can be scrolled: the place of a new segment always fits.
pub proof fn lemma_steady_track_covers_window(track: Seq<GroundSegment>, cfg: Config)
    requires
        steady_config(cfg),
        steady_track(track, cfg),
    ensures
        1 <= track.len() <= 2,
        window_covered(track, cfg),
        can_scroll_track(track, cfg),
{
    assert forall|at: int| -cfg.half_width <= at <= cfg.half_width implies #[trigger] covered_at(
        track,
        at,
        cfg,
    ) by {
        if track.len() == 1 {
            assert(reaches(track[0], at, cfg));
        } else if at <= track[0].x + cfg.tile_half_width {
            assert(reaches(track[0], at, cfg));
        } else {
            assert(reaches(track[1], at, cfg));
        }
    }
}

/// In steady scrolling the ground never shows a gap: from the track that the
/// session starts with, after any number of frames, there are one or two
/// segments, and they lie under the whole window.
pub proof fn lemma_ground_never_gaps(frames: nat, cfg: Config)
    requires
        steady_config(cfg),
    ensures
        steady_track(scrolled_track_for(seq![GroundSegment::first(cfg)], frames, cfg), cfg),
        1 <= scrolled_track_for(seq![GroundSegment::first(cfg)], frames, cfg).len() <= 2,
        window_covered(scrolled_track_for(seq![GroundSegment::first(cfg)], frames, cfg), cfg),
        can_scroll_track(scrolled_track_for(seq![GroundSegment::first(cfg)], frames, cfg), cfg),
    decreases frames,
{
    let start = seq![GroundSegment::first(cfg)];
    if frames == 0 {
        lemma_first_track_is_steady(cfg);
    } else {
        lemma_ground_never_gaps((frames - 1) as nat, cfg);
        lemma_steady_track_stays_steady(scrolled_track_for(start, (frames - 1) as nat, cfg), cfg);
    }
    lemma_steady_track_covers_window(scrolled_track_for(start, frames, cfg), cfg);
}

} // verus!
