use dino_runner::config::{Config, BIRD_WINGS_DOWN, BIRD_WINGS_UP, CLOUD_SPRITE};
use dino_runner::desert::{
    add_environment_objects, handle_animations, handle_desert_object_movement,
    handle_track_movement, spawn_desert, spawn_from_draws, EnvObject, GroundSegment, ObjectKind,
};
use dino_runner::timer::AnimationTimer;

const QUARTER: u64 = 250_000_000;

fn seg(x: i32) -> GroundSegment {
    GroundSegment { x, y: -144 }
}

fn bird(x: i32, y: i32) -> EnvObject {
    EnvObject {
        kind: ObjectKind::Bird,
        x,
        y,
        sprite_index: BIRD_WINGS_UP,
        timer: Some(AnimationTimer::new(QUARTER, true)),
        severity: Some(1),
    }
}

fn cloud(x: i32, y: i32) -> EnvObject {
    EnvObject {
        kind: ObjectKind::Cloud,
        x,
        y,
        sprite_index: CLOUD_SPRITE,
        timer: None,
        severity: None,
    }
}

fn covered(track: &[GroundSegment], cfg: &Config) -> bool {
    (-cfg.half_width..=cfg.half_width).all(|at| {
        track.iter().any(|s| s.x - cfg.tile_half_width <= at && at <= s.x + cfg.tile_half_width)
    })
}

#[test]
fn spawn_desert_places_the_first_segment() {
    let cfg = Config::standard();
    let (segment, _) = spawn_desert(&cfg);
    assert_eq!(segment, GroundSegment { x: 279, y: -144 });
}

#[test]
fn spawn_desert_makes_the_spawn_timer_of_one_second() {
    let cfg = Config::standard();
    let (_, timer) = spawn_desert(&cfg);
    assert_eq!(
        timer,
        AnimationTimer {
            period: 1_000_000_000,
            elapsed: 0,
            repeating: true,
            finished: false,
            times_finished: 0,
        }
    );
    let mut short = cfg;
    short.spawn_period = 7;
    assert_eq!(spawn_desert(&short).1, AnimationTimer::new(7, true));
}

#[test]
fn lone_segment_far_to_the_left_still_gets_a_follower() {
    let cfg = Config::standard();
    let mut track = vec![seg(-3000)];
    handle_track_movement(&mut track, &cfg);
    assert_eq!(track, vec![seg(-1807)]);
    handle_track_movement(&mut track, &cfg);
    assert_eq!(track, vec![seg(-614)]);
    handle_track_movement(&mut track, &cfg);
    assert_eq!(track, vec![seg(-619), seg(579)]);
}

#[test]
fn follower_beyond_the_edge_lasts_one_frame() {
    let cfg = Config::standard();
    let mut track = vec![seg(-2113)];
    handle_track_movement(&mut track, &cfg);
    assert_eq!(track, vec![seg(-920)]);
    handle_track_movement(&mut track, &cfg);
    assert_eq!(track, vec![seg(273)]);
}

#[test]
fn follower_at_the_lowest_position_that_fits() {
    let mut cfg = Config::standard();
    cfg.tile_half_width = 3;
    cfg.half_width = 3;
    cfg.track_speed = 10;
    assert!(cfg.is_valid());
    let mut track = vec![seg(i32::MIN + 4)];
    handle_track_movement(&mut track, &cfg);
    assert_eq!(track, vec![seg(i32::MIN)]);
    let mut track = vec![seg(i32::MIN), seg(20), seg(4)];
    handle_track_movement(&mut track, &cfg);
    assert_eq!(track, vec![seg(10), seg(-6)]);
}

#[test]
fn track_scrolls_left_by_the_speed() {
    let cfg = Config::standard();
    let mut track = vec![seg(279)];
    handle_track_movement(&mut track, &cfg);
    assert_eq!(track, vec![seg(274)]);
}

#[test]
fn lone_segment_left_of_origin_gets_a_follower() {
    let cfg = Config::standard();
    let mut track = vec![seg(4)];
    handle_track_movement(&mut track, &cfg);
    assert_eq!(track, vec![seg(-1), seg(1197)]);
}

#[test]
fn segment_at_the_origin_gets_no_follower() {
    let cfg = Config::standard();
    let mut track = vec![seg(5)];
    handle_track_movement(&mut track, &cfg);
    assert_eq!(track, vec![seg(0)]);
}

#[test]
fn follower_takes_the_track_height() {
    let cfg = Config::standard();
    let mut track = vec![GroundSegment { x: 2, y: 77 }];
    handle_track_movement(&mut track, &cfg);
    assert_eq!(track, vec![GroundSegment { x: -3, y: 77 }, GroundSegment { x: 1195, y: -144 }]);
}

#[test]
fn two_segments_get_no_follower() {
    let cfg = Config::standard();
    let mut track = vec![seg(-1), seg(1197)];
    handle_track_movement(&mut track, &cfg);
    assert_eq!(track, vec![seg(-6), seg(1192)]);
}

#[test]
fn segment_goes_when_it_passes_the_trailing_edge() {
    let cfg = Config::standard();
    let mut track = vec![seg(-914), seg(284)];
    handle_track_movement(&mut track, &cfg);
    assert_eq!(track, vec![seg(-919), seg(279)]);
    handle_track_movement(&mut track, &cfg);
    assert_eq!(track, vec![seg(274)]);
}

#[test]
fn lone_segment_beyond_the_edge_is_replaced() {
    let cfg = Config::standard();
    let mut track = vec![seg(-917)];
    handle_track_movement(&mut track, &cfg);
    assert_eq!(track, vec![seg(-922 + 1198)]);
}

#[test]
fn empty_track_stays_empty() {
    let cfg = Config::standard();
    let mut track: Vec<GroundSegment> = Vec::new();
    handle_track_movement(&mut track, &cfg);
    assert!(track.is_empty());
}

#[test]
fn three_segments_scroll_and_filter_in_order() {
    let cfg = Config::standard();
    let mut track = vec![seg(-915), seg(-2000), seg(10), seg(i32::MIN)];
    handle_track_movement(&mut track, &cfg);
    assert_eq!(track, vec![seg(5)]);
    let mut track = vec![seg(-914), seg(0), seg(-913)];
    handle_track_movement(&mut track, &cfg);
    assert_eq!(track, vec![seg(-919), seg(-5), seg(-918)]);
}

#[test]
fn steady_scrolling_keeps_one_or_two_segments_and_no_gap() {
    let cfg = Config::standard();
    let mut track = vec![spawn_desert(&cfg).0];
    let mut seen_one = false;
    let mut seen_two = false;
    for _ in 0..3000 {
        assert!(track.len() == 1 || track.len() == 2);
        assert!(covered(&track, &cfg));
        if track.len() == 2 {
            assert_eq!(track[1].x, track[0].x + 1198);
            seen_two = true;
        } else {
            seen_one = true;
        }
        handle_track_movement(&mut track, &cfg);
    }
    assert!(seen_one && seen_two);
}

#[test]
fn first_recycle_happens_on_schedule() {
    let cfg = Config::standard();
    let mut track = vec![spawn_desert(&cfg).0];
    for _ in 0..55 {
        handle_track_movement(&mut track, &cfg);
    }
    assert_eq!(track, vec![seg(4)]);
    handle_track_movement(&mut track, &cfg);
    assert_eq!(track, vec![seg(-1), seg(1197)]);
    for _ in 0..183 {
        handle_track_movement(&mut track, &cfg);
    }
    assert_eq!(track, vec![seg(-916), seg(282)]);
    handle_track_movement(&mut track, &cfg);
    assert_eq!(track, vec![seg(277)]);
}

#[test]
fn narrow_tile_leaves_a_gap() {
    let mut cfg = Config::standard();
    cfg.tile_half_width = 100;
    assert!(cfg.is_valid());
    let track = vec![spawn_desert(&cfg).0];
    assert!(!covered(&track, &cfg));
}

#[test]
fn objects_scroll_left_by_the_speed() {
    let cfg = Config::standard();
    let mut sky = vec![bird(320, 50), cloud(0, 100)];
    handle_desert_object_movement(&mut sky, &cfg);
    assert_eq!(sky, vec![bird(315, 50), cloud(-5, 100)]);
}

#[test]
fn object_goes_when_it_passes_the_trailing_edge() {
    let cfg = Config::standard();
    let mut sky = vec![cloud(-365, 40), bird(-366, 50), cloud(i32::MIN, 0), bird(-364, 60)];
    handle_desert_object_movement(&mut sky, &cfg);
    assert_eq!(sky, vec![cloud(-370, 40), bird(-369, 60)]);
    handle_desert_object_movement(&mut sky, &cfg);
    assert!(sky.is_empty());
}

#[test]
fn object_from_the_right_edge_crosses_the_window() {
    let cfg = Config::standard();
    let mut sky = vec![cloud(cfg.half_width, 64)];
    let run = ((cfg.half_width + cfg.despawn_margin) / cfg.track_speed) as usize;
    assert_eq!(run, 74);
    for _ in 0..run {
        handle_desert_object_movement(&mut sky, &cfg);
    }
    assert_eq!(sky, vec![cloud(-50, 64)]);
    for _ in run..138 {
        handle_desert_object_movement(&mut sky, &cfg);
    }
    assert_eq!(sky, vec![cloud(-370, 64)]);
    handle_desert_object_movement(&mut sky, &cfg);
    assert!(sky.is_empty());
}

#[test]
fn object_at_the_origin_is_gone_after_its_run() {
    let cfg = Config::standard();
    let mut sky = vec![bird(0, 64)];
    for _ in 0..74 {
        handle_desert_object_movement(&mut sky, &cfg);
    }
    assert_eq!(sky.len(), 1);
    assert_eq!(sky[0].x, -370);
    handle_desert_object_movement(&mut sky, &cfg);
    assert!(sky.is_empty());
}

#[test]
fn animation_flaps_birds_and_leaves_clouds() {
    let mut sky = vec![bird(10, 50), cloud(20, 60), bird(30, 70)];
    sky[2].sprite_index = BIRD_WINGS_DOWN;
    handle_animations(&mut sky, 100_000_000);
    assert_eq!(sky[0].sprite_index, BIRD_WINGS_UP);
    assert_eq!(sky[1], cloud(20, 60));
    assert_eq!(sky[2].sprite_index, BIRD_WINGS_DOWN);
    handle_animations(&mut sky, 150_000_000);
    assert_eq!(sky[0].sprite_index, BIRD_WINGS_DOWN);
    assert_eq!(sky[1], cloud(20, 60));
    assert_eq!(sky[2].sprite_index, BIRD_WINGS_UP);
    assert_eq!(sky[0].timer.unwrap().elapsed, 0);
    assert!(sky[0].timer.unwrap().just_finished());
    handle_animations(&mut sky, QUARTER + 1);
    assert_eq!(sky[0].sprite_index, BIRD_WINGS_UP);
    assert_eq!(sky[2].sprite_index, BIRD_WINGS_DOWN);
    assert_eq!(sky[0].timer.unwrap().elapsed, 1);
    assert_eq!((sky[0].x, sky[0].y), (10, 50));
}

#[test]
fn animation_with_a_foreign_sprite_falls_back_to_wings_up() {
    let mut sky = vec![bird(0, 0)];
    sky[0].sprite_index = 9;
    handle_animations(&mut sky, QUARTER);
    assert_eq!(sky[0].sprite_index, BIRD_WINGS_UP);
}

#[test]
fn animation_of_an_empty_sky() {
    let mut sky: Vec<EnvObject> = Vec::new();
    handle_animations(&mut sky, QUARTER);
    assert!(sky.is_empty());
}

#[test]
fn draws_decide_the_spawn() {
    let cfg = Config::standard();
    assert_eq!(spawn_from_draws(0, 0, 77, &cfg), Some(bird(320, 77)));
    assert_eq!(spawn_from_draws(0, 1, 32, &cfg), Some(cloud(320, 32)));
    assert_eq!(spawn_from_draws(1, 0, 77, &cfg), None);
    assert_eq!(spawn_from_draws(199, 1, 77, &cfg), None);
}

#[test]
fn spawned_bird_is_animated_and_dangerous() {
    let cfg = Config::standard();
    let spawned = spawn_from_draws(0, 0, 100, &cfg).unwrap();
    assert_eq!(spawned.kind, ObjectKind::Bird);
    assert_eq!(spawned.sprite_index, BIRD_WINGS_UP);
    assert_eq!(spawned.timer, Some(AnimationTimer::new(QUARTER, true)));
    assert_eq!(spawned.severity, Some(1));
    let drifting = spawn_from_draws(0, 1, 100, &cfg).unwrap();
    assert_eq!(drifting.kind, ObjectKind::Cloud);
    assert_eq!(drifting.sprite_index, CLOUD_SPRITE);
    assert_eq!(drifting.timer, None);
    assert_eq!(drifting.severity, None);
}

#[test]
fn spawn_checks_bring_birds_and_clouds_now_and_then() {
    let cfg = Config::standard();
    let mut sky: Vec<EnvObject> = Vec::new();
    let checks = 40_000;
    for _ in 0..checks {
        let before = sky.len();
        add_environment_objects(&mut sky, &cfg);
        assert!(sky.len() == before || sky.len() == before + 1);
    }
    assert!(sky.len() >= 80, "too few spawns: {}", sky.len());
    assert!(sky.len() <= 400, "too many spawns: {}", sky.len());
    let mut birds = 0;
    let mut clouds = 0;
    let mut lowest = i32::MAX;
    let mut highest = i32::MIN;
    for object in &sky {
        assert_eq!(object.x, 320);
        assert!(object.y >= 32 && object.y <= 128);
        lowest = lowest.min(object.y);
        highest = highest.max(object.y);
        match object.kind {
            ObjectKind::Bird => {
                birds += 1;
                assert_eq!(*object, bird(320, object.y));
            }
            ObjectKind::Cloud => {
                clouds += 1;
                assert_eq!(*object, cloud(320, object.y));
            }
        }
    }
    assert!(birds > 0 && clouds > 0);
    assert!(lowest < highest);
}

#[test]
fn certain_spawn_when_the_odds_are_one() {
    let mut cfg = Config::standard();
    cfg.spawn_odds = 1;
    cfg.band_low = 40;
    cfg.band_high = 40;
    let mut sky: Vec<EnvObject> = Vec::new();
    for _ in 0..10 {
        add_environment_objects(&mut sky, &cfg);
    }
    assert_eq!(sky.len(), 10);
    assert!(sky.iter().all(|o| o.y == 40 && o.x == 320));
}
