use dino_runner::atlas::{desert_regions, dino_regions, Region, SHEET_HEIGHT, SHEET_WIDTH};
use dino_runner::config::{
    Config, BIRD_WINGS_DOWN, BIRD_WINGS_UP, CLOUD_SPRITE, DINO_RUN_A, DINO_RUN_B, DINO_STANDING,
    GROUND_SPRITE,
};
use dino_runner::desert::{EnvObject, GroundSegment, ObjectKind};
use dino_runner::dino::{spawn_dino, RunState};
use dino_runner::timer::AnimationTimer;

const QUARTER: u64 = 250_000_000;

fn seg(x: i32) -> GroundSegment {
    GroundSegment { x, y: -144 }
}

fn bird(x: i32) -> EnvObject {
    EnvObject {
        kind: ObjectKind::Bird,
        x,
        y: 64,
        sprite_index: BIRD_WINGS_UP,
        timer: Some(AnimationTimer::new(QUARTER, true)),
        severity: Some(1),
    }
}

#[test]
fn sheet_size() {
    assert_eq!((SHEET_WIDTH, SHEET_HEIGHT), (1233, 68));
}

#[test]
fn dino_regions_follow_the_atlas_indices() {
    let regions = dino_regions();
    assert_eq!(regions.len(), 3);
    assert_eq!(
        regions[DINO_STANDING as usize],
        Region { from_x: 850, from_y: 46, to_x: 889, to_y: 4 }
    );
    assert_eq!(
        regions[DINO_RUN_A as usize],
        Region { from_x: 938, from_y: 46, to_x: 977, to_y: 4 }
    );
    assert_eq!(
        regions[DINO_RUN_B as usize],
        Region { from_x: 982, from_y: 46, to_x: 1021, to_y: 4 }
    );
}

#[test]
fn desert_regions_follow_the_atlas_indices() {
    let regions = desert_regions();
    assert_eq!(regions.len(), 4);
    assert_eq!(
        regions[GROUND_SPRITE as usize],
        Region { from_x: 2, from_y: 66, to_x: 1201, to_y: 53 }
    );
    assert_eq!(
        regions[CLOUD_SPRITE as usize],
        Region { from_x: 85, from_y: 15, to_x: 132, to_y: 1 }
    );
    assert_eq!(
        regions[BIRD_WINGS_UP as usize],
        Region { from_x: 135, from_y: 3, to_x: 178, to_y: 40 }
    );
    assert_eq!(
        regions[BIRD_WINGS_DOWN as usize],
        Region { from_x: 181, from_y: 3, to_x: 224, to_y: 40 }
    );
}

#[test]
fn regions_lie_on_the_sheet() {
    for region in dino_regions().into_iter().chain(desert_regions()) {
        assert!(region.from_x <= SHEET_WIDTH && region.to_x <= SHEET_WIDTH);
        assert!(region.from_y <= SHEET_HEIGHT && region.to_y <= SHEET_HEIGHT);
    }
}

#[test]
fn segment_scroll_moves_or_removes() {
    let cfg = Config::standard();
    assert_eq!(seg(279).scroll(&cfg), Some(seg(274)));
    assert_eq!(seg(-914).scroll(&cfg), Some(seg(-919)));
    assert_eq!(seg(-915).scroll(&cfg), None);
    assert_eq!(seg(i32::MIN).scroll(&cfg), None);
    assert_eq!(seg(i32::MAX).scroll(&cfg), Some(seg(i32::MAX - 5)));
}

#[test]
fn segment_follow_needs_a_lone_segment_left_of_the_origin() {
    let cfg = Config::standard();
    assert_eq!(seg(4).follow(1, &cfg), Some(seg(1197)));
    assert_eq!(seg(5).follow(1, &cfg), None);
    assert_eq!(seg(4).follow(2, &cfg), None);
    assert_eq!(seg(4).follow(3, &cfg), None);
    assert_eq!(seg(4).follow(0, &cfg), Some(seg(1197)));
    assert_eq!(seg(-2112).follow(1, &cfg), Some(seg(-919)));
    assert_eq!(seg(-2113).follow(1, &cfg), Some(seg(-920)));
    assert_eq!(seg(-3000).follow(1, &cfg), Some(seg(-1807)));
    assert_eq!(seg(i32::MIN).follow(1, &cfg), Some(seg(i32::MIN + 1193)));
    assert_eq!(seg(i32::MIN).follow(2, &cfg), None);
    assert_eq!(
        GroundSegment { x: 0, y: 9 }.follow(1, &cfg),
        Some(GroundSegment { x: 1193, y: -144 })
    );
}

#[test]
fn segment_is_followable_while_the_follower_fits() {
    let cfg = Config::standard();
    assert!(seg(279).is_followable(&cfg));
    assert!(seg(-3000).is_followable(&cfg));
    assert!(seg(i32::MAX).is_followable(&cfg));
    assert!(seg(i32::MIN).is_followable(&cfg));
    let mut fast = cfg;
    fast.tile_half_width = 3;
    fast.half_width = 3;
    fast.track_speed = 10;
    assert!(fast.is_valid());
    assert!(seg(i32::MIN + 4).is_followable(&fast));
    assert!(!seg(i32::MIN + 3).is_followable(&fast));
    assert!(!seg(i32::MIN).is_followable(&fast));
    assert_eq!(seg(i32::MIN + 4).follow(1, &fast), Some(seg(i32::MIN)));
    assert_eq!(seg(i32::MIN).follow(2, &fast), None);
}

#[test]
fn object_scroll_moves_or_removes() {
    let cfg = Config::standard();
    assert_eq!(bird(320).scroll(&cfg), Some(bird(315)));
    assert_eq!(bird(-365).scroll(&cfg), Some(bird(-370)));
    assert_eq!(bird(-366).scroll(&cfg), None);
    assert_eq!(bird(i32::MIN).scroll(&cfg), None);
}

#[test]
fn object_flap_ticks_and_toggles() {
    let mut object = bird(0);
    object.flap(QUARTER - 1);
    assert_eq!(object.sprite_index, BIRD_WINGS_UP);
    object.flap(1);
    assert_eq!(object.sprite_index, BIRD_WINGS_DOWN);
    object.flap(3 * QUARTER);
    assert_eq!(object.sprite_index, BIRD_WINGS_UP);
    assert_eq!(object.timer.unwrap().times_finished, 3);
    let mut still = EnvObject {
        kind: ObjectKind::Cloud,
        x: 0,
        y: 0,
        sprite_index: CLOUD_SPRITE,
        timer: None,
        severity: None,
    };
    let before = still;
    still.flap(QUARTER);
    assert_eq!(still, before);
}

#[test]
fn object_is_animable_follows_its_timer() {
    let mut object = bird(0);
    assert!(object.is_animable(QUARTER));
    assert!(!object.is_animable(u64::MAX));
    object.timer = None;
    assert!(object.is_animable(u64::MAX));
    object.timer = Some(AnimationTimer {
        period: 0,
        elapsed: 0,
        repeating: true,
        finished: false,
        times_finished: 0,
    });
    assert!(!object.is_animable(1));
    object.timer = Some(AnimationTimer::new(0, false));
    assert!(object.is_animable(u64::MAX));
}

#[test]
fn player_is_movable_until_velocity_runs_out() {
    let cfg = Config::standard();
    let mut player = spawn_dino(&cfg);
    assert!(player.is_movable(false, &cfg));
    player.vel_y = i32::MIN + 2;
    assert!(player.is_movable(false, &cfg));
    player.vel_y = i32::MIN + 1;
    assert!(!player.is_movable(false, &cfg));
    assert!(player.is_movable(true, &cfg));
    player.state = RunState::Jumping;
    assert!(player.is_movable(true, &cfg));
    player.y = 0;
    assert!(!player.is_movable(true, &cfg));
}

#[test]
fn player_is_animable_while_jumping_whatever_the_timer() {
    let cfg = Config::standard();
    let mut player = spawn_dino(&cfg);
    assert!(player.is_animable(QUARTER));
    assert!(!player.is_animable(u64::MAX));
    player.state = RunState::Jumping;
    assert!(player.is_animable(u64::MAX));
}

#[test]
fn timer_is_valid_needs_a_period_to_repeat() {
    assert!(AnimationTimer::new(1, true).is_valid());
    assert!(AnimationTimer::new(0, false).is_valid());
    let broken =
        AnimationTimer { period: 0, elapsed: 0, repeating: true, finished: false, times_finished: 0 };
    assert!(!broken.is_valid());
}
