use dino_runner::config::{
    Config, BIRD_SEVERITY, BIRD_WINGS_DOWN, BIRD_WINGS_UP, CLOUD_SPRITE, DINO_RUN_A, DINO_RUN_B,
    DINO_STANDING, GROUND_SPRITE, SPAWN_ODDS,
};

#[test]
fn standard_config_values() {
    let cfg = Config::standard();
    assert_eq!(cfg.half_width, 320);
    assert_eq!(cfg.half_height, 160);
    assert_eq!(cfg.ground_level, -128);
    assert_eq!(cfg.player_x, -213);
    assert_eq!(cfg.jump_velocity, 25);
    assert_eq!(cfg.gravity, 2);
    assert_eq!(cfg.landing_tolerance, 0);
    assert_eq!(cfg.track_speed, 5);
    assert_eq!(cfg.tile_half_width, 599);
    assert_eq!(cfg.track_y, -144);
    assert_eq!(cfg.despawn_margin, 50);
    assert_eq!(cfg.spawn_odds, 200);
    assert_eq!(cfg.band_low, 32);
    assert_eq!(cfg.band_high, 128);
    assert_eq!(cfg.frame_period, 250_000_000);
    assert_eq!(cfg.spawn_period, 1_000_000_000);
    assert_eq!((cfg.player_width, cfg.player_height), (41, 44));
    assert_eq!((cfg.obstacle_width, cfg.obstacle_height), (24, 49));
    assert!(cfg.is_valid());
}

#[test]
fn atlas_indices() {
    assert_eq!(DINO_STANDING, 0);
    assert_eq!(DINO_RUN_A, 1);
    assert_eq!(DINO_RUN_B, 2);
    assert_eq!(GROUND_SPRITE, 0);
    assert_eq!(CLOUD_SPRITE, 1);
    assert_eq!(BIRD_WINGS_UP, 2);
    assert_eq!(BIRD_WINGS_DOWN, 3);
    assert_eq!(BIRD_SEVERITY, 1);
    assert_eq!(SPAWN_ODDS, 200);
}

#[test]
fn is_valid_rejects_each_broken_field() {
    let good = Config::standard();
    let mut c = good;
    c.half_width = -1;
    assert!(!c.is_valid());
    c = good;
    c.ground_level = 161;
    assert!(!c.is_valid());
    c = good;
    c.jump_velocity = -1;
    assert!(!c.is_valid());
    c = good;
    c.gravity = -1;
    assert!(!c.is_valid());
    c = good;
    c.landing_tolerance = -1;
    assert!(!c.is_valid());
    c = good;
    c.track_speed = -1;
    assert!(!c.is_valid());
    c = good;
    c.tile_half_width = -1;
    assert!(!c.is_valid());
    c = good;
    c.tile_half_width = 1 << 30;
    assert!(!c.is_valid());
    c = good;
    c.despawn_margin = -1;
    assert!(!c.is_valid());
    c = good;
    c.despawn_margin = i32::MAX;
    assert!(!c.is_valid());
    c = good;
    c.spawn_odds = 0;
    assert!(!c.is_valid());
    c = good;
    c.band_low = 129;
    assert!(!c.is_valid());
    c = good;
    c.frame_period = 0;
    assert!(!c.is_valid());
    c = good;
    c.spawn_period = 0;
    assert!(!c.is_valid());
    c = good;
    c.player_width = -1;
    assert!(!c.is_valid());
    c = good;
    c.player_height = -1;
    assert!(!c.is_valid());
    c = good;
    c.obstacle_width = -1;
    assert!(!c.is_valid());
    c = good;
    c.obstacle_height = -1;
    assert!(!c.is_valid());
}

#[test]
fn is_valid_accepts_the_limits() {
    let mut c = Config::standard();
    c.half_width = 0;
    c.tile_half_width = i32::MAX / 2;
    c.despawn_margin = i32::MAX;
    c.ground_level = c.half_height;
    c.band_low = c.band_high;
    c.spawn_odds = 1;
    c.frame_period = 1;
    c.spawn_period = 1;
    assert!(c.is_valid());
}
