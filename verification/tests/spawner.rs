use flappy_sim::background::cloud_spawner;
use flappy_sim::background::draw_cloud;
use flappy_sim::background::setup_cloud_spawn_timer;
use flappy_sim::background::spawn;
use flappy_sim::background::spawn_despawn_area;
use flappy_sim::background::translate_value_from_one_range_to_another;
use flappy_sim::background::CloudDraw;
use flappy_sim::background::Decoration;
use flappy_sim::background::Sprite;
use flappy_sim::background::CLOUD_DISTANCE_MAX;
use flappy_sim::background::CLOUD_DISTANCE_MIN;
use flappy_sim::background::CLOUD_SCALE_MAX;
use flappy_sim::background::CLOUD_SCALE_MIN;
use flappy_sim::background::CLOUD_SPEED_MAX;
use flappy_sim::background::CLOUD_SPEED_MIN;
use flappy_sim::config::GameConfig;
use flappy_sim::game::Game;
use flappy_sim::game::StepInput;
use flappy_sim::geometry::DespawnArea;
use flappy_sim::geometry::Vec2;
use flappy_sim::geometry::Window;
use flappy_sim::model::Draws;
use flappy_sim::pipes::draw_gap_center;
use flappy_sim::pipes::pipe_sprite_offsets;
use flappy_sim::pipes::setup_spawn_pipe;
use flappy_sim::pipes::spawn_pipe;
use flappy_sim::pipes::spawn_pipe_despawn_area;
use flappy_sim::pipes::GapSensor;
use flappy_sim::pipes::PipeBottom;
use flappy_sim::pipes::PipeGroup;
use flappy_sim::pipes::PipeTop;
use flappy_sim::pipes::GAP_MARGIN;
use flappy_sim::pipes::GAP_SIZE;
use flappy_sim::pipes::PIPE_HEIGHT;
use flappy_sim::pipes::PIPE_WIDTH;
use flappy_sim::pipes::SENSOR_WIDTH;
use flappy_sim::pipes::SPRITE_SIZE;
use flappy_sim::timer::Timer;
use flappy_sim::timer::TimerMode;
use flappy_sim::AppState;

const SCREEN: Window = Window { width: 1200, height: 600 };

fn quiet_input(delta: u64, window: Option<Window>) -> StepInput {
    StepInput {
        delta,
        window,
        jump: false,
        cancel: false,
        translation: Vec2 { x: 0, y: 0 },
        velocity: Vec2 { x: 0, y: 0 },
        started: Vec::new(),
        contacts: Vec::new(),
        intersections: Vec::new(),
    }
}

fn started_game(config: GameConfig) -> Game {
    let mut game = match Game::new(config, Some(SCREEN)) {
        Ok(game) => game,
        Err(error) => panic!("refused: {:?}", error),
    };
    let mut input = quiet_input(0, Some(SCREEN));
    input.jump = true;
    game.step_with(&input, Draws { cloud: None, gap_center: None });
    assert_eq!(game.state(), AppState::InGame);
    game
}

#[test]
fn gap_centered_in_the_field_stays_in_the_field() {
    let mut config = setup_spawn_pipe(5_000_000);
    let group = match spawn_pipe(&mut config, 5_000_000, Some(SCREEN), 0, 10) {
        Some(group) => group,
        None => panic!("no pair was spawned"),
    };
    assert_eq!(
        group,
        PipeGroup { id: 10, x: 1450, y: 0, speed: -300, sensor: GapSensor { counted: false } }
    );
    assert_eq!(GAP_SIZE, 600);
    let top = group.y + GAP_SIZE / 2;
    let bottom = group.y - GAP_SIZE / 2;
    assert_eq!(top, 300);
    assert_eq!(bottom, -300);
    assert!(top <= i64::from(SCREEN.height) - GAP_MARGIN);
    assert!(bottom >= -(i64::from(SCREEN.height) - GAP_MARGIN));
}

#[test]
fn gap_center_is_limited_by_height_gap_and_margin() {
    // 600 - 600 / 2 - 20 = 280
    for (y, fits) in [(279, true), (280, false), (-280, true), (-281, false), (5_000, false)] {
        let mut config = setup_spawn_pipe(1);
        let spawned = spawn_pipe(&mut config, 1, Some(SCREEN), y, 0);
        assert_eq!(spawned.is_some(), fits, "height {}", y);
        if let Some(group) = spawned {
            assert_eq!(group.y, y);
            assert!(group.y + GAP_SIZE / 2 < 580);
            assert!(group.y - GAP_SIZE / 2 >= -580);
        }
    }
}

#[test]
fn drawn_gap_centers_fit_and_vary() {
    let mut lowest = i64::MAX;
    let mut highest = i64::MIN;
    for _ in 0..2_000 {
        let y = match draw_gap_center(SCREEN) {
            Some(y) => y,
            None => panic!("nothing was drawn"),
        };
        assert!((-280..280).contains(&y));
        lowest = lowest.min(y);
        highest = highest.max(y);
        let mut config = setup_spawn_pipe(1);
        assert!(spawn_pipe(&mut config, 1, Some(SCREEN), y, 0).is_some());
    }
    assert!(lowest < -140);
    assert!(highest > 140);
}

#[test]
fn no_gap_is_drawn_for_a_low_window() {
    assert_eq!(draw_gap_center(Window { width: 1200, height: 320 }), None);
    assert_eq!(draw_gap_center(Window { width: 1200, height: 0 }), None);
    for _ in 0..50 {
        let y = draw_gap_center(Window { width: 1200, height: 321 });
        assert!(y == Some(-1) || y == Some(0));
    }
}

#[test]
fn no_pair_is_spawned_for_a_low_window() {
    let mut config = setup_spawn_pipe(1);
    assert_eq!(spawn_pipe(&mut config, 1, Some(Window { width: 1200, height: 320 }), 0, 0), None);
    assert!(config.timer.finished);
}

#[test]
fn no_pair_is_spawned_without_window() {
    let mut config = setup_spawn_pipe(5);
    assert_eq!(spawn_pipe(&mut config, 5, None, 0, 0), None);
    assert!(config.timer.finished);
    assert_eq!(config.timer.elapsed, 0);
}

#[test]
fn no_pair_is_spawned_before_the_clock_fires() {
    let mut config = setup_spawn_pipe(5);
    assert_eq!(
        config.timer,
        Timer { mode: TimerMode::Repeating, duration: 5, elapsed: 0, finished: false }
    );
    assert_eq!(spawn_pipe(&mut config, 4, Some(SCREEN), 0, 0), None);
    assert_eq!(config.timer.elapsed, 4);
    assert!(spawn_pipe(&mut config, 1, Some(SCREEN), 0, 0).is_some());
    assert_eq!(spawn_pipe(&mut config, 1, Some(SCREEN), 0, 0), None);
}

#[test]
fn pipes_are_laid_out_around_the_gap() {
    assert_eq!(SPRITE_SIZE, 250);
    assert_eq!(PIPE_HEIGHT, 2000);
    assert_eq!(PIPE_WIDTH, 250);
    assert_eq!(SENSOR_WIDTH, 50);
    assert_eq!(PipeTop::center_offset(), 1300);
    assert_eq!(PipeBottom::center_offset(), -1300);
    assert_eq!(PipeTop::center_offset() - PIPE_HEIGHT / 2, GAP_SIZE / 2);
    assert_eq!(PipeBottom::center_offset() + PIPE_HEIGHT / 2, -GAP_SIZE / 2);
    assert_eq!(pipe_sprite_offsets(), vec![-875, -625, -375, -125, 125, 375, 625, 875]);
}

#[test]
fn despawn_areas_lie_left_of_the_field() {
    assert_eq!(
        spawn_pipe_despawn_area(Some(SCREEN), 4),
        Some(DespawnArea { id: 4, x: -1470, width: 50, height: 1200 })
    );
    assert_eq!(spawn_pipe_despawn_area(None, 4), None);
    assert_eq!(
        spawn_despawn_area(Some(SCREEN), 5),
        Some(DespawnArea { id: 5, x: -4800, width: 50, height: 1200 })
    );
    assert_eq!(spawn_despawn_area(None, 5), None);
    assert_eq!(
        spawn_despawn_area(Some(Window { width: u32::MAX, height: u32::MAX }), 0),
        Some(DespawnArea { id: 0, x: -17_179_869_180, width: 50, height: 8_589_934_590 })
    );
}

#[test]
fn mountains_stand_at_the_foot_of_the_window() {
    assert_eq!(
        spawn(Some(SCREEN), 1),
        Some(Decoration {
            id: 1,
            sprite: Sprite::Mountains,
            x: 0,
            y: -500,
            distance: 0,
            scale: 1000,
            speed: -50,
        })
    );
    assert_eq!(spawn(None, 1), None);
    let narrow = spawn(Some(Window { width: 0, height: 0 }), 1);
    assert_eq!(narrow.map(|mountains| mountains.y), Some(100));
}

#[test]
fn range_ends_are_translated_to_range_ends() {
    assert_eq!(translate_value_from_one_range_to_another(-500, -500, -50, 250, 2000), 250);
    assert_eq!(translate_value_from_one_range_to_another(-50, -500, -50, 250, 2000), 2000);
    assert_eq!(translate_value_from_one_range_to_another(-500, -500, -50, 0, 1000), 0);
    assert_eq!(translate_value_from_one_range_to_another(-50, -500, -50, 0, 1000), 1000);
    assert_eq!(translate_value_from_one_range_to_another(0, 0, 10, 7, -7), 7);
    assert_eq!(translate_value_from_one_range_to_another(10, 0, 10, 7, -7), -7);
    assert_eq!(
        translate_value_from_one_range_to_another(i32::MAX, i32::MIN, i32::MAX, i32::MAX, i32::MIN),
        i32::MIN
    );
    assert_eq!(
        translate_value_from_one_range_to_another(i32::MIN, i32::MIN, i32::MAX, i32::MAX, i32::MIN),
        i32::MAX
    );
}

#[test]
fn values_between_are_translated_in_proportion() {
    assert_eq!(translate_value_from_one_range_to_another(-275, -500, -50, 250, 2000), 1125);
    assert_eq!(translate_value_from_one_range_to_another(-275, -500, -50, 0, 1000), 500);
    assert_eq!(translate_value_from_one_range_to_another(5, 0, 10, 0, 100), 50);
    assert_eq!(translate_value_from_one_range_to_another(1, 0, 3, 0, 10), 3);
    assert_eq!(translate_value_from_one_range_to_another(1, 0, 3, 10, 0), 6);
    assert_eq!(translate_value_from_one_range_to_another(5, 0, 10, 3, 3), 3);
    assert_eq!(translate_value_from_one_range_to_another(-499, -500, -50, 250, 2000), 253);
}

#[test]
fn fastest_cloud_has_least_scale_and_depth() {
    let mut config = setup_cloud_spawn_timer(2_000_000, 1, 2);
    let draw = CloudDraw { y: 0, speed: CLOUD_SPEED_MIN, sprite: 1 };
    let cloud = match cloud_spawner(&mut config, 2_000_000, Some(SCREEN), Some(draw), 3) {
        Some(cloud) => cloud,
        None => panic!("no cloud was spawned"),
    };
    assert_eq!(
        cloud,
        Decoration {
            id: 3,
            sprite: Sprite::Cloud(1),
            x: 2400,
            y: 0,
            distance: 0,
            scale: 250,
            speed: -500,
        }
    );
    assert_eq!(cloud.scale, CLOUD_SCALE_MIN);
    assert_eq!(cloud.distance, CLOUD_DISTANCE_MIN);
}

#[test]
fn slowest_cloud_has_greatest_scale_and_depth() {
    let mut config = setup_cloud_spawn_timer(2_000_000, 1, 2);
    let draw = CloudDraw { y: 0, speed: CLOUD_SPEED_MAX, sprite: 1 };
    let cloud = match cloud_spawner(&mut config, 2_000_000, Some(SCREEN), Some(draw), 3) {
        Some(cloud) => cloud,
        None => panic!("no cloud was spawned"),
    };
    assert_eq!(
        cloud,
        Decoration {
            id: 3,
            sprite: Sprite::Cloud(1),
            x: 2400,
            y: 0,
            distance: 1000,
            scale: 2000,
            speed: -50,
        }
    );
    assert_eq!(cloud.scale, CLOUD_SCALE_MAX);
    assert_eq!(cloud.distance, CLOUD_DISTANCE_MAX);
}

#[test]
fn cloud_just_below_the_slowest() {
    let mut config = setup_cloud_spawn_timer(2_000_000, 1, 2);
    let draw = CloudDraw { y: -539, speed: CLOUD_SPEED_MAX - 1, sprite: 8 };
    let cloud = match cloud_spawner(&mut config, 2_000_000, Some(SCREEN), Some(draw), 3) {
        Some(cloud) => cloud,
        None => panic!("no cloud was spawned"),
    };
    // 449 of 450 parts of the way: 1746.1 of 1750 and 997.7 of 1000, rounded down.
    assert_eq!(cloud.scale, 250 + 1746);
    assert!(cloud.scale < CLOUD_SCALE_MAX);
    assert_eq!(cloud.distance, 997);
    assert!(cloud.distance < CLOUD_DISTANCE_MAX);
    assert_eq!(cloud.y, -539);
    assert_eq!(cloud.sprite, Sprite::Cloud(8));
}

#[test]
fn faster_clouds_are_never_larger_or_deeper() {
    let mut scale = CLOUD_SCALE_MIN;
    let mut distance = CLOUD_DISTANCE_MIN;
    for speed in CLOUD_SPEED_MIN..=CLOUD_SPEED_MAX {
        let mut config = setup_cloud_spawn_timer(1, 1, 2);
        let draw = CloudDraw { y: 0, speed, sprite: 1 };
        let cloud = match cloud_spawner(&mut config, 1, Some(SCREEN), Some(draw), 0) {
            Some(cloud) => cloud,
            None => panic!("no cloud was spawned at the speed {}", speed),
        };
        assert!(cloud.scale >= scale);
        assert!(cloud.distance >= distance);
        assert!(cloud.scale <= CLOUD_SCALE_MAX);
        assert!(cloud.distance <= CLOUD_DISTANCE_MAX);
        scale = cloud.scale;
        distance = cloud.distance;
    }
    assert_eq!(scale, CLOUD_SCALE_MAX);
    assert_eq!(distance, CLOUD_DISTANCE_MAX);
}

#[test]
fn cloud_of_middle_speed() {
    let mut config = setup_cloud_spawn_timer(1, 1, 1);
    let draw = CloudDraw { y: 100, speed: -275, sprite: 4 };
    let cloud = cloud_spawner(&mut config, 1, Some(SCREEN), Some(draw), 0);
    assert_eq!(
        cloud,
        Some(Decoration {
            id: 0,
            sprite: Sprite::Cloud(4),
            x: 2400,
            y: 100,
            distance: 500,
            scale: 1125,
            speed: -275,
        })
    );
}

#[test]
fn draws_that_do_not_fit_spawn_no_cloud() {
    // 600 - 600 / 10 = 540
    let fitting = CloudDraw { y: 539, speed: -500, sprite: 1 };
    for (draw, fits) in [
        (fitting, true),
        (CloudDraw { y: 540, ..fitting }, false),
        (CloudDraw { y: -540, ..fitting }, true),
        (CloudDraw { y: -541, ..fitting }, false),
        (CloudDraw { speed: -501, ..fitting }, false),
        (CloudDraw { speed: -500, ..fitting }, true),
        (CloudDraw { speed: -50, ..fitting }, true),
        (CloudDraw { speed: -49, ..fitting }, false),
        (CloudDraw { sprite: 0, ..fitting }, false),
        (CloudDraw { sprite: 8, ..fitting }, true),
        (CloudDraw { sprite: 9, ..fitting }, false),
    ] {
        let mut config = setup_cloud_spawn_timer(1, 1, 2);
        let cloud = cloud_spawner(&mut config, 1, Some(SCREEN), Some(draw), 0);
        assert_eq!(cloud.is_some(), fits, "{:?}", draw);
    }
}

#[test]
fn no_cloud_without_draw_window_or_firing() {
    let draw = CloudDraw { y: 0, speed: -100, sprite: 2 };
    let mut config = setup_cloud_spawn_timer(10, 1, 2);
    assert_eq!(cloud_spawner(&mut config, 9, Some(SCREEN), Some(draw), 0), None);
    assert_eq!(config.timer.elapsed, 9);
    assert_eq!(cloud_spawner(&mut config, 1, Some(SCREEN), None, 0), None);
    assert!(config.timer.finished);
    assert_eq!(cloud_spawner(&mut config, 10, None, Some(draw), 0), None);
    assert!(config.timer.finished);
    assert!(cloud_spawner(&mut config, 10, Some(SCREEN), Some(draw), 0).is_some());
    assert_eq!(config.numerator, 1);
    assert_eq!(config.denominator, 2);
}

#[test]
fn cloud_draws_fit_the_window() {
    let config = setup_cloud_spawn_timer(1, 1, 1);
    let mut speeds = std::collections::BTreeSet::new();
    let mut sprites = std::collections::BTreeSet::new();
    let mut heights = std::collections::BTreeSet::new();
    for _ in 0..4_000 {
        let draw = match draw_cloud(&config, SCREEN) {
            Some(draw) => draw,
            None => panic!("a chance of one gave no cloud"),
        };
        assert!((-540..540).contains(&draw.y));
        assert!((-500..=-50).contains(&draw.speed));
        assert!((1..=8).contains(&draw.sprite));
        speeds.insert(draw.speed);
        sprites.insert(draw.sprite);
        heights.insert(draw.y);
    }
    assert_eq!(sprites.len(), 8);
    assert!(speeds.len() > 100);
    assert!(speeds.iter().all(|speed| (CLOUD_SPEED_MIN..=CLOUD_SPEED_MAX).contains(speed)));
    assert!(heights.len() > 100);
}

#[test]
fn both_ends_of_the_speeds_are_drawn() {
    let config = setup_cloud_spawn_timer(1, 1, 1);
    let mut fastest = false;
    let mut slowest = false;
    for _ in 0..40_000 {
        match draw_cloud(&config, SCREEN) {
            Some(draw) => {
                fastest = fastest || draw.speed == CLOUD_SPEED_MIN;
                slowest = slowest || draw.speed == CLOUD_SPEED_MAX;
            }
            None => panic!("a chance of one gave no cloud"),
        }
    }
    assert!(fastest);
    assert!(slowest);
}

#[test]
fn chance_of_zero_gives_no_cloud() {
    let config = setup_cloud_spawn_timer(1, 0, 5);
    for _ in 0..1_000 {
        assert_eq!(draw_cloud(&config, SCREEN), None);
    }
}

#[test]
fn no_cloud_is_drawn_for_a_window_without_height() {
    let config = setup_cloud_spawn_timer(1, 1, 1);
    assert_eq!(draw_cloud(&config, Window { width: 1200, height: 0 }), None);
    assert_eq!(
        draw_cloud(&config, Window { width: 1200, height: 1 }).map(|draw| draw.y).map(|y| y == 0 || y == -1),
        Some(true)
    );
}

#[test]
fn half_of_the_firings_spawn_a_cloud() {
    let config = setup_cloud_spawn_timer(1, 1, 2);
    let firings = 20_000;
    let mut clouds = 0;
    for _ in 0..firings {
        if draw_cloud(&config, SCREEN).is_some() {
            clouds += 1;
        }
    }
    assert!(clouds > 9_000, "{} clouds in {} firings", clouds, firings);
    assert!(clouds < 11_000, "{} clouds in {} firings", clouds, firings);
}

#[test]
fn a_quarter_of_the_firings_spawn_a_cloud() {
    let mut game = match Game::new(
        GameConfig { cloud_period: 1, cloud_numerator: 1, cloud_denominator: 4, ..GameConfig::default() },
        Some(SCREEN),
    ) {
        Ok(game) => game,
        Err(error) => panic!("refused: {:?}", error),
    };
    let firings = 20_000;
    let mut clouds = 0;
    for _ in 0..firings {
        let before = game.decoration_count();
        let outcome = game.step(&quiet_input(1, Some(SCREEN)));
        assert_eq!(outcome.cloud.is_some(), outcome.draws.cloud.is_some());
        if let Some(cloud) = outcome.cloud {
            clouds += 1;
            assert_eq!(game.decoration_count(), before + 1);
            assert_eq!(game.decoration(before), Some(cloud));
        } else {
            assert_eq!(game.decoration_count(), before);
        }
    }
    assert!(clouds > 4_000, "{} clouds in {} firings", clouds, firings);
    assert!(clouds < 6_000, "{} clouds in {} firings", clouds, firings);
}

#[test]
fn step_spawns_a_pair_every_period() {
    let mut game = started_game(GameConfig { cloud_numerator: 0, ..GameConfig::default() });
    let mut spawned = Vec::new();
    for _ in 0..1_000 {
        let outcome = game.step(&quiet_input(100_000, Some(SCREEN)));
        assert_eq!(outcome.cloud, None);
        if let Some(group) = outcome.pipe {
            assert_eq!(outcome.draws.gap_center, Some(group.y));
            assert!((-280..280).contains(&group.y));
            assert_eq!(group.x, 1450);
            assert_eq!(group.speed, -300);
            assert!(!group.sensor.counted);
            spawned.push(group);
        } else {
            assert_eq!(outcome.draws.gap_center, None);
        }
    }
    assert_eq!(spawned.len(), 20);
    assert_eq!(game.pipe_count(), 20);
    for (index, group) in spawned.iter().enumerate() {
        assert_eq!(game.pipe(index), Some(*group));
        assert_eq!(group.id, 4 + 4 * index as u32);
    }
    assert_eq!(game.pipe(20), None);
}

#[test]
fn step_spawns_no_pair_outside_a_game() {
    let mut game = match Game::new(GameConfig::default(), Some(SCREEN)) {
        Ok(game) => game,
        Err(error) => panic!("refused: {:?}", error),
    };
    for _ in 0..20 {
        let outcome = game.step(&quiet_input(5_000_000, Some(SCREEN)));
        assert_eq!(outcome.pipe, None);
        assert_eq!(outcome.draws.gap_center, None);
    }
    assert_eq!(game.pipe_count(), 0);
    assert_eq!(game.pipes_spawn().timer.elapsed, 0);
    let outcome = game.step_with(
        &quiet_input(5_000_000, Some(SCREEN)),
        Draws { cloud: None, gap_center: Some(0) },
    );
    assert_eq!(outcome.pipe, None);
}

#[test]
fn step_spawns_nothing_without_window() {
    let mut game = started_game(GameConfig { cloud_numerator: 1, cloud_denominator: 1, ..GameConfig::default() });
    let scenery = game.decoration_count();
    for _ in 0..20 {
        let outcome = game.step(&quiet_input(5_000_000, None));
        assert_eq!(outcome.pipe, None);
        assert_eq!(outcome.cloud, None);
        assert_eq!(outcome.draws, Draws { cloud: None, gap_center: None });
    }
    assert_eq!(game.pipe_count(), 0);
    assert_eq!(game.decoration_count(), scenery);
    let outcome = game.step_with(
        &quiet_input(5_000_000, None),
        Draws { cloud: Some(CloudDraw { y: 0, speed: -100, sprite: 1 }), gap_center: Some(0) },
    );
    assert_eq!(outcome.pipe, None);
    assert_eq!(outcome.cloud, None);
}

#[test]
fn step_with_spawns_what_was_drawn() {
    let mut game = started_game(GameConfig::default());
    let draws = Draws { cloud: Some(CloudDraw { y: 12, speed: -500, sprite: 3 }), gap_center: Some(-7) };
    let early = game.step_with(&quiet_input(1_999_999, Some(SCREEN)), draws);
    assert_eq!(early.cloud, None);
    assert_eq!(early.pipe, None);
    let outcome = game.step_with(&quiet_input(3_000_001, Some(SCREEN)), draws);
    assert_eq!(outcome.draws, draws);
    assert_eq!(
        outcome.cloud,
        Some(Decoration {
            id: 4,
            sprite: Sprite::Cloud(3),
            x: 2400,
            y: 12,
            distance: 0,
            scale: 250,
            speed: -500,
        })
    );
    assert_eq!(
        outcome.pipe,
        Some(PipeGroup { id: 5, x: 1450, y: -7, speed: -300, sensor: GapSensor { counted: false } })
    );
    assert_eq!(game.decoration(1), outcome.cloud);
    assert_eq!(game.pipe(0), outcome.pipe);
    assert_eq!(game.clouds_spawn().timer.elapsed, 1_000_000);
    assert_eq!(game.pipes_spawn().timer.elapsed, 0);
}
