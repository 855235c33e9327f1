use flappy_sim::flappy::animate_flappy;
use flappy_sim::flappy::despawn_flappy;
use flappy_sim::flappy::in_game_control;
use flappy_sim::flappy::spawn_flappy;
use flappy_sim::flappy::Flappy;
use flappy_sim::flappy::CLIMB_ROTATION;
use flappy_sim::flappy::DIVE_ROTATION;
use flappy_sim::flappy::FLAPPY_SIZE;
use flappy_sim::flappy::JUMP_IMPULSE;
use flappy_sim::geometry::Vec2;
use flappy_sim::main_menu::wait_for_interaction_to_start;
use flappy_sim::ratio::proportional;
use flappy_sim::AppState;

#[test]
fn actor_spawns_at_rest_at_the_origin() {
    let flappy = spawn_flappy(7);
    assert_eq!(
        flappy,
        Flappy {
            id: 7,
            translation: Vec2 { x: 0, y: 0 },
            velocity: Vec2 { x: 0, y: 0 },
            impulse: Vec2 { x: 0, y: 0 },
            rotation: 0,
            gravity_scale: 25,
        }
    );
    assert_eq!(FLAPPY_SIZE, 100);
}

#[test]
fn jump_cancels_velocity_and_pushes_up() {
    let mut flappy = spawn_flappy(1);
    flappy.velocity = Vec2 { x: 3, y: -420 };
    flappy.rotation = -45_000;
    let request = in_game_control(&mut flappy, true, false);
    assert_eq!(request, None);
    assert_eq!(flappy.velocity, Vec2 { x: 0, y: 0 });
    assert_eq!(flappy.impulse, Vec2 { x: 0, y: 800 });
    assert_eq!(flappy.impulse.y, JUMP_IMPULSE);
    assert_eq!(flappy.rotation, 60_000);
    assert_eq!(flappy.rotation, CLIMB_ROTATION);
}

#[test]
fn no_press_leaves_the_actor_alone() {
    let mut flappy = spawn_flappy(1);
    flappy.velocity = Vec2 { x: 0, y: -420 };
    let before = flappy;
    let request = in_game_control(&mut flappy, false, false);
    assert_eq!(request, None);
    assert_eq!(flappy, before);
}

#[test]
fn cancel_asks_for_game_start() {
    let mut flappy = spawn_flappy(1);
    let before = flappy;
    assert_eq!(in_game_control(&mut flappy, false, true), Some(AppState::GameStart));
    assert_eq!(flappy, before);
    assert_eq!(in_game_control(&mut flappy, true, true), Some(AppState::GameStart));
    assert_eq!(flappy.rotation, 60_000);
}

#[test]
fn primary_action_asks_for_the_game() {
    assert_eq!(wait_for_interaction_to_start(true), Some(AppState::InGame));
    assert_eq!(wait_for_interaction_to_start(false), None);
}

#[test]
fn falling_actor_turns_down_faster_than_rising_actor() {
    let mut falling = spawn_flappy(1);
    falling.velocity = Vec2 { x: 0, y: -1 };
    animate_flappy(&mut falling);
    assert_eq!(falling.rotation, -3_600);

    let mut resting = spawn_flappy(1);
    animate_flappy(&mut resting);
    assert_eq!(resting.rotation, -3_600);

    let mut rising = spawn_flappy(1);
    rising.velocity = Vec2 { x: 0, y: 1 };
    animate_flappy(&mut rising);
    assert_eq!(rising.rotation, -1_800);
}

#[test]
fn tilt_after_a_jump() {
    let mut flappy = spawn_flappy(1);
    in_game_control(&mut flappy, true, false);
    animate_flappy(&mut flappy);
    assert_eq!(flappy.rotation, 60_000 - 6_000);
    flappy.velocity = Vec2 { x: 0, y: 500 };
    animate_flappy(&mut flappy);
    assert_eq!(flappy.rotation, 54_000 - 2_880);
}

#[test]
fn tilt_reaches_the_dive_and_stops_there() {
    let mut flappy = spawn_flappy(1);
    let mut steps = 0;
    while flappy.rotation != DIVE_ROTATION {
        let before = flappy.rotation;
        animate_flappy(&mut flappy);
        assert!(flappy.rotation < before);
        assert!(flappy.rotation >= DIVE_ROTATION);
        steps += 1;
        assert!(steps < 1_000);
    }
    animate_flappy(&mut flappy);
    assert_eq!(flappy.rotation, -90_000);
}

#[test]
fn tilt_from_below_the_dive_comes_back_up() {
    let mut flappy = spawn_flappy(1);
    flappy.rotation = -100_000;
    animate_flappy(&mut flappy);
    assert_eq!(flappy.rotation, -99_600);
    flappy.rotation = i32::MIN;
    animate_flappy(&mut flappy);
    assert!(flappy.rotation > i32::MIN);
    flappy.rotation = i32::MAX;
    animate_flappy(&mut flappy);
    assert!(flappy.rotation < i32::MAX);
}

#[test]
fn despawn_takes_the_actor_away() {
    let mut slot = Some(spawn_flappy(9));
    assert_eq!(despawn_flappy(&mut slot), vec![9]);
    assert_eq!(slot, None);
    assert_eq!(despawn_flappy(&mut slot), Vec::<u32>::new());
    assert_eq!(slot, None);
}

#[test]
fn proportions_round_down() {
    assert_eq!(proportional(1, 10, 3), 3);
    assert_eq!(proportional(2, 10, 3), 6);
    assert_eq!(proportional(1, -10, 3), -4);
    assert_eq!(proportional(2, -10, 3), -7);
    assert_eq!(proportional(0, -10, 3), 0);
    assert_eq!(proportional(3, -10, 3), -10);
    assert_eq!(proportional(3, 10, 3), 10);
    assert_eq!(proportional(i64::MAX, i64::MIN, i64::MAX), i64::MIN);
    assert_eq!(proportional(i64::MAX, i64::MAX, i64::MAX), i64::MAX);
    assert_eq!(proportional(1, -1, 2), -1);
    assert_eq!(proportional(1, 1, 2), 0);
}
