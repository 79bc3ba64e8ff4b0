use proximity_alert::enemy::{AlertEvent, AlertIcon, AlertState, EnemyBundle};
use proximity_alert::fps_counter::{FpsPlugin, Visibility};
use proximity_alert::game::{cleanup, GamePlugin, World};
use proximity_alert::input::{Action, InputSnapshot};
use proximity_alert::menu::{AppState, Interaction, MenuButtonAction, MenuCommand, MenuPlugin};
use proximity_alert::player::PlayerBundle;
use proximity_alert::vector::{Offset, Planar, Position};

fn game() -> GamePlugin {
    GamePlugin::new(1_000_000, 1_000_000, 2_000_000).unwrap()
}

fn synchronized(world: &World) -> bool {
    world
        .enemies
        .iter()
        .all(|enemy| enemy.has_alert_icon() == (enemy.state == AlertState::Alerted))
}

#[test]
fn game_rejects_inverted_thresholds() {
    assert!(GamePlugin::new(1_000_000, 2_000_000, 1_000_000).is_none());
    assert!(GamePlugin::new(1_000_000, 5, 5).is_none());
    let game = GamePlugin::new(3, 4, 5).unwrap();
    assert_eq!(game.player.speed, 3);
    assert_eq!(game.enemy.enter(), 4);
    assert_eq!(game.enemy.exit(), 5);
}

#[test]
fn setup_places_camera_player_and_enemy() {
    let world = game().setup();
    assert_eq!(world.camera, Position::new(-10_000_000, 5_000_000, 10_000_000));
    assert_eq!(world.player, Some(PlayerBundle::new(Position::origin())));
    assert_eq!(world.enemies, vec![EnemyBundle::new(Position::new(2_000_000, 2_000_000, 0))]);
    assert_eq!(world.indicator_count(), 0);
}

#[test]
fn approach_raises_the_alert_once() {
    let game = game();
    let mut world = World::new(Position::new(0, -5_000_000, 5_000_000));
    world.player = Some(PlayerBundle::new(Position::new(5_000_000, 0, 0)));
    world.spawn_enemy(Position::origin());
    let input = InputSnapshot::empty().with(Action::Down);

    let mut raised = 0;
    let mut created = 0;
    let mut raised_at = None;
    for frame in 1..=10 {
        let before = world.indicator_count();
        let events = game.update(&mut world, input, Planar::new(0, 0), 410_000);
        assert_eq!(events.len(), 1);
        if events[0] == Some(AlertEvent::Raised) {
            raised += 1;
            raised_at = Some(frame);
        } else {
            assert_eq!(events[0], None);
        }
        created += world.indicator_count() - before;
        assert!(synchronized(&world));
        let x = world.player.unwrap().player.position.x;
        assert_eq!(x, 5_000_000 - 410_000 * frame);
        assert_eq!(world.enemies[0].state == AlertState::Alerted, x < 1_000_000);
    }
    assert_eq!(world.player.unwrap().player.position, Position::new(900_000, 0, 0));
    assert_eq!(raised, 1);
    assert_eq!(created, 1);
    assert_eq!(raised_at, Some(10));
    assert_eq!(world.indicator_count(), 1);
}

#[test]
fn frame_moves_before_it_measures() {
    let game = game();
    let mut world = World::new(Position::origin());
    world.player = Some(PlayerBundle::new(Position::new(1_200_000, 0, 0)));
    world.spawn_enemy(Position::origin());
    let events = game.update(
        &mut world,
        InputSnapshot::empty().with(Action::Down),
        Planar::new(0, 0),
        500_000,
    );
    assert_eq!(world.player.unwrap().player.position, Position::new(700_000, 0, 0));
    assert_eq!(events, vec![Some(AlertEvent::Raised)]);
}

#[test]
fn frame_stores_the_input_and_turns_the_player() {
    let game = game();
    let mut world = game.setup();
    let input = InputSnapshot::empty().with(Action::Left);
    game.update(&mut world, input, Planar::new(1_000_000, 1_000_000), 1_000_000);
    let bundle = world.player.unwrap();
    assert_eq!(bundle.action_state, input);
    assert_eq!(bundle.player.position, Position::new(0, 1_000_000, 0));
    assert_eq!(bundle.player.heading, Offset { x: 1_000_000, y: 0 });
}

#[test]
fn every_frame_keeps_markers_in_step() {
    let game = game();
    let mut world = World::new(Position::new(-10_000_000, 5_000_000, 10_000_000));
    world.player = Some(PlayerBundle::new(Position::origin()));
    world.spawn_enemy(Position::new(1_500_000, 0, 0));
    world.spawn_enemy(Position::new(3_000_000, 0, 0));
    world.spawn_enemy(Position::new(0, 600_000, 0));
    world.spawn_enemy(Position::new(4_000_000, 1_000_000, 0));
    let there = InputSnapshot::empty().with(Action::Up);
    let back = InputSnapshot::empty().with(Action::Down);
    let mut raised = 0;
    let mut cleared = 0;
    for frame in 0..40 {
        let input = if frame < 20 { there } else { back };
        let alerted_before: Vec<bool> =
            world.enemies.iter().map(|enemy| enemy.state == AlertState::Alerted).collect();
        let events = game.update(&mut world, input, Planar::new(0, 0), 250_000);
        assert_eq!(events.len(), 4);
        assert!(synchronized(&world));
        for (index, event) in events.iter().enumerate() {
            let alerted = world.enemies[index].state == AlertState::Alerted;
            match event {
                Some(AlertEvent::Raised) => {
                    assert!(!alerted_before[index] && alerted);
                    raised += 1;
                }
                Some(AlertEvent::Cleared) => {
                    assert!(alerted_before[index] && !alerted);
                    cleared += 1;
                }
                None => assert_eq!(alerted_before[index], alerted),
            }
        }
        let alerted = world.enemies.iter().filter(|e| e.state == AlertState::Alerted).count();
        assert_eq!(world.indicator_count(), alerted);
    }
    assert_eq!(world.player.unwrap().player.position, Position::origin());
    assert!(raised >= 4);
    assert_eq!(raised - cleared, world.indicator_count());
}

#[test]
fn new_markers_face_the_camera_in_the_same_frame() {
    let game = game();
    let mut world = World::new(Position::new(-10_000_000, 5_000_000, 10_000_000));
    world.player = Some(PlayerBundle::new(Position::new(2_000_000, 2_000_000, 0)));
    world.spawn_enemy(Position::new(2_000_000, 2_000_000, 0));
    let events = game.update(&mut world, InputSnapshot::empty(), Planar::new(0, 0), 16_000);
    assert_eq!(events, vec![Some(AlertEvent::Raised)]);
    assert_eq!(
        world.enemies[0],
        EnemyBundle {
            position: Position::new(2_000_000, 2_000_000, 0),
            state: AlertState::Alerted,
            icon: Some(AlertIcon {
                height: 2_500_000,
                facing: Offset { x: 3_000_000, y: 12_000_000 },
            }),
        }
    );
}

#[test]
fn missing_player_skips_the_state_machine() {
    let game = game();
    let mut world = World::new(Position::new(0, -1_000_000, 0));
    world.spawn_enemy(Position::origin());
    world.spawn_enemy(Position::new(1, 1, 1));
    world.enemies[1].state = AlertState::Alerted;
    world.enemies[1].add_alert_icon();
    let events = game.update(
        &mut world,
        InputSnapshot::empty().with(Action::Up),
        Planar::new(0, 0),
        1_000_000,
    );
    assert_eq!(events, vec![None, None]);
    assert_eq!(world.player, None);
    assert_eq!(world.enemies[0], EnemyBundle::new(Position::origin()));
    assert_eq!(world.enemies[1].state, AlertState::Alerted);
    assert_eq!(
        world.enemies[1].icon,
        Some(AlertIcon { height: 2_500_000, facing: Offset { x: -1_000_001, y: 1 } })
    );
}

#[test]
fn empty_world_has_quiet_frames() {
    let game = game();
    let mut world = World::new(Position::new(1, 2, 3));
    let events = game.update(&mut world, InputSnapshot::empty(), Planar::new(0, 0), 1);
    assert!(events.is_empty());
    assert_eq!(world.camera, Position::new(1, 2, 3));
    assert_eq!(world.player, None);
    assert!(world.enemies.is_empty());
}

#[test]
fn despawn_takes_the_marker_along() {
    let game = game();
    let mut world = World::new(Position::origin());
    world.player = Some(PlayerBundle::new(Position::origin()));
    let near = world.spawn_enemy(Position::new(100, 0, 0));
    let far = world.spawn_enemy(Position::new(9_000_000, 0, 0));
    assert_eq!((near, far), (0, 1));
    game.update(&mut world, InputSnapshot::empty(), Planar::new(0, 0), 0);
    assert_eq!(world.indicator_count(), 1);
    let removed = world.despawn_enemy(near).unwrap();
    assert_eq!(removed.state, AlertState::Alerted);
    assert!(removed.has_alert_icon());
    assert_eq!(world.indicator_count(), 0);
    assert_eq!(world.enemies, vec![EnemyBundle::new(Position::new(9_000_000, 0, 0))]);
    assert_eq!(world.despawn_enemy(5), None);
    assert_eq!(world.enemies.len(), 1);
}

#[test]
fn cleanup_leaves_only_the_camera() {
    let game = game();
    let mut world = game.setup();
    world.spawn_enemy(Position::origin());
    game.update(&mut world, InputSnapshot::empty(), Planar::new(0, 0), 0);
    assert_eq!(world.indicator_count(), 1);
    cleanup(&mut world);
    assert_eq!(world.camera, Position::new(-10_000_000, 5_000_000, 10_000_000));
    assert_eq!(world.player, None);
    assert!(world.enemies.is_empty());
    assert_eq!(world.indicator_count(), 0);
}

#[test]
fn pressed_buttons_command_the_application() {
    let menu = MenuPlugin;
    assert_eq!(
        menu.action(Interaction::Pressed, MenuButtonAction::Play),
        Some(MenuCommand::Enter(AppState::Game))
    );
    assert_eq!(menu.action(Interaction::Pressed, MenuButtonAction::Quit), Some(MenuCommand::Exit));
    assert_eq!(menu.action(Interaction::Hovered, MenuButtonAction::Play), None);
    assert_eq!(menu.action(Interaction::Hovered, MenuButtonAction::Quit), None);
    assert_eq!(menu.action(Interaction::Nothing, MenuButtonAction::Play), None);
    assert_eq!(menu.action(Interaction::Nothing, MenuButtonAction::Quit), None);
}

#[test]
fn commands_lead_to_the_next_screen() {
    let menu = MenuPlugin;
    assert_eq!(AppState::default(), AppState::Menu);
    assert_eq!(
        menu.next_state(AppState::Menu, Some(MenuCommand::Enter(AppState::Game))),
        Some(AppState::Game)
    );
    assert_eq!(menu.next_state(AppState::Menu, Some(MenuCommand::Exit)), None);
    assert_eq!(menu.next_state(AppState::Menu, None), Some(AppState::Menu));
    assert_eq!(menu.next_state(AppState::Game, None), Some(AppState::Game));
}

#[test]
fn toggle_key_flips_the_overlay() {
    let overlay = FpsPlugin;
    assert_eq!(overlay.toggle(true, Visibility::Hidden), Visibility::Visible);
    assert_eq!(overlay.toggle(true, Visibility::Visible), Visibility::Hidden);
    assert_eq!(overlay.toggle(true, Visibility::Inherited), Visibility::Hidden);
    assert_eq!(overlay.toggle(false, Visibility::Hidden), Visibility::Hidden);
    assert_eq!(overlay.toggle(false, Visibility::Visible), Visibility::Visible);
    assert_eq!(overlay.toggle(false, Visibility::Inherited), Visibility::Inherited);
}

#[test]
fn frame_at_the_edge_of_the_coordinates_is_announced() {
    let game = GamePlugin::new(u32::MAX, 1_000_000, 2_000_000).unwrap();
    let mut world = World::new(Position::origin());
    world.player = Some(PlayerBundle::new(Position::new(i64::MAX - 10, 0, 0)));
    let up = InputSnapshot::empty().with(Action::Up);
    let down = InputSnapshot::empty().with(Action::Down);
    assert!(!game.can_update(&world, up, 1_000_000));
    assert!(game.can_update(&world, up, 0));
    assert!(game.can_update(&world, down, 1_000_000));
    assert!(game.can_update(&world, InputSnapshot::empty(), u32::MAX));
    game.update(&mut world, down, Planar::new(0, 0), 1_000_000);
    assert_eq!(
        world.player.unwrap().player.position,
        Position::new(i64::MAX - 10 - u32::MAX as i64, 0, 0)
    );
    let before = world.player;
    assert_eq!(game.try_update(&mut world, up, Planar::new(0, 0), u32::MAX), None);
    assert_eq!(world.player, before);
    assert_eq!(game.try_update(&mut world, up, Planar::new(0, 0), 0), Some(vec![]));
    world.player = None;
    assert!(game.can_update(&world, up, u32::MAX));
    world.spawn_enemy(Position::origin());
    assert_eq!(game.try_update(&mut world, up, Planar::new(0, 0), u32::MAX), Some(vec![None]));
}
