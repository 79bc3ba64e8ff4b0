use proximity_alert::input::{Action, InputSnapshot};
use proximity_alert::player::{
    integrate, reaches, travel, Player, PlayerBundle, PlayerPlugin, DEFAULT_SPEED,
};
use proximity_alert::vector::{Direction, Offset, Planar, Position, DIAGONAL, DIRECTION_UNIT};

const AXIS: i32 = DIRECTION_UNIT;

fn squared_distance(a: Position, b: Position) -> i128 {
    let dx = a.x as i128 - b.x as i128;
    let dy = a.y as i128 - b.y as i128;
    dx * dx + dy * dy
}

#[test]
fn travel_along_an_axis_is_speed_times_time() {
    assert_eq!(travel(AXIS, 1_000_000, 16_000), 16_000);
    assert_eq!(travel(-AXIS, 1_000_000, 16_000), -16_000);
    assert_eq!(travel(AXIS, 3_000_000, 500_000), 1_500_000);
    assert_eq!(travel(0, 3_000_000, 500_000), 0);
}

#[test]
fn travel_rounds_toward_zero() {
    assert_eq!(travel(DIAGONAL, 1_000_000, 16_000), 11_313);
    assert_eq!(travel(-DIAGONAL, 1_000_000, 16_000), -11_313);
    assert_eq!(travel(DIAGONAL, 1_000_000, 1_000_000), 707_106);
    assert_eq!(travel(AXIS, 1, 999_999), 0);
    assert_eq!(travel(-AXIS, 1, 999_999), 0);
    assert_eq!(travel(AXIS, 1, 1_000_000), 1);
}

#[test]
fn travel_at_the_limits_of_its_arguments() {
    let budget = (u32::MAX as i128) * (u32::MAX as i128);
    assert_eq!(
        travel(i32::MIN, u32::MAX, u32::MAX) as i128,
        -((1i128 << 31) * budget / 1_000_000_000_000_000)
    );
    assert_eq!(
        travel(i32::MAX, u32::MAX, u32::MAX) as i128,
        (i32::MAX as i128) * budget / 1_000_000_000_000_000
    );
}

#[test]
fn no_time_no_movement() {
    let start = Position::new(123, -456, 789);
    assert_eq!(integrate(start, Direction { x: AXIS, y: 0 }, 1_000_000, 0), start);
    assert_eq!(integrate(start, Direction { x: DIAGONAL, y: -DIAGONAL }, u32::MAX, 0), start);
    assert_eq!(integrate(start, Direction::zero(), 1_000_000, 1_000_000), start);
    assert_eq!(integrate(start, Direction { x: AXIS, y: 0 }, 0, 1_000_000), start);
}

#[test]
fn integrate_adds_the_displacement() {
    let start = Position::new(1_000_000, 2_000_000, 3_000_000);
    assert_eq!(
        integrate(start, Direction { x: AXIS, y: 0 }, 2_000_000, 250_000),
        Position::new(1_500_000, 2_000_000, 3_000_000)
    );
    assert_eq!(
        integrate(start, Direction { x: -DIAGONAL, y: DIAGONAL }, 1_000_000, 1_000_000),
        Position::new(1_000_000 - 707_106, 2_000_000 + 707_106, 3_000_000)
    );
}

#[test]
fn step_stays_within_the_budget_and_uses_it() {
    let start = Position::new(-5, 7, 0);
    let speeds = [1u32, 999_999, 1_000_000, 7_654_321, u32::MAX];
    let times = [0u32, 1, 16_667, 1_000_000, 33_333_333, u32::MAX];
    let directions = [
        Direction { x: AXIS, y: 0 },
        Direction { x: 0, y: -AXIS },
        Direction { x: DIAGONAL, y: DIAGONAL },
        Direction { x: -DIAGONAL, y: DIAGONAL },
        Direction { x: 600_000_000, y: -800_000_000 },
    ];
    let unit = DIRECTION_UNIT as f64;
    for speed in speeds {
        for time in times {
            for direction in directions {
                assert!(reaches(start, direction, speed, time));
                let end = integrate(start, direction, speed, time);
                let budget = speed as f64 * time as f64 / 1_000_000.0;
                let dx = (end.x - start.x) as f64;
                let dy = (end.y - start.y) as f64;
                let length = (dx * dx + dy * dy).sqrt();
                assert!(length <= budget * (1.0 + 1e-12));
                let longer = ((dx.abs() + 1.0).powi(2) + (dy.abs() + 1.0).powi(2)).sqrt();
                assert!(longer > budget * (unit - 1.0) / unit * (1.0 - 1e-12));
                assert_eq!(end.z, start.z);
                if (speed as u64) * (time as u64) < 1 << 20 {
                    let exact = speed as i128 * time as i128;
                    assert!(squared_distance(end, start) * 1_000_000_000_000 <= exact * exact);
                }
            }
        }
    }
    let still = integrate(start, Direction { x: 0, y: 0 }, 1_000_000, 1_000_000);
    assert_eq!(still, start);
}

#[test]
fn step_beyond_the_coordinates_is_out_of_reach() {
    let start = Position::new(i64::MAX - 10, i64::MIN + 10, 5);
    assert!(!reaches(start, Direction { x: DIAGONAL, y: -DIAGONAL }, 1_000_000, 1_000_000));
    assert!(!reaches(start, Direction { x: AXIS, y: 0 }, 1_000_000, 1_000_000));
    assert!(!reaches(start, Direction { x: 0, y: -AXIS }, 1_000_000, 1_000_000));
    assert!(reaches(start, Direction { x: AXIS, y: 0 }, 10, 1_000_000));
    assert!(!reaches(start, Direction { x: AXIS, y: 0 }, 11, 1_000_000));
    assert!(reaches(start, Direction { x: -AXIS, y: AXIS }, u32::MAX, u32::MAX));
    assert_eq!(
        integrate(start, Direction { x: AXIS, y: -AXIS }, 10, 1_000_000),
        Position::new(i64::MAX, i64::MIN, 5)
    );
    let safe = Position::new(1 << 62, -(1 << 62), 0);
    assert!(reaches(safe, Direction { x: i32::MAX, y: i32::MIN }, u32::MAX, u32::MAX));
}

#[test]
fn new_player_stands_unturned() {
    let bundle = PlayerBundle::new(Position::new(1, 2, 3));
    assert_eq!(
        bundle.player,
        Player { position: Position::new(1, 2, 3), heading: Offset { x: -1_000_000, y: 0 } }
    );
    assert_eq!(bundle.action_state, InputSnapshot::empty());
}

#[test]
fn default_speed_is_one_unit_per_second() {
    assert_eq!(PlayerPlugin::default().speed, 1_000_000);
    assert_eq!(DEFAULT_SPEED, 1_000_000);
    assert_eq!(PlayerPlugin::new(42).speed, 42);
}

#[test]
fn move_player_moves_and_turns() {
    let plugin = PlayerPlugin::default();
    let mut bundle = PlayerBundle::new(Position::origin());
    bundle.action_state = InputSnapshot::empty().with(Action::Up).with(Action::Right);
    assert!(plugin.can_move(&bundle, 2_000_000));
    plugin.move_player(&mut bundle, Planar::new(3_000_000, -4_000_000), 2_000_000);
    assert_eq!(bundle.player.position, Position::new(1_414_213, -1_414_213, 0));
    assert_eq!(
        bundle.player.heading,
        Offset { x: 3_000_000 - 1_414_213, y: -4_000_000 + 1_414_213 }
    );
}

#[test]
fn move_player_without_input_only_turns() {
    let plugin = PlayerPlugin::new(5_000_000);
    let mut bundle = PlayerBundle::new(Position::new(10, 20, 30));
    plugin.move_player(&mut bundle, Planar::new(110, 220), 1_000_000);
    assert_eq!(bundle.player.position, Position::new(10, 20, 30));
    assert_eq!(bundle.player.heading, Offset { x: 100, y: 200 });
    bundle.action_state = InputSnapshot::empty().with(Action::Left).with(Action::Right);
    plugin.move_player(&mut bundle, Planar::new(10, 20), 1_000_000);
    assert_eq!(bundle.player.position, Position::new(10, 20, 30));
    assert_eq!(bundle.player.heading, Offset { x: 0, y: 0 });
}

#[test]
fn heading_spans_all_coordinates() {
    let plugin = PlayerPlugin::default();
    let mut bundle = PlayerBundle::new(Position::new(i64::MAX, i64::MIN, 0));
    assert!(plugin.can_move(&bundle, 0));
    plugin.move_player(&mut bundle, Planar::new(i64::MIN, i64::MAX), 0);
    assert_eq!(
        bundle.player.heading,
        Offset { x: -(u64::MAX as i128), y: u64::MAX as i128 }
    );
    bundle.action_state = InputSnapshot::empty().with(Action::Up);
    assert!(!plugin.can_move(&bundle, 1_000_000));
    bundle.action_state = InputSnapshot::empty().with(Action::Down);
    assert!(plugin.can_move(&bundle, 1_000_000));
}
