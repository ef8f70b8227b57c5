use computercraft_simulator::blocks;
use computercraft_simulator::{
    Direction, ItemId, Position, Turtle, TurtleKind, TurtleMoveError, TurtleSide, World,
};

#[test]
fn turtle_test_direction_turns() {
    let dir = Direction::North;
    let dir = dir.turn_right();
    assert_eq!(dir, Direction::East);
    let dir = dir.turn_right();
    assert_eq!(dir, Direction::South);
    let dir = dir.turn_left();
    assert_eq!(dir, Direction::East);
}

#[test]
fn turtle_test_position_movement() {
    let pos = Position::new(0, 0, 0);
    let forward = pos.forward(Direction::North);
    assert_eq!(forward, Position::new(0, 0, -1));

    let up = pos.up();
    assert_eq!(up, Position::new(0, 1, 0));
}

#[test]
fn turtle_test_turtle_basic_movement() {
    let world = World::new();
    let mut turtle = Turtle::new(Position::new(0, 0, 0), Direction::North, TurtleKind::Normal);

    turtle.forward(&world).unwrap();
    assert_eq!(turtle.position, Position::new(0, 0, -1));

    turtle.turn_right();
    assert_eq!(turtle.facing, Direction::East);

    turtle.forward(&world).unwrap();
    assert_eq!(turtle.position, Position::new(1, 0, -1));
}

#[test]
fn turtle_test_turtle_blocked_movement() {
    let mut world = World::new();
    world.set_block(Position::new(0, 0, -1), blocks::stone());

    let mut turtle = Turtle::new(Position::new(0, 0, 0), Direction::North, TurtleKind::Normal);

    let result = turtle.forward(&world);
    assert_eq!(result, Err(TurtleMoveError::Obstructed));
    assert_eq!(turtle.position, Position::new(0, 0, 0));
}

#[test]
fn turtle_test_turtle_fuel_consumption() {
    let world = World::new();
    let mut turtle = Turtle::new(Position::new(0, 0, 0), Direction::North, TurtleKind::Normal);

    let initial_fuel = turtle.get_fuel_level();
    turtle.forward(&world).unwrap();
    assert_eq!(turtle.get_fuel_level(), initial_fuel - 1);
}

#[test]
fn turtle_test_turtle_out_of_fuel() {
    let world = World::new();
    let mut turtle = Turtle::new(Position::new(0, 0, 0), Direction::North, TurtleKind::Normal);
    turtle.fuel = 0;

    let result = turtle.forward(&world);
    assert_eq!(result, Err(TurtleMoveError::OutOfFuel));
}

#[test]
fn turtle_test_turtle_dig() {
    let mut world = World::new();
    world.set_block(Position::new(0, 0, -1), blocks::stone());

    let mut turtle = Turtle::new(Position::new(0, 0, 0), Direction::North, TurtleKind::Normal);
    turtle.set_upgrade(
        TurtleSide::Right,
        Some(ItemId::new_static("minecraft:diamond_pickaxe")),
    );

    assert!(turtle.detect(&world));

    turtle.dig_forward(TurtleSide::Right, &mut world).unwrap();
    assert_eq!(world.get_block(Position::new(0, 0, -1)), blocks::air());
    assert!(!turtle.detect(&world));
}
