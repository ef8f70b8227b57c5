use computercraft_simulator::simple::{Block, Direction, Position, Turtle, TurtleType, World};

#[test]
fn lib_test_direction_turns() {
    let mut dir = Direction::North;
    dir = dir.turn_right();
    assert_eq!(dir, Direction::East);
    dir = dir.turn_right();
    assert_eq!(dir, Direction::South);
    dir = dir.turn_left();
    assert_eq!(dir, Direction::East);
}

#[test]
fn lib_test_position_movement() {
    let pos = Position::new(0, 0, 0);
    let forward = pos.forward(Direction::North);
    assert_eq!(forward, Position::new(0, 0, -1));

    let up = pos.up();
    assert_eq!(up, Position::new(0, 1, 0));
}

#[test]
fn lib_test_turtle_basic_movement() {
    let mut world = World::new();
    let mut turtle = Turtle::new(Position::new(0, 0, 0), Direction::North, TurtleType::Normal);

    let (success, _) = turtle.forward(&mut world);
    assert!(success);
    assert_eq!(turtle.position, Position::new(0, 0, -1));

    let (success, _) = turtle.turn_right();
    assert!(success);
    assert_eq!(turtle.direction, Direction::East);

    let (success, _) = turtle.forward(&mut world);
    assert!(success);
    assert_eq!(turtle.position, Position::new(1, 0, -1));
}

#[test]
fn lib_test_turtle_blocked_movement() {
    let mut world = World::new();
    world.set_block(Position::new(0, 0, -1), Block::Stone);

    let mut turtle = Turtle::new(Position::new(0, 0, 0), Direction::North, TurtleType::Normal);

    let (success, error) = turtle.forward(&mut world);
    assert!(!success);
    assert!(error.is_some());
    assert_eq!(turtle.position, Position::new(0, 0, 0));
}

#[test]
fn lib_test_turtle_fuel_consumption() {
    let mut world = World::new();
    let mut turtle = Turtle::new(Position::new(0, 0, 0), Direction::North, TurtleType::Normal);

    let initial_fuel = turtle.get_fuel_level();
    turtle.forward(&mut world);
    assert_eq!(turtle.get_fuel_level(), initial_fuel - 1);
}

#[test]
fn lib_test_turtle_out_of_fuel() {
    let mut world = World::new();
    let mut turtle = Turtle::new(Position::new(0, 0, 0), Direction::North, TurtleType::Normal);
    turtle.fuel = 0;

    let (success, error) = turtle.forward(&mut world);
    assert!(!success);
    assert_eq!(error, Some("Out of fuel".to_string()));
}

#[test]
fn lib_test_turtle_dig() {
    let mut world = World::new();
    world.set_block(Position::new(0, 0, -1), Block::Stone);

    let mut turtle = Turtle::new(Position::new(0, 0, 0), Direction::North, TurtleType::Normal);

    assert!(turtle.detect(&world));

    let (success, _) = turtle.dig(&mut world);
    assert!(success);
    assert_eq!(world.get_block(Position::new(0, 0, -1)), Block::Air);
    assert!(!turtle.detect(&world));
}

#[test]
fn simple_dig_refuses_air_and_bedrock() {
    let mut world = World::new();
    let mut turtle = Turtle::new(Position::new(0, 0, 0), Direction::North, TurtleType::Advanced);
    assert_eq!(turtle.dig(&mut world), (false, Some("Nothing to dig".to_string())));
    world.set_block(Position::new(0, 1, 0), Block::Bedrock);
    assert_eq!(turtle.dig_up(&mut world), (false, Some("Nothing to dig".to_string())));
    assert_eq!(world.get_block(Position::new(0, 1, 0)), Block::Bedrock);
    world.set_block(Position::new(0, -1, 0), Block::Dirt);
    assert_eq!(turtle.dig_down(&mut world), (true, None));
    assert_eq!(world.get_block(Position::new(0, -1, 0)), Block::Air);
}

#[test]
fn simple_vertical_moves_and_limits() {
    let mut world = World::default();
    let mut turtle = Turtle::new(Position::new(3, 4, 5), Direction::West, TurtleType::Advanced);
    assert_eq!(turtle.get_fuel_limit(), 100_000);
    assert_eq!(turtle.up(&mut world), (true, None));
    assert_eq!(turtle.position, Position::new(3, 5, 5));
    assert_eq!(turtle.down(&mut world), (true, None));
    assert_eq!(turtle.back(&mut world), (true, None));
    assert_eq!(turtle.position, Position::new(4, 4, 5));
    assert_eq!(turtle.get_fuel_level(), 99_997);
    world.set_block(Position::new(4, 3, 5), Block::Wood);
    assert_eq!(turtle.down(&mut world), (false, Some("Movement obstructed".to_string())));
    assert!(turtle.detect_down(&world));
    assert!(!turtle.detect_up(&world));
}

#[test]
fn simple_select_and_item_queries() {
    let mut turtle = Turtle::new(Position::new(0, 0, 0), Direction::North, TurtleType::Normal);
    assert_eq!(turtle.select(15), (true, None));
    assert_eq!(turtle.get_selected_slot(), 15);
    assert_eq!(turtle.select(16), (false, Some("Slot out of range".to_string())));
    assert_eq!(turtle.get_selected_slot(), 15);
    assert_eq!(turtle.get_item_count(None), 0);
    assert_eq!(turtle.get_item_space(None), 64);
    assert_eq!(turtle.get_item_count(Some(16)), 0);
    assert_eq!(turtle.get_item_space(Some(16)), 0);
}

#[test]
fn simple_block_kinds() {
    assert!(!Block::Air.is_solid());
    assert!(Block::Cobblestone.is_solid());
    assert!(!Block::Bedrock.is_diggable());
    assert!(Block::Stone.is_diggable());
    let mut world = World::new();
    world.set_block(Position::new(1, 1, 1), Block::Bedrock);
    assert!(world.is_solid(Position::new(1, 1, 1)));
    assert!(!world.can_dig(Position::new(1, 1, 1)));
    world.set_block(Position::new(1, 1, 1), Block::Air);
    assert!(!world.is_solid(Position::new(1, 1, 1)));
}
