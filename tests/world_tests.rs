use computercraft_simulator::dig_rules::DigRules;
use computercraft_simulator::{
    blocks, Block, BlockId, Direction, InteractDirection, ItemId, ItemStack, Position, Turtle,
    TurtleDigError, TurtleInspectError, TurtleKind, TurtleMoveError, TurtlePlaceError, TurtleSide,
    World,
};

fn origin_turtle(kind: TurtleKind) -> Turtle {
    Turtle::new(Position::new(0, 0, 0), Direction::North, kind)
}

#[test]
fn unset_positions_read_air_and_clearing_restores() {
    let mut world = World::new();
    let p = Position::new(-7, 300, 12);
    assert_eq!(world.get_block(p), blocks::air());
    assert!(!world.is_solid(p));
    world.set_block(p, blocks::stone());
    assert_eq!(world.get_block(p), blocks::stone());
    assert!(world.is_solid(p));
    assert!(world.can_dig(p));
    world.set_block(p, blocks::air());
    assert_eq!(world.get_block(p), blocks::air());
    assert!(!world.is_solid(p));
    assert!(!world.can_dig(p));
}

#[test]
fn far_apart_positions_are_independent() {
    let mut world = World::default();
    let a = Position::new(i32::MIN, i32::MAX, 0);
    let b = Position::new(i32::MAX, i32::MIN, 0);
    let c = Position::new(0, 0, -1);
    world.set_block(a, blocks::dirt());
    world.set_block(b, blocks::bedrock());
    assert_eq!(world.get_block(a), blocks::dirt());
    assert_eq!(world.get_block(b), blocks::bedrock());
    assert_eq!(world.get_block(c), blocks::air());
    assert!(!world.can_dig(b));
}

#[test]
fn turning_is_free_and_reversible() {
    for start in [Direction::North, Direction::South, Direction::East, Direction::West] {
        let mut turtle = Turtle::new(Position::new(1, 2, 3), start, TurtleKind::Normal);
        turtle.turn_right();
        turtle.turn_left();
        assert_eq!(turtle.facing, start);
        for _ in 0..4 {
            turtle.turn_right();
        }
        assert_eq!(turtle.facing, start);
        assert_eq!(turtle.get_fuel_level(), 20_000);
        assert_eq!(turtle.position_history, vec![Position::new(1, 2, 3)]);
    }
}

#[test]
fn offsets_of_each_facing() {
    assert_eq!(Direction::North.offset(), (0, -1));
    assert_eq!(Direction::South.offset(), (0, 1));
    assert_eq!(Direction::East.offset(), (1, 0));
    assert_eq!(Direction::West.offset(), (-1, 0));
    assert_eq!(Position::new(5, 5, 5).back(Direction::East), Position::new(4, 5, 5));
    assert_eq!(Position::new(5, 5, 5).down(), Position::new(5, 4, 5));
    assert!(!Position::new(i32::MAX, 0, 0).fits_forward(Direction::East));
    assert!(Position::new(i32::MAX, 0, 0).fits_back(Direction::East));
    assert!(!Position::new(0, i32::MAX, 0).fits_up());
    assert!(!Position::new(0, i32::MIN, 0).fits_down());
}

#[test]
fn forward_from_origin_example() {
    let world = World::new();
    let mut turtle = origin_turtle(TurtleKind::Normal);
    assert_eq!(turtle.forward(&world), Ok(()));
    assert_eq!(turtle.position, Position::new(0, 0, -1));
    assert_eq!(turtle.fuel, 19_999);
    assert_eq!(
        turtle.position_history,
        vec![Position::new(0, 0, 0), Position::new(0, 0, -1)]
    );
}

#[test]
fn failed_moves_change_nothing() {
    let mut world = World::new();
    world.set_block(Position::new(0, 0, -1), blocks::stone());
    let mut turtle = origin_turtle(TurtleKind::Normal);
    assert_eq!(turtle.forward(&world), Err(TurtleMoveError::Obstructed));
    assert_eq!(turtle.position, Position::new(0, 0, 0));
    assert_eq!(turtle.fuel, 20_000);
    assert_eq!(turtle.position_history, vec![Position::new(0, 0, 0)]);

    turtle.fuel = 0;
    assert_eq!(turtle.up(&world), Err(TurtleMoveError::OutOfFuel));
    assert_eq!(turtle.down(&world), Err(TurtleMoveError::OutOfFuel));
    assert_eq!(turtle.back(&world), Err(TurtleMoveError::OutOfFuel));
    assert_eq!(turtle.position, Position::new(0, 0, 0));
    assert_eq!(turtle.fuel, 0);
    assert_eq!(turtle.position_history, vec![Position::new(0, 0, 0)]);
}

#[test]
fn each_successful_move_logs_once() {
    let world = World::new();
    let mut turtle = origin_turtle(TurtleKind::Advanced);
    assert_eq!(turtle.get_fuel_limit(), 100_000);
    turtle.up(&world).unwrap();
    turtle.back(&world).unwrap();
    turtle.down(&world).unwrap();
    turtle.move_to(Position::new(9, 9, 9), &world).unwrap();
    assert_eq!(turtle.fuel, 99_996);
    assert_eq!(
        turtle.position_history,
        vec![
            Position::new(0, 0, 0),
            Position::new(0, 1, 0),
            Position::new(0, 1, 1),
            Position::new(0, 0, 1),
            Position::new(9, 9, 9),
        ]
    );
}

#[test]
fn dig_outcomes_by_block_and_tool() {
    let mut world = World::new();
    let mut turtle = origin_turtle(TurtleKind::Normal);
    let ahead = turtle.looking_at();
    assert_eq!(ahead, Position::new(0, 0, -1));

    assert_eq!(turtle.dig_forward(TurtleSide::Right, &mut world), Err(TurtleDigError::NothingToDig));

    world.set_block(ahead, blocks::bedrock());
    assert_eq!(turtle.dig_forward(TurtleSide::Right, &mut world), Err(TurtleDigError::UnbreakableBlock));

    world.set_block(ahead, blocks::stone());
    assert_eq!(turtle.dig_forward(TurtleSide::Right, &mut world), Err(TurtleDigError::NoTool));
    assert_eq!(world.get_block(ahead), blocks::stone());

    turtle.set_upgrade(TurtleSide::Left, Some(ItemId::new_static("minecraft:diamond_pickaxe")));
    assert_eq!(turtle.dig_forward(TurtleSide::Right, &mut world), Err(TurtleDigError::NoTool));
    assert_eq!(turtle.dig_forward(TurtleSide::Left, &mut world), Ok(()));
    assert_eq!(world.get_block(ahead), blocks::air());
}

#[test]
fn hoe_tills_dirt_and_grass_into_farmland() {
    let mut world = World::new();
    let mut turtle = origin_turtle(TurtleKind::Normal);
    turtle.set_upgrade(TurtleSide::Right, Some(ItemId::new("minecraft:diamond_hoe")));

    world.set_block(Position::new(0, -1, 0), blocks::dirt());
    assert_eq!(turtle.dig_down(TurtleSide::Right, &mut world), Ok(()));
    assert_eq!(world.get_block(Position::new(0, -1, 0)), blocks::farmland());

    world.set_block(Position::new(0, 1, 0), blocks::grass_block());
    assert_eq!(turtle.dig_up(TurtleSide::Right, &mut world), Ok(()));
    assert_eq!(world.get_block(Position::new(0, 1, 0)), blocks::farmland());

    world.set_block(Position::new(0, 0, -1), blocks::stone());
    assert_eq!(
        turtle.dig(InteractDirection::Forward, TurtleSide::Right, &mut world),
        Err(TurtleDigError::WrongTool)
    );
    assert_eq!(world.get_block(Position::new(0, 0, -1)), blocks::stone());
}

#[test]
fn custom_dig_rules_are_data() {
    let mut rules = DigRules::new();
    rules.add(
        ItemId::new("minecraft:shears"),
        BlockId::new("minecraft:oak_leaves"),
        BlockId::new("minecraft:moss_block"),
    );
    rules.add(
        ItemId::new("minecraft:shears"),
        BlockId::new("minecraft:oak_leaves"),
        BlockId::new("minecraft:stone"),
    );
    let mut world = World::new();
    let mut turtle = origin_turtle(TurtleKind::Normal);
    turtle.set_upgrade(TurtleSide::Right, Some(ItemId::new("minecraft:shears")));
    let ahead = Position::new(0, 0, -1);
    world.set_block(ahead, Block { id: BlockId::new("minecraft:oak_leaves") });
    assert_eq!(
        turtle.dig_with(InteractDirection::Forward, TurtleSide::Right, &mut world, &rules),
        Ok(())
    );
    assert_eq!(world.get_block(ahead).id.as_str(), "minecraft:moss_block");
    assert_eq!(
        turtle.dig_with(InteractDirection::Forward, TurtleSide::Right, &mut world, &rules),
        Err(TurtleDigError::WrongTool)
    );
    let hoe = ItemId::new("minecraft:diamond_hoe");
    let standard = DigRules::standard();
    assert_eq!(standard.transform(&hoe, &BlockId::stone()), None);
    assert_eq!(standard.transform(&hoe, &BlockId::dirt()), Some(BlockId::farmland()));
    assert_eq!(
        standard.transform(&ItemId::new("minecraft:iron_pickaxe"), &BlockId::stone()),
        Some(BlockId::air())
    );
}

#[test]
fn select_bounds() {
    let mut turtle = origin_turtle(TurtleKind::Normal);
    for s in 0..16 {
        assert_eq!(turtle.select(s), (true, None));
        assert_eq!(turtle.get_selected_slot(), s);
    }
    turtle.select(4);
    assert_eq!(turtle.select(16), (false, Some("Slot out of range".to_string())));
    assert_eq!(turtle.get_selected_slot(), 4);
}

#[test]
fn item_queries_on_slots() {
    let mut turtle = origin_turtle(TurtleKind::Normal);
    turtle.inventory[2] = Some(ItemStack::new(ItemId::new("minecraft:coal"), 10));
    turtle.inventory[3] = Some(ItemStack::new(ItemId::new("minecraft:coal"), 70));
    assert_eq!(turtle.get_item_count(Some(16)), 0);
    assert_eq!(turtle.get_item_space(Some(16)), 0);
    assert_eq!(turtle.get_item_count(Some(2)), 10);
    assert_eq!(turtle.get_item_space(Some(2)), 54);
    assert_eq!(turtle.get_item_space(Some(3)), 0);
    assert_eq!(turtle.get_item_count(None), 0);
    assert_eq!(turtle.get_item_space(None), 64);
    turtle.select(2);
    assert_eq!(turtle.get_item_count(None), 10);
    let detail = turtle.get_item_detail(2, false).unwrap();
    assert_eq!(detail.name, "minecraft:coal");
    assert_eq!(detail.count, 10);
    assert!(turtle.get_item_detail(0, true).is_none());
    assert!(turtle.get_item_detail(16, true).is_none());
}

#[test]
fn item_stack_arithmetic() {
    let stack = ItemStack::new(ItemId::new("minecraft:dirt"), 60);
    assert_eq!(stack.max_stack_size(), 64);
    assert_eq!(stack.space_left(), 4);
    assert!(!stack.is_empty());
    assert!(ItemStack::new(ItemId::new("minecraft:dirt"), 0).is_empty());
    assert_eq!(ItemStack::new(ItemId::new("minecraft:dirt"), 200).space_left(), 0);
    assert_eq!(stack.clone(), ItemStack::new(ItemId::new_static("minecraft:dirt"), 60));
}

#[test]
fn inspect_reports_block_identity() {
    let mut world = World::new();
    let turtle = origin_turtle(TurtleKind::Normal);
    assert_eq!(turtle.inspect_forward(&world).unwrap_err(), TurtleInspectError::NoBlock);
    world.set_block(Position::new(0, -1, 0), blocks::farmland());
    assert_eq!(turtle.inspect_down(&world).unwrap().name, "minecraft:farmland");
    assert!(turtle.inspect_up(&world).is_err());
    assert_eq!(TurtleInspectError::NoBlock.message(), "No block to inspect");
}

#[test]
fn place_consumes_selected_slot() {
    let mut world = World::new();
    let mut turtle = origin_turtle(TurtleKind::Normal);
    assert_eq!(turtle.place(InteractDirection::Forward, &mut world), Err(TurtlePlaceError::NoItems));
    turtle.inventory[0] = Some(ItemStack::new(ItemId::new("minecraft:cobblestone"), 2));
    assert_eq!(turtle.place(InteractDirection::Forward, &mut world), Ok(()));
    assert_eq!(world.get_block(Position::new(0, 0, -1)).id.as_str(), "minecraft:cobblestone");
    assert_eq!(turtle.get_item_count(Some(0)), 1);
    assert_eq!(turtle.place(InteractDirection::Forward, &mut world), Err(TurtlePlaceError::Obstructed));
    assert_eq!(turtle.get_item_count(Some(0)), 1);
    assert_eq!(turtle.place(InteractDirection::Up, &mut world), Ok(()));
    assert!(turtle.inventory[0].is_none());
    assert!(turtle.detect_up(&world));
    assert!(!turtle.detect_down(&world));
}

#[test]
fn error_messages() {
    assert_eq!(TurtleMoveError::Obstructed.message(), "Movement obstructed");
    assert_eq!(TurtleMoveError::OutOfFuel.message(), "Out of fuel");
    assert_eq!(TurtleDigError::NothingToDig.message(), "Nothing to dig here");
    assert_eq!(TurtleDigError::UnbreakableBlock.message(), "Cannot break unbreakable block");
    assert_eq!(TurtleDigError::NoTool.message(), "No tool to dig with");
    assert_eq!(TurtleDigError::WrongTool.message(), "Cannot break block with this tool");
    assert_eq!(TurtlePlaceError::NoItems.message(), "No items to place");
    assert_eq!(TurtlePlaceError::Obstructed.message(), "Cannot place block here");
    assert_eq!(TurtleKind::Normal.fuel_limit(), 20_000);
    assert_eq!(TurtleKind::Advanced.fuel_limit(), 100_000);
}
