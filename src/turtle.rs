//! The turtle: its record and the operations that act on it and the world.

use vstd::prelude::*;

use crate::block::{air_id, bedrock_id, Block, BlockId};
use crate::dig_rules::{dig_transform, standard_rules, DigRules};
use crate::item::{ItemId, ItemStack, MAX_STACK_SIZE};
use crate::world::{with_block, Direction, Position, World};

verus! {

/// Number of inventory slots.
pub const INVENTORY_SIZE: usize = 16;

/// Where an interaction is aimed, relative to the turtle.
#[derive(Debug, Clone, Copy, PartialEq, Eq, Structural)]
pub enum InteractDirection {
    Forward,
    Up,
    Down,
}

/// The model of turtle, which fixes its fuel capacity.
#[derive(Debug, Clone, Copy, PartialEq, Eq, Structural)]
pub enum TurtleKind {
    Normal,
    Advanced,
}

impl TurtleKind {
    pub open spec fn limit(self) -> u32 {
        match self {
            TurtleKind::Normal => 20_000,
            TurtleKind::Advanced => 100_000,
        }
    }

    pub fn fuel_limit(&self) -> (r: u32)
        ensures
            r == self.limit(),
    {
        match self {
            TurtleKind::Normal => 20_000,
            TurtleKind::Advanced => 100_000,
        }
    }
}

/// One of the two tool mounts.
#[derive(Debug, Clone, Copy, PartialEq, Eq, Structural)]
pub enum TurtleSide {
    Left,
    Right,
}

#[derive(Debug, Clone, Copy, PartialEq, Eq, Structural)]
pub enum TurtleMoveError {
    Obstructed,
    OutOfFuel,
}

impl TurtleMoveError {
    pub open spec fn text(self) -> Seq<char> {
        match self {
            TurtleMoveError::Obstructed => "Movement obstructed"@,
            TurtleMoveError::OutOfFuel => "Out of fuel"@,
        }
    }

    /// The reason shown to scripts.
    pub fn message(&self) -> (r: &'static str)
        ensures
            r@ == self.text(),
    {
        match self {
            TurtleMoveError::Obstructed => "Movement obstructed",
            TurtleMoveError::OutOfFuel => "Out of fuel",
        }
    }
}

/// What inspecting a block reports.
#[derive(Debug)]
pub struct InspectData {
    pub name: String,
}

#[derive(Debug, Clone, Copy, PartialEq, Eq, Structural)]
pub enum TurtleInspectError {
    NoBlock,
}

impl TurtleInspectError {
    pub open spec fn text(self) -> Seq<char> {
        match self {
            TurtleInspectError::NoBlock => "No block to inspect"@,
        }
    }

    /// The reason shown to scripts.
    pub fn message(&self) -> (r: &'static str)
        ensures
            r@ == self.text(),
    {
        match self {
            TurtleInspectError::NoBlock => "No block to inspect",
        }
    }
}

#[derive(Debug, Clone, Copy, PartialEq, Eq, Structural)]
pub enum TurtleDigError {
    NothingToDig,
    UnbreakableBlock,
    NoTool,
    WrongTool,
}

impl TurtleDigError {
    pub open spec fn text(self) -> Seq<char> {
        match self {
            TurtleDigError::NothingToDig => "Nothing to dig here"@,
            TurtleDigError::UnbreakableBlock => "Cannot break unbreakable block"@,
            TurtleDigError::NoTool => "No tool to dig with"@,
            TurtleDigError::WrongTool => "Cannot break block with this tool"@,
        }
    }

    /// The reason shown to scripts.
    pub fn message(&self) -> (r: &'static str)
        ensures
            r@ == self.text(),
    {
        match self {
            TurtleDigError::NothingToDig => "Nothing to dig here",
            TurtleDigError::UnbreakableBlock => "Cannot break unbreakable block",
            TurtleDigError::NoTool => "No tool to dig with",
            TurtleDigError::WrongTool => "Cannot break block with this tool",
        }
    }
}

#[derive(Debug, Clone, Copy, PartialEq, Eq, Structural)]
pub enum TurtlePlaceError {
    NoItems,
    Obstructed,
}

impl TurtlePlaceError {
    pub open spec fn text(self) -> Seq<char> {
        match self {
            TurtlePlaceError::NoItems => "No items to place"@,
            TurtlePlaceError::Obstructed => "Cannot place block here"@,
        }
    }

    /// The reason shown to scripts.
    pub fn message(&self) -> (r: &'static str)
        ensures
            r@ == self.text(),
    {
        match self {
            TurtlePlaceError::NoItems => "No items to place",
            TurtlePlaceError::Obstructed => "Cannot place block here",
        }
    }
}

/// Name and count of the items in one slot.
#[derive(Debug)]
pub struct ItemDetail {
    pub name: String,
    pub count: u32,
}

/// The view of an optional identity.
pub open spec fn id_view(o: Option<ItemId>) -> Option<Seq<char>> {
    match o {
        Some(i) => Some(i@),
        None => None,
    }
}

/// The outcome of digging a block with identity `block`, with `tool` mounted
/// on the chosen side: the identity the block turns into, or the error.
pub open spec fn dig_verdict(
    block: Seq<char>,
    tool: Option<Seq<char>>,
    rules: Seq<(Seq<char>, Seq<char>, Seq<char>)>,
) -> Result<Seq<char>, TurtleDigError> {
    if block == air_id() {
        Err(TurtleDigError::NothingToDig)
    } else if block == bedrock_id() {
        Err(TurtleDigError::UnbreakableBlock)
    } else {
        match tool {
            None => Err(TurtleDigError::NoTool),
            Some(t) => match dig_transform(rules, t, block) {
                Some(result) => Ok(result),
                None => Err(TurtleDigError::WrongTool),
            },
        }
    }
}

/// The robot's record.
#[derive(Debug)]
pub struct Turtle {
    /// The position of the turtle in the world.
    pub position: Position,
    /// Every position the turtle has moved to, oldest first.
    pub position_history: Vec<Position>,
    /// The direction the turtle is facing.
    pub facing: Direction,
    pub kind: TurtleKind,
    pub fuel: u32,
    pub inventory: [Option<ItemStack>; 16],
    pub selected_slot: usize,
    pub left_upgrade: Option<ItemId>,
    pub right_upgrade: Option<ItemId>,
}

impl Turtle {
    /// Everything but position, history and fuel is the same in `self` and `other`.
    pub open spec fn same_gear(&self, other: &Turtle) -> bool {
        &&& self.facing == other.facing
        &&& self.kind == other.kind
        &&& self.inventory == other.inventory
        &&& self.selected_slot == other.selected_slot
        &&& self.left_upgrade == other.left_upgrade
        &&& self.right_upgrade == other.right_upgrade
    }

    /// Everything but the facing is the same in `self` and `other`.
    pub open spec fn same_but_facing(&self, other: &Turtle) -> bool {
        &&& self.position == other.position
        &&& self.position_history@ == other.position_history@
        &&& self.kind == other.kind
        &&& self.fuel == other.fuel
        &&& self.inventory == other.inventory
        &&& self.selected_slot == other.selected_slot
        &&& self.left_upgrade == other.left_upgrade
        &&& self.right_upgrade == other.right_upgrade
    }

    /// The result of an attempt to move from `before` to `target`: an
    /// obstruction wins over an empty tank.
    pub open spec fn move_result(before: &Turtle, world: &World, target: Position) -> Result<
        (),
        TurtleMoveError,
    > {
        if Block::solid(world.block_at(target)) {
            Err(TurtleMoveError::Obstructed)
        } else if before.fuel == 0 {
            Err(TurtleMoveError::OutOfFuel)
        } else {
            Ok(())
        }
    }

    /// How an attempt to move from `before` to `target` leaves the turtle as
    /// `after`: a failed move changes nothing; a successful one goes to
    /// `target`, logs it and burns one unit of fuel.
    pub open spec fn move_step(before: &Turtle, after: &Turtle, world: &World, target: Position) -> bool {
        match Turtle::move_result(before, world, target) {
            Err(_) => *after == *before,
            Ok(_) => {
                &&& after.position == target
                &&& after.position_history@ == before.position_history@.push(target)
                &&& after.fuel == before.fuel - 1
                &&& after.same_gear(before)
            },
        }
    }

    /// Whether the position that `direction` aims at is representable.
    pub open spec fn can_reach(&self, direction: InteractDirection) -> bool {
        match direction {
            InteractDirection::Forward => self.position.can_forward(self.facing),
            InteractDirection::Up => self.position.can_up(),
            InteractDirection::Down => self.position.can_down(),
        }
    }

    /// The position that `direction` aims at.
    pub open spec fn aim(&self, direction: InteractDirection) -> Position {
        match direction {
            InteractDirection::Forward => self.position.forward_of(self.facing),
            InteractDirection::Up => self.position.up_of(),
            InteractDirection::Down => self.position.down_of(),
        }
    }

    /// The identity of the tool mounted on `side`.
    pub open spec fn tool_on(&self, side: TurtleSide) -> Option<Seq<char>> {
        match side {
            TurtleSide::Left => id_view(self.left_upgrade),
            TurtleSide::Right => id_view(self.right_upgrade),
        }
    }

    /// The slot that `slot` names, the selected one when absent.
    pub open spec fn slot_or_selected(&self, slot: Option<usize>) -> usize {
        match slot {
            Some(s) => s,
            None => self.selected_slot,
        }
    }

    /// Items held in slot `s`; zero for an empty or missing slot.
    pub open spec fn count_in(&self, s: usize) -> u32 {
        if s >= INVENTORY_SIZE {
            0
        } else {
            match self.inventory[s as int] {
                Some(stack) => stack.count,
                None => 0,
            }
        }
    }

    /// Room left in slot `s`; zero for a missing slot, a full stack for an
    /// empty one.
    pub open spec fn space_in(&self, s: usize) -> u32 {
        if s >= INVENTORY_SIZE {
            0
        } else {
            match self.inventory[s as int] {
                Some(stack) => ItemStack::space_for(stack.count),
                None => MAX_STACK_SIZE,
            }
        }
    }

    pub fn new(position: Position, direction: Direction, kind: TurtleKind) -> (r: Turtle)
        ensures
            r.position == position,
            r.position_history@ == seq![position],
            r.facing == direction,
            r.kind == kind,
            r.fuel == kind.limit(),
            forall|i: int| 0 <= i < INVENTORY_SIZE ==> r.inventory[i] is None,
            r.selected_slot == 0,
            r.left_upgrade is None,
            r.right_upgrade is None,
    {
        Turtle {
            position,
            position_history: vec![position],
            facing: direction,
            kind,
            fuel: kind.fuel_limit(),
            inventory: [
                None, None, None, None, None, None, None, None,
                None, None, None, None, None, None, None, None,
            ],
            selected_slot: 0,
            left_upgrade: None,
            right_upgrade: None,
        }
    }

    /// Mounts `upgrade` on `side`, or clears that mount.
    pub fn set_upgrade(&mut self, side: TurtleSide, upgrade: Option<ItemId>)
        ensures
            final(self).position == old(self).position,
            final(self).position_history@ == old(self).position_history@,
            final(self).fuel == old(self).fuel,
            final(self).facing == old(self).facing,
            final(self).kind == old(self).kind,
            final(self).inventory == old(self).inventory,
            final(self).selected_slot == old(self).selected_slot,
            side == TurtleSide::Left ==> final(self).left_upgrade == upgrade
                && final(self).right_upgrade == old(self).right_upgrade,
            side == TurtleSide::Right ==> final(self).right_upgrade == upgrade
                && final(self).left_upgrade == old(self).left_upgrade,
    {
        match side {
            TurtleSide::Left => self.left_upgrade = upgrade,
            TurtleSide::Right => self.right_upgrade = upgrade,
        }
    }

    fn set_position(&mut self, position: Position)
        ensures
            final(self).position == position,
            final(self).position_history@ == old(self).position_history@.push(position),
            final(self).fuel == old(self).fuel,
            final(self).same_gear(old(self)),
    {
        self.position = position;
        self.position_history.push(position);
    }

    /// Whether the position that `direction` aims at is representable.
    pub fn reaches(&self, direction: InteractDirection) -> (r: bool)
        ensures
            r == self.can_reach(direction),
    {
        match direction {
            InteractDirection::Forward => self.position.fits_forward(self.facing),
            InteractDirection::Up => self.position.fits_up(),
            InteractDirection::Down => self.position.fits_down(),
        }
    }

    /// The position the turtle is looking at.
    pub fn looking_at(&self) -> (r: Position)
        requires
            self.position.can_forward(self.facing),
        ensures
            r == self.position.forward_of(self.facing),
    {
        self.position.forward(self.facing)
    }

    fn target(&self, direction: InteractDirection) -> (r: Position)
        requires
            self.can_reach(direction),
        ensures
            r == self.aim(direction),
    {
        match direction {
            InteractDirection::Forward => self.position.forward(self.facing),
            InteractDirection::Up => self.position.up(),
            InteractDirection::Down => self.position.down(),
        }
    }

    /// Moves to `position` unless it is solid or the tank is empty; a move
    /// costs one unit of fuel and is logged in the history.
    pub fn move_to(&mut self, position: Position, world: &World) -> (r: Result<(), TurtleMoveError>)
        ensures
            r == Turtle::move_result(old(self), world, position),
            Turtle::move_step(old(self), final(self), world, position),
    {
        if world.is_solid(position) {
            return Err(TurtleMoveError::Obstructed);
        }
        if self.fuel == 0 {
            return Err(TurtleMoveError::OutOfFuel);
        }
        self.set_position(position);
        self.fuel = self.fuel - 1;
        Ok(())
    }

    pub fn forward(&mut self, world: &World) -> (r: Result<(), TurtleMoveError>)
        requires
            old(self).position.can_forward(old(self).facing),
        ensures
            r == Turtle::move_result(old(self), world, old(self).position.forward_of(old(self).facing)),
            Turtle::move_step(old(self), final(self), world, old(self).position.forward_of(old(self).facing)),
    {
        let target = self.position.forward(self.facing);
        self.move_to(target, world)
    }

    pub fn back(&mut self, world: &World) -> (r: Result<(), TurtleMoveError>)
        requires
            old(self).position.can_back(old(self).facing),
        ensures
            r == Turtle::move_result(old(self), world, old(self).position.back_of(old(self).facing)),
            Turtle::move_step(old(self), final(self), world, old(self).position.back_of(old(self).facing)),
    {
        let target = self.position.back(self.facing);
        self.move_to(target, world)
    }

    pub fn up(&mut self, world: &World) -> (r: Result<(), TurtleMoveError>)
        requires
            old(self).position.can_up(),
        ensures
            r == Turtle::move_result(old(self), world, old(self).position.up_of()),
            Turtle::move_step(old(self), final(self), world, old(self).position.up_of()),
    {
        let target = self.position.up();
        self.move_to(target, world)
    }

    pub fn down(&mut self, world: &World) -> (r: Result<(), TurtleMoveError>)
        requires
            old(self).position.can_down(),
        ensures
            r == Turtle::move_result(old(self), world, old(self).position.down_of()),
            Turtle::move_step(old(self), final(self), world, old(self).position.down_of()),
    {
        let target = self.position.down();
        self.move_to(target, world)
    }

    pub fn turn_left(&mut self)
        ensures
            final(self).facing == old(self).facing.left_of(),
            final(self).same_but_facing(old(self)),
    {
        self.facing = self.facing.turn_left();
    }

    pub fn turn_right(&mut self)
        ensures
            final(self).facing == old(self).facing.right_of(),
            final(self).same_but_facing(old(self)),
    {
        self.facing = self.facing.turn_right();
    }

    /// Whether a solid block is in front.
    pub fn detect(&self, world: &World) -> (r: bool)
        requires
            self.position.can_forward(self.facing),
        ensures
            r == Block::solid(world.block_at(self.position.forward_of(self.facing))),
    {
        let target_position = self.position.forward(self.facing);
        world.is_solid(target_position)
    }

    /// Whether a solid block is above.
    pub fn detect_up(&self, world: &World) -> (r: bool)
        requires
            self.position.can_up(),
        ensures
            r == Block::solid(world.block_at(self.position.up_of())),
    {
        let target_position = self.position.up();
        world.is_solid(target_position)
    }

    /// Whether a solid block is below.
    pub fn detect_down(&self, world: &World) -> (r: bool)
        requires
            self.position.can_down(),
        ensures
            r == Block::solid(world.block_at(self.position.down_of())),
    {
        let target_position = self.position.down();
        world.is_solid(target_position)
    }

    /// Reports the identity of the block aimed at; fails on air.
    pub fn inspect(&self, direction: InteractDirection, world: &World) -> (r: Result<InspectData, TurtleInspectError>)
        requires
            self.can_reach(direction),
        ensures
            match r {
                Ok(data) => Block::solid(world.block_at(self.aim(direction)))
                    && data.name@ == world.block_at(self.aim(direction)),
                Err(e) => !Block::solid(world.block_at(self.aim(direction)))
                    && e == TurtleInspectError::NoBlock,
            },
    {
        let target_position = self.target(direction);
        let block = world.get_block(target_position);
        if block.is_solid() {
            Ok(InspectData { name: block.id.as_str().to_owned() })
        } else {
            Err(TurtleInspectError::NoBlock)
        }
    }

    pub fn inspect_forward(&self, world: &World) -> (r: Result<InspectData, TurtleInspectError>)
        requires
            self.can_reach(InteractDirection::Forward),
        ensures
            match r {
                Ok(data) => Block::solid(world.block_at(self.aim(InteractDirection::Forward)))
                    && data.name@ == world.block_at(self.aim(InteractDirection::Forward)),
                Err(e) => !Block::solid(world.block_at(self.aim(InteractDirection::Forward)))
                    && e == TurtleInspectError::NoBlock,
            },
    {
        self.inspect(InteractDirection::Forward, world)
    }

    pub fn inspect_up(&self, world: &World) -> (r: Result<InspectData, TurtleInspectError>)
        requires
            self.can_reach(InteractDirection::Up),
        ensures
            match r {
                Ok(data) => Block::solid(world.block_at(self.aim(InteractDirection::Up)))
                    && data.name@ == world.block_at(self.aim(InteractDirection::Up)),
                Err(e) => !Block::solid(world.block_at(self.aim(InteractDirection::Up)))
                    && e == TurtleInspectError::NoBlock,
            },
    {
        self.inspect(InteractDirection::Up, world)
    }

    pub fn inspect_down(&self, world: &World) -> (r: Result<InspectData, TurtleInspectError>)
        requires
            self.can_reach(InteractDirection::Down),
        ensures
            match r {
                Ok(data) => Block::solid(world.block_at(self.aim(InteractDirection::Down)))
                    && data.name@ == world.block_at(self.aim(InteractDirection::Down)),
                Err(e) => !Block::solid(world.block_at(self.aim(InteractDirection::Down)))
                    && e == TurtleInspectError::NoBlock,
            },
    {
        self.inspect(InteractDirection::Down, world)
    }
}

/// A successful move burns exactly one unit of fuel and logs exactly one new
/// history entry, the target; a failed move leaves position, fuel and history
/// exactly as they were.
pub proof fn lemma_move_accounting(before: &Turtle, after: &Turtle, world: &World, target: Position)
    requires
        Turtle::move_step(before, after, world, target),
    ensures
        Turtle::move_result(before, world, target) is Ok ==> {
            &&& after.fuel == before.fuel - 1
            &&& after.position == target
            &&& after.position_history@.len() == before.position_history@.len() + 1
            &&& after.position_history@.last() == target
            &&& after.position_history@.drop_last() == before.position_history@
        },
        Turtle::move_result(before, world, target) is Err ==> {
            &&& after.position == before.position
            &&& after.fuel == before.fuel
            &&& after.position_history@ == before.position_history@
        },
{
    if Turtle::move_result(before, world, target) is Ok {
        assert(after.position_history@.drop_last() =~= before.position_history@);
    }
}

/// Turning costs no fuel and touches nothing but the facing: a right turn
/// followed by a left turn gives back the starting turtle's facing, and so
/// do four right turns.
pub proof fn lemma_turns_restore_facing(t0: &Turtle, t1: &Turtle, t2: &Turtle, t3: &Turtle, t4: &Turtle)
    requires
        t1.facing == t0.facing.right_of() && t1.same_but_facing(t0),
        t2.facing == t1.facing.right_of() && t2.same_but_facing(t1),
        t3.facing == t2.facing.right_of() && t3.same_but_facing(t2),
        t4.facing == t3.facing.right_of() && t4.same_but_facing(t3),
    ensures
        t1.facing.left_of() == t0.facing,
        t1.fuel == t0.fuel,
        t1.position == t0.position,
        t1.position_history@ == t0.position_history@,
        t4.facing == t0.facing,
        t4.same_but_facing(t0),
{
    crate::world::lemma_turns_cancel(t0.facing);
}

impl Turtle {
    /// The identity of the items in slot `s`, if it holds a stack.
    pub open spec fn name_in(&self, s: usize) -> Option<Seq<char>> {
        if s >= INVENTORY_SIZE {
            None
        } else {
            match self.inventory[s as int] {
                Some(stack) => Some(stack.name@),
                None => None,
            }
        }
    }

    /// Digs the block that `direction` aims at with the tool on `side`, as
    /// `rules` decide; the turtle itself is left as it was.
    pub fn dig_with(
        &mut self,
        direction: InteractDirection,
        side: TurtleSide,
        world: &mut World,
        rules: &DigRules,
    ) -> (r: Result<(), TurtleDigError>)
        requires
            old(self).can_reach(direction),
        ensures
            *final(self) == *old(self),
            match dig_verdict(
                old(world).block_at(old(self).aim(direction)),
                old(self).tool_on(side),
                rules@,
            ) {
                Ok(id) => r == Ok::<(), TurtleDigError>(()) && final(world)@ == with_block(
                    old(world)@,
                    old(self).aim(direction),
                    id,
                ),
                Err(e) => r == Err::<(), TurtleDigError>(e) && final(world)@ == old(world)@,
            },
    {
        let target_position = self.target(direction);
        let block = world.get_block(target_position);
        if block.id == BlockId::air() {
            return Err(TurtleDigError::NothingToDig);
        }
        if block.id == BlockId::bedrock() {
            return Err(TurtleDigError::UnbreakableBlock);
        }
        let upgrade = match side {
            TurtleSide::Left => self.left_upgrade.as_ref(),
            TurtleSide::Right => self.right_upgrade.as_ref(),
        };
        let tool = match upgrade {
            Some(tool) => tool,
            None => {
                return Err(TurtleDigError::NoTool);
            },
        };
        match rules.transform(tool, &block.id) {
            Some(result) => {
                world.set_block(target_position, Block { id: result });
                Ok(())
            },
            None => Err(TurtleDigError::WrongTool),
        }
    }

    /// Digs with the standard rules.
    pub fn dig(&mut self, direction: InteractDirection, side: TurtleSide, world: &mut World) -> (r:
        Result<(), TurtleDigError>)
        requires
            old(self).can_reach(direction),
        ensures
            *final(self) == *old(self),
            match dig_verdict(
                old(world).block_at(old(self).aim(direction)),
                old(self).tool_on(side),
                standard_rules(),
            ) {
                Ok(id) => r == Ok::<(), TurtleDigError>(()) && final(world)@ == with_block(
                    old(world)@,
                    old(self).aim(direction),
                    id,
                ),
                Err(e) => r == Err::<(), TurtleDigError>(e) && final(world)@ == old(world)@,
            },
    {
        let rules = DigRules::standard();
        self.dig_with(direction, side, world, &rules)
    }

    pub fn dig_forward(&mut self, side: TurtleSide, world: &mut World) -> (r: Result<(), TurtleDigError>)
        requires
            old(self).can_reach(InteractDirection::Forward),
        ensures
            *final(self) == *old(self),
            match dig_verdict(
                old(world).block_at(old(self).aim(InteractDirection::Forward)),
                old(self).tool_on(side),
                standard_rules(),
            ) {
                Ok(id) => r == Ok::<(), TurtleDigError>(()) && final(world)@ == with_block(
                    old(world)@,
                    old(self).aim(InteractDirection::Forward),
                    id,
                ),
                Err(e) => r == Err::<(), TurtleDigError>(e) && final(world)@ == old(world)@,
            },
    {
        self.dig(InteractDirection::Forward, side, world)
    }

    pub fn dig_up(&mut self, side: TurtleSide, world: &mut World) -> (r: Result<(), TurtleDigError>)
        requires
            old(self).can_reach(InteractDirection::Up),
        ensures
            *final(self) == *old(self),
            match dig_verdict(
                old(world).block_at(old(self).aim(InteractDirection::Up)),
                old(self).tool_on(side),
                standard_rules(),
            ) {
                Ok(id) => r == Ok::<(), TurtleDigError>(()) && final(world)@ == with_block(
                    old(world)@,
                    old(self).aim(InteractDirection::Up),
                    id,
                ),
                Err(e) => r == Err::<(), TurtleDigError>(e) && final(world)@ == old(world)@,
            },
    {
        self.dig(InteractDirection::Up, side, world)
    }

    pub fn dig_down(&mut self, side: TurtleSide, world: &mut World) -> (r: Result<(), TurtleDigError>)
        requires
            old(self).can_reach(InteractDirection::Down),
        ensures
            *final(self) == *old(self),
            match dig_verdict(
                old(world).block_at(old(self).aim(InteractDirection::Down)),
                old(self).tool_on(side),
                standard_rules(),
            ) {
                Ok(id) => r == Ok::<(), TurtleDigError>(()) && final(world)@ == with_block(
                    old(world)@,
                    old(self).aim(InteractDirection::Down),
                    id,
                ),
                Err(e) => r == Err::<(), TurtleDigError>(e) && final(world)@ == old(world)@,
            },
    {
        self.dig(InteractDirection::Down, side, world)
    }

    /// The result of placing from the selected slot where `direction` aims:
    /// an empty slot wins over an occupied target.
    pub open spec fn place_result(t: &Turtle, world: &World, direction: InteractDirection) -> Result<
        (),
        TurtlePlaceError,
    > {
        if t.count_in(t.selected_slot) == 0 {
            Err(TurtlePlaceError::NoItems)
        } else if Block::solid(world.block_at(t.aim(direction))) {
            Err(TurtlePlaceError::Obstructed)
        } else {
            Ok(())
        }
    }

    /// How placing leaves turtle and world: a failed placement changes
    /// nothing; a successful one writes the slot's item identity at the
    /// target and takes one item from the slot, emptying it at zero.
    pub open spec fn place_step(
        before: &Turtle,
        after: &Turtle,
        world_before: &World,
        world_after: &World,
        direction: InteractDirection,
    ) -> bool {
        let s = before.selected_slot;
        match Turtle::place_result(before, world_before, direction) {
            Err(_) => *after == *before && world_after@ == world_before@,
            Ok(_) => {
                &&& world_after@ == with_block(world_before@, before.aim(direction), before.name_in(s)->0)
                &&& after.count_in(s) == before.count_in(s) - 1
                &&& after.count_in(s) > 0 ==> after.name_in(s) == before.name_in(s)
                &&& after.count_in(s) == 0 ==> after.inventory[s as int] is None
                &&& forall|i: int| 0 <= i < INVENTORY_SIZE && i != s ==> after.inventory[i] == before.inventory[i]
                &&& after.position == before.position
                &&& after.position_history@ == before.position_history@
                &&& after.facing == before.facing
                &&& after.kind == before.kind
                &&& after.fuel == before.fuel
                &&& after.selected_slot == before.selected_slot
                &&& after.left_upgrade == before.left_upgrade
                &&& after.right_upgrade == before.right_upgrade
            },
        }
    }

    /// Places one item of the selected slot as a block where `direction` aims.
    pub fn place(&mut self, direction: InteractDirection, world: &mut World) -> (r: Result<(), TurtlePlaceError>)
        requires
            old(self).can_reach(direction),
        ensures
            r == Turtle::place_result(old(self), old(world), direction),
            Turtle::place_step(old(self), final(self), old(world), final(world), direction),
    {
        let slot = self.selected_slot;
        if slot >= INVENTORY_SIZE {
            return Err(TurtlePlaceError::NoItems);
        }
        let (name, count) = match &self.inventory[slot] {
            Some(stack) => (stack.name.clone(), stack.count),
            None => {
                return Err(TurtlePlaceError::NoItems);
            },
        };
        if count == 0 {
            return Err(TurtlePlaceError::NoItems);
        }
        let target_position = self.target(direction);
        if world.is_solid(target_position) {
            return Err(TurtlePlaceError::Obstructed);
        }
        world.set_block(target_position, Block { id: BlockId::new(name.as_str()) });
        if count == 1 {
            self.inventory[slot] = None;
        } else {
            self.inventory[slot] = Some(ItemStack { name, count: count - 1 });
        }
        Ok(())
    }

    pub fn get_fuel_level(&self) -> (r: u32)
        ensures
            r == self.fuel,
    {
        self.fuel
    }

    pub fn get_fuel_limit(&self) -> (r: u32)
        ensures
            r == self.kind.limit(),
    {
        self.kind.fuel_limit()
    }

    pub fn get_selected_slot(&self) -> (r: usize)
        ensures
            r == self.selected_slot,
    {
        self.selected_slot
    }

    /// Selects `slot` when it is one of the sixteen slots; otherwise fails and
    /// keeps the selection.
    pub fn select(&mut self, slot: usize) -> (r: (bool, Option<String>))
        ensures
            slot < INVENTORY_SIZE ==> r.0 && r.1 is None && final(self).selected_slot == slot,
            slot >= INVENTORY_SIZE ==> !r.0 && r.1 is Some && r.1->0@ == "Slot out of range"@
                && final(self).selected_slot == old(self).selected_slot,
            final(self).position == old(self).position,
            final(self).position_history@ == old(self).position_history@,
            final(self).facing == old(self).facing,
            final(self).kind == old(self).kind,
            final(self).fuel == old(self).fuel,
            final(self).inventory == old(self).inventory,
            final(self).left_upgrade == old(self).left_upgrade,
            final(self).right_upgrade == old(self).right_upgrade,
    {
        if slot >= INVENTORY_SIZE {
            return (false, Some("Slot out of range".to_owned()));
        }
        self.selected_slot = slot;
        (true, None)
    }

    /// Items in `slot`, the selected slot when absent; zero for an empty or
    /// missing slot.
    pub fn get_item_count(&self, slot: Option<usize>) -> (r: u32)
        ensures
            r == self.count_in(self.slot_or_selected(slot)),
    {
        let slot = match slot {
            Some(s) => s,
            None => self.selected_slot,
        };
        if slot >= INVENTORY_SIZE {
            return 0;
        }
        match &self.inventory[slot] {
            Some(stack) => stack.count,
            None => 0,
        }
    }

    /// Room left in `slot`, the selected slot when absent; zero for a missing
    /// slot, a full stack for an empty one.
    pub fn get_item_space(&self, slot: Option<usize>) -> (r: u32)
        ensures
            r == self.space_in(self.slot_or_selected(slot)),
    {
        let slot = match slot {
            Some(s) => s,
            None => self.selected_slot,
        };
        if slot >= INVENTORY_SIZE {
            return 0;
        }
        match &self.inventory[slot] {
            Some(stack) => stack.space_left(),
            None => MAX_STACK_SIZE,
        }
    }

    /// Name and count of the stack in `slot`; nothing for an empty or missing
    /// slot.
    pub fn get_item_detail(&self, slot: usize, _detailed: bool) -> (r: Option<ItemDetail>)
        ensures
            match r {
                Some(d) => self.name_in(slot) == Some(d.name@) && d.count == self.count_in(slot),
                None => self.name_in(slot) is None,
            },
    {
        if slot >= INVENTORY_SIZE {
            return None;
        }
        match &self.inventory[slot] {
            Some(stack) => Some(ItemDetail { name: stack.name.as_str().to_owned(), count: stack.count }),
            None => None,
        }
    }
}

} // verus!
