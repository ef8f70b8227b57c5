//! A compact simulator over a fixed palette of block kinds. Its turtle has no
//! tool mounts in play and no history, and its operations reply directly with
//! `(success, reason)` pairs.

use std::collections::HashMap;

use vstd::prelude::*;

use crate::item::{ItemStack, MAX_STACK_SIZE};
use crate::world::{key_of, lemma_position_key_injective, position_key};

pub use crate::world::{Direction, Position};

verus! {

broadcast use vstd::std_specs::hash::group_hash_axioms;

/// The reply of an operation: success, and the reason of a failure.
pub type TurtleResult = (bool, Option<String>);

/// A plain success.
pub open spec fn succeeded(r: TurtleResult) -> bool {
    r.0 && r.1 is None
}

/// A failure carrying `reason`.
pub open spec fn failed_with(r: TurtleResult, reason: Seq<char>) -> bool {
    !r.0 && r.1 is Some && r.1->0@ == reason
}

/// The block kinds of this palette.
#[derive(Debug, Clone, Copy, PartialEq, Eq, Structural)]
pub enum Block {
    Air,
    Stone,
    Dirt,
    Wood,
    Cobblestone,
    Bedrock,
}

impl Block {
    pub fn is_solid(&self) -> (r: bool)
        ensures
            r == (*self != Block::Air),
    {
        !matches!(self, Block::Air)
    }

    pub fn is_diggable(&self) -> (r: bool)
        ensures
            r == (*self != Block::Air && *self != Block::Bedrock),
    {
        !matches!(self, Block::Air | Block::Bedrock)
    }
}

/// The block at `p` in a world whose stored entries are `m`.
pub open spec fn block_in(m: Map<Position, Block>, p: Position) -> Block {
    if m.contains_key(p) {
        m[p]
    } else {
        Block::Air
    }
}

/// The stored entries after writing `b` at `p`: air removes the entry.
pub open spec fn with_block(m: Map<Position, Block>, p: Position, b: Block) -> Map<Position, Block> {
    if b == Block::Air {
        m.remove(p)
    } else {
        m.insert(p, b)
    }
}

/// Sparse store of palette blocks; absent positions hold air.
#[derive(Debug)]
pub struct World {
    blocks: HashMap<u128, Block>,
}

impl View for World {
    type V = Map<Position, Block>;

    closed spec fn view(&self) -> Map<Position, Block> {
        Map::new(
            |p: Position| self.blocks@.contains_key(position_key(p)),
            |p: Position| self.blocks@[position_key(p)],
        )
    }
}

impl World {
    pub open spec fn block_at(&self, p: Position) -> Block {
        block_in(self@, p)
    }

    pub fn new() -> (r: World)
        ensures
            r@ == Map::<Position, Block>::empty(),
    {
        let r = World { blocks: HashMap::new() };
        assert(r@ =~= Map::<Position, Block>::empty());
        r
    }

    pub fn get_block(&self, position: Position) -> (r: Block)
        ensures
            r == self.block_at(position),
    {
        match self.blocks.get(&key_of(position)) {
            Some(b) => *b,
            None => Block::Air,
        }
    }

    pub fn set_block(&mut self, position: Position, block: Block)
        ensures
            final(self)@ == with_block(old(self)@, position, block),
    {
        let k = key_of(position);
        let ghost old_view = self@;
        if block == Block::Air {
            self.blocks.remove(&k);
        } else {
            self.blocks.insert(k, block);
        }
        let ghost expected = with_block(old_view, position, block);
        assert forall|p: Position|
            (#[trigger] self@.contains_key(p) <==> expected.contains_key(p)) && (self@.contains_key(
                p,
            ) ==> self@[p] == expected[p]) by {
            if position_key(p) == k {
                lemma_position_key_injective(p, position);
            }
        }
        assert(self@ =~= expected);
    }

    pub fn is_solid(&self, position: Position) -> (r: bool)
        ensures
            r == (self.block_at(position) != Block::Air),
    {
        self.get_block(position).is_solid()
    }

    pub fn can_dig(&self, position: Position) -> (r: bool)
        ensures
            r == (self.block_at(position) != Block::Air && self.block_at(position) != Block::Bedrock),
    {
        self.get_block(position).is_diggable()
    }
}

impl Default for World {
    fn default() -> (r: World)
        ensures
            r@ == Map::<Position, Block>::empty(),
    {
        World::new()
    }
}

/// The model of turtle, which fixes its fuel capacity.
#[derive(Debug, Clone, Copy, PartialEq, Eq, Structural)]
pub enum TurtleType {
    Normal,
    Advanced,
}

impl TurtleType {
    pub open spec fn limit(self) -> u32 {
        match self {
            TurtleType::Normal => 20_000,
            TurtleType::Advanced => 100_000,
        }
    }

    pub fn fuel_limit(&self) -> (r: u32)
        ensures
            r == self.limit(),
    {
        match self {
            TurtleType::Normal => 20_000,
            TurtleType::Advanced => 100_000,
        }
    }
}

/// The robot's record.
#[derive(Debug)]
pub struct Turtle {
    pub position: Position,
    pub direction: Direction,
    pub turtle_type: TurtleType,
    pub fuel: u32,
    pub inventory: [Option<ItemStack>; 16],
    pub selected_slot: usize,
    pub left_upgrade: Option<String>,
    pub right_upgrade: Option<String>,
}

impl Turtle {
    /// Everything but position and fuel is the same in `self` and `other`.
    pub open spec fn same_gear(&self, other: &Turtle) -> bool {
        &&& self.direction == other.direction
        &&& self.turtle_type == other.turtle_type
        &&& self.inventory == other.inventory
        &&& self.selected_slot == other.selected_slot
        &&& self.left_upgrade == other.left_upgrade
        &&& self.right_upgrade == other.right_upgrade
    }

    /// The attempt to move from `before` to `target`, as seen in `after` and
    /// the reply `r`: an obstruction wins over an empty tank, a failed move
    /// changes nothing, and a move burns one unit of fuel.
    pub open spec fn moved(before: &Turtle, after: &Turtle, world: &World, target: Position, r: TurtleResult) -> bool {
        if world.block_at(target) != Block::Air {
            failed_with(r, "Movement obstructed"@) && *after == *before
        } else if before.fuel == 0 {
            failed_with(r, "Out of fuel"@) && *after == *before
        } else {
            &&& succeeded(r)
            &&& after.position == target
            &&& after.fuel == before.fuel - 1
            &&& after.same_gear(before)
        }
    }

    /// The attempt to dig at `target`, as seen in the worlds and the reply:
    /// anything diggable becomes air.
    pub open spec fn dug(world_before: &World, world_after: &World, target: Position, r: TurtleResult) -> bool {
        let b = world_before.block_at(target);
        if b == Block::Air || b == Block::Bedrock {
            failed_with(r, "Nothing to dig"@) && world_after@ == world_before@
        } else {
            succeeded(r) && world_after@ == with_block(world_before@, target, Block::Air)
        }
    }

    pub fn new(position: Position, direction: Direction, turtle_type: TurtleType) -> (r: Turtle)
        ensures
            r.position == position,
            r.direction == direction,
            r.turtle_type == turtle_type,
            r.fuel == turtle_type.limit(),
            forall|i: int| 0 <= i < 16 ==> r.inventory[i] is None,
            r.selected_slot == 0,
            r.left_upgrade is None,
            r.right_upgrade is None,
    {
        Turtle {
            position,
            direction,
            turtle_type,
            fuel: turtle_type.fuel_limit(),
            inventory: [
                None, None, None, None, None, None, None, None,
                None, None, None, None, None, None, None, None,
            ],
            selected_slot: 0,
            left_upgrade: None,
            right_upgrade: None,
        }
    }

    fn move_to(&mut self, target: Position, world: &World) -> (r: TurtleResult)
        ensures
            Turtle::moved(old(self), final(self), world, target, r),
    {
        if world.is_solid(target) {
            return (false, Some("Movement obstructed".to_owned()));
        }
        if self.fuel == 0 {
            return (false, Some("Out of fuel".to_owned()));
        }
        self.position = target;
        self.fuel = self.fuel - 1;
        (true, None)
    }

    pub fn forward(&mut self, world: &mut World) -> (r: TurtleResult)
        requires
            old(self).position.can_forward(old(self).direction),
        ensures
            Turtle::moved(old(self), final(self), old(world), old(self).position.forward_of(old(self).direction), r),
            final(world)@ == old(world)@,
    {
        let target_position = self.position.forward(self.direction);
        self.move_to(target_position, world)
    }

    pub fn back(&mut self, world: &mut World) -> (r: TurtleResult)
        requires
            old(self).position.can_back(old(self).direction),
        ensures
            Turtle::moved(old(self), final(self), old(world), old(self).position.back_of(old(self).direction), r),
            final(world)@ == old(world)@,
    {
        let target_position = self.position.back(self.direction);
        self.move_to(target_position, world)
    }

    pub fn up(&mut self, world: &mut World) -> (r: TurtleResult)
        requires
            old(self).position.can_up(),
        ensures
            Turtle::moved(old(self), final(self), old(world), old(self).position.up_of(), r),
            final(world)@ == old(world)@,
    {
        let target_position = self.position.up();
        self.move_to(target_position, world)
    }

    pub fn down(&mut self, world: &mut World) -> (r: TurtleResult)
        requires
            old(self).position.can_down(),
        ensures
            Turtle::moved(old(self), final(self), old(world), old(self).position.down_of(), r),
            final(world)@ == old(world)@,
    {
        let target_position = self.position.down();
        self.move_to(target_position, world)
    }

    pub fn turn_left(&mut self) -> (r: TurtleResult)
        ensures
            succeeded(r),
            final(self).direction == old(self).direction.left_of(),
            final(self).position == old(self).position,
            final(self).fuel == old(self).fuel,
            final(self).turtle_type == old(self).turtle_type,
            final(self).inventory == old(self).inventory,
            final(self).selected_slot == old(self).selected_slot,
            final(self).left_upgrade == old(self).left_upgrade,
            final(self).right_upgrade == old(self).right_upgrade,
    {
        self.direction = self.direction.turn_left();
        (true, None)
    }

    pub fn turn_right(&mut self) -> (r: TurtleResult)
        ensures
            succeeded(r),
            final(self).direction == old(self).direction.right_of(),
            final(self).position == old(self).position,
            final(self).fuel == old(self).fuel,
            final(self).turtle_type == old(self).turtle_type,
            final(self).inventory == old(self).inventory,
            final(self).selected_slot == old(self).selected_slot,
            final(self).left_upgrade == old(self).left_upgrade,
            final(self).right_upgrade == old(self).right_upgrade,
    {
        self.direction = self.direction.turn_right();
        (true, None)
    }

    pub fn detect(&self, world: &World) -> (r: bool)
        requires
            self.position.can_forward(self.direction),
        ensures
            r == (world.block_at(self.position.forward_of(self.direction)) != Block::Air),
    {
        let target_position = self.position.forward(self.direction);
        world.is_solid(target_position)
    }

    pub fn detect_up(&self, world: &World) -> (r: bool)
        requires
            self.position.can_up(),
        ensures
            r == (world.block_at(self.position.up_of()) != Block::Air),
    {
        let target_position = self.position.up();
        world.is_solid(target_position)
    }

    pub fn detect_down(&self, world: &World) -> (r: bool)
        requires
            self.position.can_down(),
        ensures
            r == (world.block_at(self.position.down_of()) != Block::Air),
    {
        let target_position = self.position.down();
        world.is_solid(target_position)
    }

    fn dig_at(&mut self, target: Position, world: &mut World) -> (r: TurtleResult)
        ensures
            Turtle::dug(old(world), final(world), target, r),
            *final(self) == *old(self),
    {
        if !world.can_dig(target) {
            return (false, Some("Nothing to dig".to_owned()));
        }
        world.set_block(target, Block::Air);
        (true, None)
    }

    pub fn dig(&mut self, world: &mut World) -> (r: TurtleResult)
        requires
            old(self).position.can_forward(old(self).direction),
        ensures
            Turtle::dug(old(world), final(world), old(self).position.forward_of(old(self).direction), r),
            *final(self) == *old(self),
    {
        let target_position = self.position.forward(self.direction);
        self.dig_at(target_position, world)
    }

    pub fn dig_up(&mut self, world: &mut World) -> (r: TurtleResult)
        requires
            old(self).position.can_up(),
        ensures
            Turtle::dug(old(world), final(world), old(self).position.up_of(), r),
            *final(self) == *old(self),
    {
        let target_position = self.position.up();
        self.dig_at(target_position, world)
    }

    pub fn dig_down(&mut self, world: &mut World) -> (r: TurtleResult)
        requires
            old(self).position.can_down(),
        ensures
            Turtle::dug(old(world), final(world), old(self).position.down_of(), r),
            *final(self) == *old(self),
    {
        let target_position = self.position.down();
        self.dig_at(target_position, world)
    }

    pub fn get_fuel_level(&self) -> (r: u32)
        ensures
            r == self.fuel,
    {
        self.fuel
    }

    pub fn get_fuel_limit(&self) -> (r: u32)
        ensures
            r == self.turtle_type.limit(),
    {
        self.turtle_type.fuel_limit()
    }

    pub fn get_selected_slot(&self) -> (r: usize)
        ensures
            r == self.selected_slot,
    {
        self.selected_slot
    }

    /// Selects `slot` when it is one of the sixteen slots; otherwise fails and
    /// keeps the selection.
    pub fn select(&mut self, slot: usize) -> (r: TurtleResult)
        ensures
            slot < 16 ==> succeeded(r) && final(self).selected_slot == slot,
            slot >= 16 ==> failed_with(r, "Slot out of range"@) && final(self).selected_slot
                == old(self).selected_slot,
            final(self).position == old(self).position,
            final(self).direction == old(self).direction,
            final(self).turtle_type == old(self).turtle_type,
            final(self).fuel == old(self).fuel,
            final(self).inventory == old(self).inventory,
            final(self).left_upgrade == old(self).left_upgrade,
            final(self).right_upgrade == old(self).right_upgrade,
    {
        if slot >= 16 {
            return (false, Some("Slot out of range".to_owned()));
        }
        self.selected_slot = slot;
        (true, None)
    }

    /// Items in `slot`, the selected slot when absent; zero for an empty or
    /// missing slot.
    pub fn get_item_count(&self, slot: Option<usize>) -> (r: u32)
        ensures
            ({
                let s = match slot {
                    Some(s) => s,
                    None => self.selected_slot,
                };
                r == if s >= 16 {
                    0
                } else {
                    match self.inventory[s as int] {
                        Some(stack) => stack.count,
                        None => 0,
                    }
                }
            }),
    {
        let slot = match slot {
            Some(s) => s,
            None => self.selected_slot,
        };
        if slot >= 16 {
            return 0;
        }
        match &self.inventory[slot] {
            Some(stack) => stack.count,
            None => 0,
        }
    }

    /// Room left in `slot`, the selected slot when absent; zero for a missing
    /// slot, a full stack for an empty one.
    pub fn get_item_space(&self, slot: Option<usize>) -> (r: u32)
        ensures
            ({
                let s = match slot {
                    Some(s) => s,
                    None => self.selected_slot,
                };
                r == if s >= 16 {
                    0
                } else {
                    match self.inventory[s as int] {
                        Some(stack) => ItemStack::space_for(stack.count),
                        None => MAX_STACK_SIZE,
                    }
                }
            }),
    {
        let slot = match slot {
            Some(s) => s,
            None => self.selected_slot,
        };
        if slot >= 16 {
            return 0;
        }
        match &self.inventory[slot] {
            Some(stack) => stack.space_left(),
            None => MAX_STACK_SIZE,
        }
    }
}

} // verus!
