//! Coordinates, facings and the sparse block store.

use std::collections::HashMap;

use vstd::prelude::*;

use crate::block::{air_id, Block, BlockId};

verus! {

broadcast use vstd::std_specs::hash::group_hash_axioms;

/// One of the four horizontal facings.
#[derive(Debug, Clone, Copy, PartialEq, Eq, Hash, Structural)]
pub enum Direction {
    North,
    South,
    East,
    West,
}

impl Direction {
    /// The facing reached by a quarter turn counter-clockwise.
    pub open spec fn left_of(self) -> Direction {
        match self {
            Direction::North => Direction::West,
            Direction::West => Direction::South,
            Direction::South => Direction::East,
            Direction::East => Direction::North,
        }
    }

    /// The facing reached by a quarter turn clockwise.
    pub open spec fn right_of(self) -> Direction {
        match self {
            Direction::North => Direction::East,
            Direction::East => Direction::South,
            Direction::South => Direction::West,
            Direction::West => Direction::North,
        }
    }

    /// The x component of one step forward.
    pub open spec fn dx(self) -> int {
        match self {
            Direction::East => 1,
            Direction::West => -1,
            _ => 0,
        }
    }

    /// The z component of one step forward (north is towards negative z).
    pub open spec fn dz(self) -> int {
        match self {
            Direction::North => -1,
            Direction::South => 1,
            _ => 0,
        }
    }

    pub fn turn_left(self) -> (r: Direction)
        ensures
            r == self.left_of(),
    {
        match self {
            Direction::North => Direction::West,
            Direction::West => Direction::South,
            Direction::South => Direction::East,
            Direction::East => Direction::North,
        }
    }

    pub fn turn_right(self) -> (r: Direction)
        ensures
            r == self.right_of(),
    {
        match self {
            Direction::North => Direction::East,
            Direction::East => Direction::South,
            Direction::South => Direction::West,
            Direction::West => Direction::North,
        }
    }

    /// The `(dx, dz)` unit vector of one step forward.
    pub fn offset(self) -> (r: (i32, i32))
        ensures
            r.0 == self.dx(),
            r.1 == self.dz(),
    {
        match self {
            Direction::North => (0, -1),
            Direction::South => (0, 1),
            Direction::East => (1, 0),
            Direction::West => (-1, 0),
        }
    }
}

/// Turning right then left, or left then right, gives back the original
/// facing, and four turns in one sense make a full circle.
pub proof fn lemma_turns_cancel(d: Direction)
    ensures
        d.right_of().left_of() == d,
        d.left_of().right_of() == d,
        d.right_of().right_of().right_of().right_of() == d,
        d.left_of().left_of().left_of().left_of() == d,
{
}

/// A block coordinate; `y` is the vertical axis.
#[derive(Debug, Clone, Copy, PartialEq, Eq, Hash, Structural)]
pub struct Position {
    pub x: i32,
    pub y: i32,
    pub z: i32,
}

/// Whether an integer fits in an `i32`.
pub open spec fn fits_i32(v: int) -> bool {
    i32::MIN <= v <= i32::MAX
}

impl Position {
    /// Whether the neighbour `(x + dx, y + dy, z + dz)` is representable.
    pub open spec fn can_shift(self, dx: int, dy: int, dz: int) -> bool {
        fits_i32(self.x + dx) && fits_i32(self.y + dy) && fits_i32(self.z + dz)
    }

    /// The neighbour `(x + dx, y + dy, z + dz)`.
    pub open spec fn shifted(self, dx: int, dy: int, dz: int) -> Position {
        Position { x: (self.x + dx) as i32, y: (self.y + dy) as i32, z: (self.z + dz) as i32 }
    }

    pub open spec fn can_forward(self, d: Direction) -> bool {
        self.can_shift(d.dx(), 0, d.dz())
    }

    pub open spec fn can_back(self, d: Direction) -> bool {
        self.can_shift(-d.dx(), 0, -d.dz())
    }

    pub open spec fn can_up(self) -> bool {
        self.can_shift(0, 1, 0)
    }

    pub open spec fn can_down(self) -> bool {
        self.can_shift(0, -1, 0)
    }

    pub open spec fn forward_of(self, d: Direction) -> Position {
        self.shifted(d.dx(), 0, d.dz())
    }

    pub open spec fn back_of(self, d: Direction) -> Position {
        self.shifted(-d.dx(), 0, -d.dz())
    }

    pub open spec fn up_of(self) -> Position {
        self.shifted(0, 1, 0)
    }

    pub open spec fn down_of(self) -> Position {
        self.shifted(0, -1, 0)
    }

    /// Whether one step in `direction` stays representable.
    pub fn fits_forward(self, direction: Direction) -> (r: bool)
        ensures
            r == self.can_forward(direction),
    {
        let (dx, dz) = direction.offset();
        (self.x as i64 + dx as i64) >= i32::MIN as i64 && (self.x as i64 + dx as i64) <= i32::MAX as i64
            && (self.z as i64 + dz as i64) >= i32::MIN as i64 && (self.z as i64 + dz as i64) <= i32::MAX as i64
    }

    /// Whether one step against `direction` stays representable.
    pub fn fits_back(self, direction: Direction) -> (r: bool)
        ensures
            r == self.can_back(direction),
    {
        let (dx, dz) = direction.offset();
        (self.x as i64 - dx as i64) >= i32::MIN as i64 && (self.x as i64 - dx as i64) <= i32::MAX as i64
            && (self.z as i64 - dz as i64) >= i32::MIN as i64 && (self.z as i64 - dz as i64) <= i32::MAX as i64
    }

    /// Whether one step up stays representable.
    pub fn fits_up(self) -> (r: bool)
        ensures
            r == self.can_up(),
    {
        self.y < i32::MAX
    }

    /// Whether one step down stays representable.
    pub fn fits_down(self) -> (r: bool)
        ensures
            r == self.can_down(),
    {
        self.y > i32::MIN
    }

    pub fn new(x: i32, y: i32, z: i32) -> (r: Position)
        ensures
            r == (Position { x, y, z }),
    {
        Position { x, y, z }
    }

    /// The neighbouring position one step in `direction`.
    pub fn forward(self, direction: Direction) -> (r: Position)
        requires
            self.can_forward(direction),
        ensures
            r == self.forward_of(direction),
    {
        let (dx, dz) = direction.offset();
        Position { x: self.x + dx, y: self.y, z: self.z + dz }
    }

    /// The neighbouring position one step against `direction`.
    pub fn back(self, direction: Direction) -> (r: Position)
        requires
            self.can_back(direction),
        ensures
            r == self.back_of(direction),
    {
        let (dx, dz) = direction.offset();
        Position { x: self.x - dx, y: self.y, z: self.z - dz }
    }

    /// The position directly above.
    pub fn up(self) -> (r: Position)
        requires
            self.can_up(),
        ensures
            r == self.up_of(),
    {
        Position { x: self.x, y: self.y + 1, z: self.z }
    }

    /// The position directly below.
    pub fn down(self) -> (r: Position)
        requires
            self.can_down(),
        ensures
            r == self.down_of(),
    {
        Position { x: self.x, y: self.y - 1, z: self.z }
    }
}

/// A coordinate moved from `i32` into `[0, 2^32)`, order kept.
pub open spec fn coord_bits(v: i32) -> u128 {
    (v as int + 0x8000_0000) as u128
}

/// The hash key of a position: its three shifted coordinates side by side.
pub open spec fn position_key(p: Position) -> u128 {
    (coord_bits(p.x) << 64u128) | (coord_bits(p.y) << 32u128) | coord_bits(p.z)
}

/// Different positions have different keys.
pub proof fn lemma_position_key_injective(p: Position, q: Position)
    requires
        position_key(p) == position_key(q),
    ensures
        p == q,
{
    let (a, b, c) = (coord_bits(p.x), coord_bits(p.y), coord_bits(p.z));
    let (d, e, f) = (coord_bits(q.x), coord_bits(q.y), coord_bits(q.z));
    assert(a == d && b == e && c == f) by (bit_vector)
        requires
            a < 0x1_0000_0000u128,
            b < 0x1_0000_0000u128,
            c < 0x1_0000_0000u128,
            d < 0x1_0000_0000u128,
            e < 0x1_0000_0000u128,
            f < 0x1_0000_0000u128,
            ((a << 64u128) | (b << 32u128) | c) == ((d << 64u128) | (e << 32u128) | f),
    ;
}

pub(crate) fn key_of(p: Position) -> (r: u128)
    ensures
        r == position_key(p),
{
    let a: u128 = (p.x as i64 + 0x8000_0000) as u128;
    let b: u128 = (p.y as i64 + 0x8000_0000) as u128;
    let c: u128 = (p.z as i64 + 0x8000_0000) as u128;
    (a << 64u128) | (b << 32u128) | c
}

/// The block identity at `p` in a world whose stored entries are `m`:
/// absent positions hold air.
pub open spec fn block_in(m: Map<Position, Seq<char>>, p: Position) -> Seq<char> {
    if m.contains_key(p) {
        m[p]
    } else {
        air_id()
    }
}

/// The stored entries after writing `id` at `p`: air removes the entry.
pub open spec fn with_block(m: Map<Position, Seq<char>>, p: Position, id: Seq<char>) -> Map<
    Position,
    Seq<char>,
> {
    if id == air_id() {
        m.remove(p)
    } else {
        m.insert(p, id)
    }
}

/// Sparse block store: only positions holding something other than air have
/// an entry.
#[derive(Debug)]
pub struct World {
    blocks: HashMap<u128, Block>,
}

impl View for World {
    type V = Map<Position, Seq<char>>;

    closed spec fn view(&self) -> Map<Position, Seq<char>> {
        Map::new(
            |p: Position| self.blocks@.contains_key(position_key(p)),
            |p: Position| self.blocks@[position_key(p)]@,
        )
    }
}

impl World {
    /// No stored entry is air.
    pub open spec fn holds_no_air(&self) -> bool {
        forall|p: Position| #[trigger] self@.contains_key(p) ==> self@[p] != air_id()
    }

    /// The block identity at `p`.
    pub open spec fn block_at(&self, p: Position) -> Seq<char> {
        block_in(self@, p)
    }

    pub fn new() -> (r: World)
        ensures
            r@ == Map::<Position, Seq<char>>::empty(),
            r.holds_no_air(),
    {
        let r = World { blocks: HashMap::new() };
        assert(r@ =~= Map::<Position, Seq<char>>::empty());
        r
    }

    pub fn get_block(&self, position: Position) -> (r: Block)
        ensures
            r@ == self.block_at(position),
    {
        match self.blocks.get(&key_of(position)) {
            Some(b) => b.clone(),
            None => Block { id: BlockId::air() },
        }
    }

    pub fn set_block(&mut self, position: Position, block: Block)
        ensures
            final(self)@ == with_block(old(self)@, position, block@),
            old(self).holds_no_air() ==> final(self).holds_no_air(),
    {
        let air = BlockId::air();
        let k = key_of(position);
        let ghost old_view = self@;
        if block.id == air {
            self.blocks.remove(&k);
        } else {
            self.blocks.insert(k, block);
        }
        let ghost expected = with_block(old_view, position, block@);
        assert forall|p: Position|
            (#[trigger] self@.contains_key(p) <==> expected.contains_key(p)) && (self@.contains_key(
                p,
            ) ==> self@[p] == expected[p]) by {
            if position_key(p) == k {
                lemma_position_key_injective(p, position);
            }
        }
        assert(self@ =~= with_block(old_view, position, block@));
    }

    pub fn is_solid(&self, position: Position) -> (r: bool)
        ensures
            r == Block::solid(self.block_at(position)),
    {
        self.get_block(position).is_solid()
    }

    pub fn can_dig(&self, position: Position) -> (r: bool)
        ensures
            r == Block::diggable(self.block_at(position)),
    {
        self.get_block(position).is_diggable()
    }
}

impl Default for World {
    fn default() -> (r: World)
        ensures
            r@ == Map::<Position, Seq<char>>::empty(),
    {
        World::new()
    }
}

/// A position that was never written reads as air, and writing air over a
/// block leaves the world as if that position had never been written.
pub proof fn lemma_unset_reads_air(m: Map<Position, Seq<char>>, p: Position, id: Seq<char>)
    requires
        !m.contains_key(p),
    ensures
        block_in(m, p) == air_id(),
        with_block(with_block(m, p, id), p, air_id()) == m,
{
    assert(with_block(with_block(m, p, id), p, air_id()) =~= m);
}

} // verus!
