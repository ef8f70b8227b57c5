//! Block identities and blocks.

use vstd::prelude::*;

verus! {

/// Whether two texts hold the same characters.
pub(crate) fn same_text(a: &str, b: &str) -> (r: bool)
    ensures
        r == (a@ == b@),
{
    let a_owned = a.to_owned();
    let b_owned = b.to_owned();
    a_owned == b_owned
}

pub open spec fn air_id() -> Seq<char> {
    "minecraft:air"@
}

pub open spec fn bedrock_id() -> Seq<char> {
    "minecraft:bedrock"@
}

pub open spec fn grass_block_id() -> Seq<char> {
    "minecraft:grass_block"@
}

pub open spec fn dirt_id() -> Seq<char> {
    "minecraft:dirt"@
}

pub open spec fn farmland_id() -> Seq<char> {
    "minecraft:farmland"@
}

pub open spec fn stone_id() -> Seq<char> {
    "minecraft:stone"@
}

/// The well-known block identities are pairwise different.
pub proof fn lemma_well_known_ids_distinct()
    ensures
        air_id() != bedrock_id(),
        air_id() != grass_block_id(),
        air_id() != dirt_id(),
        air_id() != farmland_id(),
        air_id() != stone_id(),
        bedrock_id() != grass_block_id(),
        bedrock_id() != dirt_id(),
        bedrock_id() != farmland_id(),
        bedrock_id() != stone_id(),
        grass_block_id() != dirt_id(),
        grass_block_id() != farmland_id(),
        grass_block_id() != stone_id(),
        dirt_id() != farmland_id(),
        dirt_id() != stone_id(),
        farmland_id() != stone_id(),
{
    reveal_strlit("minecraft:air");
    reveal_strlit("minecraft:bedrock");
    reveal_strlit("minecraft:grass_block");
    reveal_strlit("minecraft:dirt");
    reveal_strlit("minecraft:farmland");
    reveal_strlit("minecraft:stone");
    assert(air_id()[10] != bedrock_id()[10]);
    assert(air_id()[10] != grass_block_id()[10]);
    assert(air_id()[10] != dirt_id()[10]);
    assert(air_id()[10] != farmland_id()[10]);
    assert(air_id()[10] != stone_id()[10]);
    assert(bedrock_id()[10] != grass_block_id()[10]);
    assert(bedrock_id()[10] != dirt_id()[10]);
    assert(bedrock_id()[10] != farmland_id()[10]);
    assert(bedrock_id()[10] != stone_id()[10]);
    assert(grass_block_id()[10] != dirt_id()[10]);
    assert(grass_block_id()[10] != farmland_id()[10]);
    assert(grass_block_id()[10] != stone_id()[10]);
    assert(dirt_id()[10] != farmland_id()[10]);
    assert(dirt_id()[10] != stone_id()[10]);
    assert(farmland_id()[10] != stone_id()[10]);
}

/// The identity of a block kind, compared by its text whatever its storage.
#[derive(Debug)]
pub enum BlockId {
    Static(&'static str),
    Owned(String),
}

impl View for BlockId {
    type V = Seq<char>;

    open spec fn view(&self) -> Seq<char> {
        match self {
            BlockId::Static(s) => s@,
            BlockId::Owned(s) => s@,
        }
    }
}

impl BlockId {
    pub fn new_static(id: &'static str) -> (r: BlockId)
        ensures
            r@ == id@,
    {
        BlockId::Static(id)
    }

    pub fn new(id: &str) -> (r: BlockId)
        ensures
            r@ == id@,
    {
        BlockId::Owned(id.to_owned())
    }

    pub fn as_str(&self) -> (r: &str)
        ensures
            r@ == self@,
    {
        match self {
            BlockId::Static(s) => s,
            BlockId::Owned(s) => s.as_str(),
        }
    }

    pub fn air() -> (r: BlockId)
        ensures
            r@ == air_id(),
    {
        BlockId::Static("minecraft:air")
    }

    pub fn bedrock() -> (r: BlockId)
        ensures
            r@ == bedrock_id(),
    {
        BlockId::Static("minecraft:bedrock")
    }

    pub fn grass_block() -> (r: BlockId)
        ensures
            r@ == grass_block_id(),
    {
        BlockId::Static("minecraft:grass_block")
    }

    pub fn dirt() -> (r: BlockId)
        ensures
            r@ == dirt_id(),
    {
        BlockId::Static("minecraft:dirt")
    }

    pub fn farmland() -> (r: BlockId)
        ensures
            r@ == farmland_id(),
    {
        BlockId::Static("minecraft:farmland")
    }

    pub fn stone() -> (r: BlockId)
        ensures
            r@ == stone_id(),
    {
        BlockId::Static("minecraft:stone")
    }
}

impl Clone for BlockId {
    fn clone(&self) -> (r: BlockId)
        ensures
            r@ == self@,
    {
        match self {
            BlockId::Static(s) => BlockId::Static(*s),
            BlockId::Owned(s) => BlockId::Owned(s.clone()),
        }
    }
}

impl PartialEq for BlockId {
    fn eq(&self, other: &BlockId) -> (r: bool) {
        same_text(self.as_str(), other.as_str())
    }
}

impl vstd::std_specs::cmp::PartialEqSpecImpl for BlockId {
    open spec fn obeys_eq_spec() -> bool {
        true
    }

    open spec fn eq_spec(&self, other: &BlockId) -> bool {
        self@ == other@
    }
}

impl Eq for BlockId {
}

/// A block of the world, known by its identity.
#[derive(Debug)]
pub struct Block {
    pub id: BlockId,
}

impl View for Block {
    type V = Seq<char>;

    open spec fn view(&self) -> Seq<char> {
        self.id@
    }
}

impl Block {
    /// Solid means anything but air.
    pub open spec fn solid(id: Seq<char>) -> bool {
        id != air_id()
    }

    /// Diggable means neither air nor bedrock.
    pub open spec fn diggable(id: Seq<char>) -> bool {
        id != air_id() && id != bedrock_id()
    }

    pub fn is_solid(&self) -> (r: bool)
        ensures
            r == Block::solid(self@),
    {
        let air = BlockId::air();
        !same_text(self.id.as_str(), air.as_str())
    }

    pub fn is_diggable(&self) -> (r: bool)
        ensures
            r == Block::diggable(self@),
    {
        let air = BlockId::air();
        let bedrock = BlockId::bedrock();
        !same_text(self.id.as_str(), air.as_str()) && !same_text(self.id.as_str(), bedrock.as_str())
    }
}

impl Clone for Block {
    fn clone(&self) -> (r: Block)
        ensures
            r@ == self@,
    {
        Block { id: self.id.clone() }
    }
}

impl PartialEq for Block {
    fn eq(&self, other: &Block) -> (r: bool) {
        same_text(self.id.as_str(), other.id.as_str())
    }
}

impl vstd::std_specs::cmp::PartialEqSpecImpl for Block {
    open spec fn obeys_eq_spec() -> bool {
        true
    }

    open spec fn eq_spec(&self, other: &Block) -> bool {
        self@ == other@
    }
}

impl Eq for Block {
}

} // verus!
