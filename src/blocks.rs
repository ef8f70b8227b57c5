//! The well-known blocks.

use vstd::prelude::*;

use crate::block::{air_id, bedrock_id, dirt_id, farmland_id, grass_block_id, stone_id, Block, BlockId};

verus! {

pub fn air() -> (r: Block)
    ensures
        r@ == air_id(),
{
    Block { id: BlockId::air() }
}

pub fn bedrock() -> (r: Block)
    ensures
        r@ == bedrock_id(),
{
    Block { id: BlockId::bedrock() }
}

pub fn grass_block() -> (r: Block)
    ensures
        r@ == grass_block_id(),
{
    Block { id: BlockId::grass_block() }
}

pub fn dirt() -> (r: Block)
    ensures
        r@ == dirt_id(),
{
    Block { id: BlockId::dirt() }
}

pub fn farmland() -> (r: Block)
    ensures
        r@ == farmland_id(),
{
    Block { id: BlockId::farmland() }
}

pub fn stone() -> (r: Block)
    ensures
        r@ == stone_id(),
{
    Block { id: BlockId::stone() }
}

} // verus!
