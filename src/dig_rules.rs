//! The table that decides what a tool does to a block when digging.
//!
//! A tool that appears in the table is specialised: it acts only on the
//! blocks listed with it, turning each into the listed result. A tool that
//! does not appear acts on every diggable block and clears it to air.

use vstd::prelude::*;

use crate::block::{air_id, BlockId};
use crate::item::ItemId;

verus! {

/// `tool` acting on `block` turns it into `result`.
#[derive(Debug)]
pub struct DigRule {
    pub tool: ItemId,
    pub block: BlockId,
    pub result: BlockId,
}

impl View for DigRule {
    type V = (Seq<char>, Seq<char>, Seq<char>);

    open spec fn view(&self) -> (Seq<char>, Seq<char>, Seq<char>) {
        (self.tool@, self.block@, self.result@)
    }
}

/// Whether `tool` is listed in `rules`.
pub open spec fn is_specialised(rules: Seq<(Seq<char>, Seq<char>, Seq<char>)>, tool: Seq<char>) -> bool {
    exists|j: int| 0 <= j < rules.len() && (#[trigger] rules[j]).0 == tool
}

/// The result of the first rule at or after `i` that pairs `tool` with `block`.
pub open spec fn first_match(
    rules: Seq<(Seq<char>, Seq<char>, Seq<char>)>,
    tool: Seq<char>,
    block: Seq<char>,
    i: int,
) -> Option<Seq<char>>
    decreases rules.len() - i,
{
    if i < 0 || i >= rules.len() {
        None
    } else if rules[i].0 == tool && rules[i].1 == block {
        Some(rules[i].2)
    } else {
        first_match(rules, tool, block, i + 1)
    }
}

/// What `block` becomes when `tool` digs it, or `None` when the tool cannot
/// act on it.
pub open spec fn dig_transform(
    rules: Seq<(Seq<char>, Seq<char>, Seq<char>)>,
    tool: Seq<char>,
    block: Seq<char>,
) -> Option<Seq<char>> {
    if is_specialised(rules, tool) {
        first_match(rules, tool, block, 0)
    } else {
        Some(air_id())
    }
}

/// An ordered list of dig rules; the first matching rule wins.
#[derive(Debug)]
pub struct DigRules {
    pub rules: Vec<DigRule>,
}

impl View for DigRules {
    type V = Seq<(Seq<char>, Seq<char>, Seq<char>)>;

    open spec fn view(&self) -> Seq<(Seq<char>, Seq<char>, Seq<char>)> {
        self.rules@.map_values(|r: DigRule| r@)
    }
}

/// Text of the hoe that tills soil.
pub open spec fn diamond_hoe_id() -> Seq<char> {
    "minecraft:diamond_hoe"@
}

/// The rules in force by default: a diamond hoe tills grass and dirt into
/// farmland and acts on nothing else; every other tool clears blocks.
pub open spec fn standard_rules() -> Seq<(Seq<char>, Seq<char>, Seq<char>)> {
    seq![
        (diamond_hoe_id(), crate::block::grass_block_id(), crate::block::farmland_id()),
        (diamond_hoe_id(), crate::block::dirt_id(), crate::block::farmland_id()),
    ]
}

impl DigRules {
    pub fn new() -> (r: DigRules)
        ensures
            r@ == Seq::<(Seq<char>, Seq<char>, Seq<char>)>::empty(),
    {
        let r = DigRules { rules: Vec::new() };
        assert(r@ =~= Seq::<(Seq<char>, Seq<char>, Seq<char>)>::empty());
        r
    }

    /// Appends a rule, which loses to every rule already present.
    pub fn add(&mut self, tool: ItemId, block: BlockId, result: BlockId)
        ensures
            final(self)@ == old(self)@.push((tool@, block@, result@)),
    {
        let rule = DigRule { tool, block, result };
        self.rules.push(rule);
        assert(self@ =~= old(self)@.push((tool@, block@, result@)));
    }

    /// The table of [`standard_rules`].
    pub fn standard() -> (r: DigRules)
        ensures
            r@ == standard_rules(),
    {
        let mut r = DigRules::new();
        r.add(ItemId::new_static("minecraft:diamond_hoe"), BlockId::grass_block(), BlockId::farmland());
        r.add(ItemId::new_static("minecraft:diamond_hoe"), BlockId::dirt(), BlockId::farmland());
        assert(r@ =~= standard_rules());
        r
    }

    /// What `block` becomes when `tool` digs it; `None` when the tool cannot
    /// act on it.
    pub fn transform(&self, tool: &ItemId, block: &BlockId) -> (r: Option<BlockId>)
        ensures
            match r {
                Some(b) => dig_transform(self@, tool@, block@) == Some(b@),
                None => dig_transform(self@, tool@, block@) is None,
            },
    {
        let mut i: usize = 0;
        let mut specialised = false;
        while i < self.rules.len()
            invariant
                0 <= i <= self.rules.len(),
                specialised == exists|j: int| 0 <= j < i && (#[trigger] self@[j]).0 == tool@,
                first_match(self@, tool@, block@, 0) == first_match(self@, tool@, block@, i as int),
            decreases self.rules.len() - i,
        {
            let rule = &self.rules[i];
            assert(self@[i as int] == rule@);
            if rule.tool == *tool {
                specialised = true;
                if rule.block == *block {
                    return Some(rule.result.clone());
                }
            }
            i = i + 1;
        }
        if specialised {
            None
        } else {
            Some(BlockId::air())
        }
    }
}

} // verus!
