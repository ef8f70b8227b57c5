//! Item identities and stacks of items.

use vstd::prelude::*;

use crate::block::same_text;

verus! {

/// The most items one inventory slot holds.
pub const MAX_STACK_SIZE: u32 = 64;

/// The identity of an item kind, compared by its text whatever its storage.
#[derive(Debug)]
pub enum ItemId {
    Static(&'static str),
    Owned(String),
}

impl View for ItemId {
    type V = Seq<char>;

    open spec fn view(&self) -> Seq<char> {
        match self {
            ItemId::Static(s) => s@,
            ItemId::Owned(s) => s@,
        }
    }
}

impl ItemId {
    pub fn new_static(id: &'static str) -> (r: ItemId)
        ensures
            r@ == id@,
    {
        ItemId::Static(id)
    }

    pub fn new(id: &str) -> (r: ItemId)
        ensures
            r@ == id@,
    {
        ItemId::Owned(id.to_owned())
    }

    pub fn as_str(&self) -> (r: &str)
        ensures
            r@ == self@,
    {
        match self {
            ItemId::Static(s) => s,
            ItemId::Owned(s) => s.as_str(),
        }
    }
}

impl Clone for ItemId {
    fn clone(&self) -> (r: ItemId)
        ensures
            r@ == self@,
    {
        match self {
            ItemId::Static(s) => ItemId::Static(*s),
            ItemId::Owned(s) => ItemId::Owned(s.clone()),
        }
    }
}

impl PartialEq for ItemId {
    fn eq(&self, other: &ItemId) -> (r: bool) {
        same_text(self.as_str(), other.as_str())
    }
}

impl vstd::std_specs::cmp::PartialEqSpecImpl for ItemId {
    open spec fn obeys_eq_spec() -> bool {
        true
    }

    open spec fn eq_spec(&self, other: &ItemId) -> bool {
        self@ == other@
    }
}

impl Eq for ItemId {
}

/// A number of items of one kind held in a slot.
#[derive(Debug)]
pub struct ItemStack {
    pub name: ItemId,
    pub count: u32,
}

impl ItemStack {
    /// Room left in a stack holding `count` items, never below zero.
    pub open spec fn space_for(count: u32) -> u32 {
        if count >= MAX_STACK_SIZE {
            0
        } else {
            (MAX_STACK_SIZE - count) as u32
        }
    }

    pub fn new(name: ItemId, count: u32) -> (r: ItemStack)
        ensures
            r.name@ == name@,
            r.count == count,
    {
        ItemStack { name, count }
    }

    pub fn is_empty(&self) -> (r: bool)
        ensures
            r == (self.count == 0),
    {
        self.count == 0
    }

    pub fn max_stack_size(&self) -> (r: u32)
        ensures
            r == MAX_STACK_SIZE,
    {
        MAX_STACK_SIZE
    }

    pub fn space_left(&self) -> (r: u32)
        ensures
            r == ItemStack::space_for(self.count),
    {
        self.max_stack_size().saturating_sub(self.count)
    }
}

impl Clone for ItemStack {
    fn clone(&self) -> (r: ItemStack)
        ensures
            r.name@ == self.name@,
            r.count == self.count,
    {
        ItemStack { name: self.name.clone(), count: self.count }
    }
}

impl PartialEq for ItemStack {
    fn eq(&self, other: &ItemStack) -> (r: bool) {
        self.name == other.name && self.count == other.count
    }
}

impl vstd::std_specs::cmp::PartialEqSpecImpl for ItemStack {
    open spec fn obeys_eq_spec() -> bool {
        true
    }

    open spec fn eq_spec(&self, other: &ItemStack) -> bool {
        self.name@ == other.name@ && self.count == other.count
    }
}

impl Eq for ItemStack {
}

} // verus!
