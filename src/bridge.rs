//! The session shared by every callable that a script host exposes, and the
//! uniform `(success, payload)` replies those callables return.

use vstd::prelude::*;
use vstd::string::*;

use crate::block::Block;
use crate::dig_rules::standard_rules;
use crate::turtle::{
    dig_verdict, InspectData, InteractDirection, ItemDetail, Turtle, TurtleDigError,
    TurtleInspectError, TurtleKind, TurtleMoveError, TurtlePlaceError, TurtleSide,
};
use crate::world::{with_block, Direction, Position, World};

verus! {

/// A plain success: `(true, nothing)`.
pub open spec fn is_ok_reply(reply: (bool, Option<String>)) -> bool {
    reply.0 && reply.1 is None
}

/// A failure carrying `reason`.
pub open spec fn is_error_reply(reply: (bool, Option<String>), reason: Seq<char>) -> bool {
    !reply.0 && reply.1 is Some && reply.1->0@ == reason
}

/// Conversion of an operation's result into the reply a script receives.
pub trait TurtleResultExt<T>: Sized {
    /// Whether `reply` is the reply for `self`.
    spec fn is_reply_for(&self, reply: (bool, T)) -> bool;

    fn to_lua_result(self) -> (r: (bool, T))
        ensures
            self.is_reply_for(r),
    ;
}

impl TurtleResultExt<Option<String>> for Result<(), TurtleMoveError> {
    open spec fn is_reply_for(&self, reply: (bool, Option<String>)) -> bool {
        match self {
            Ok(_) => is_ok_reply(reply),
            Err(e) => is_error_reply(reply, e.text()),
        }
    }

    fn to_lua_result(self) -> (r: (bool, Option<String>)) {
        match self {
            Ok(_) => (true, None),
            Err(err) => (false, Some(err.message().to_owned())),
        }
    }
}

impl TurtleResultExt<Option<String>> for Result<(), TurtleDigError> {
    open spec fn is_reply_for(&self, reply: (bool, Option<String>)) -> bool {
        match self {
            Ok(_) => is_ok_reply(reply),
            Err(e) => is_error_reply(reply, e.text()),
        }
    }

    fn to_lua_result(self) -> (r: (bool, Option<String>)) {
        match self {
            Ok(_) => (true, None),
            Err(err) => (false, Some(err.message().to_owned())),
        }
    }
}

impl TurtleResultExt<Option<String>> for Result<(), TurtlePlaceError> {
    open spec fn is_reply_for(&self, reply: (bool, Option<String>)) -> bool {
        match self {
            Ok(_) => is_ok_reply(reply),
            Err(e) => is_error_reply(reply, e.text()),
        }
    }

    fn to_lua_result(self) -> (r: (bool, Option<String>)) {
        match self {
            Ok(_) => (true, None),
            Err(err) => (false, Some(err.message().to_owned())),
        }
    }
}

/// The payload of an inspection reply: the block's data, or why there is none.
#[derive(Debug)]
pub enum InspectDataOrReason {
    Data(InspectData),
    Reason(String),
}

impl TurtleResultExt<InspectDataOrReason> for Result<InspectData, TurtleInspectError> {
    open spec fn is_reply_for(&self, reply: (bool, InspectDataOrReason)) -> bool {
        match self {
            Ok(data) => reply.0 && reply.1 == InspectDataOrReason::Data(*data),
            Err(e) => !reply.0 && match reply.1 {
                InspectDataOrReason::Reason(text) => text@ == e.text(),
                InspectDataOrReason::Data(_) => false,
            },
        }
    }

    fn to_lua_result(self) -> (r: (bool, InspectDataOrReason)) {
        match self {
            Ok(data) => (true, InspectDataOrReason::Data(data)),
            Err(err) => (false, InspectDataOrReason::Reason(err.message().to_owned())),
        }
    }
}

/// The reply for a digging verdict.
pub open spec fn is_dig_reply(verdict: Result<Seq<char>, TurtleDigError>, reply: (bool, Option<String>)) -> bool {
    match verdict {
        Ok(_) => is_ok_reply(reply),
        Err(e) => is_error_reply(reply, e.text()),
    }
}

/// The stored entries of `m` after a dig at `target` with `verdict`.
pub open spec fn world_after_dig(
    m: Map<Position, Seq<char>>,
    target: Position,
    verdict: Result<Seq<char>, TurtleDigError>,
) -> Map<Position, Seq<char>> {
    match verdict {
        Ok(id) => with_block(m, target, id),
        Err(_) => m,
    }
}

/// The zero-based slot that a script's one-based `slot` names, the selected
/// slot when absent.
pub open spec fn script_slot(slot: Option<i32>, selected: usize) -> int {
    match slot {
        Some(s) => s - 1,
        None => selected as int,
    }
}

/// The file, relative to the script root, that holds the module called
/// `name`: each `.` becomes a `/`, and `.lua` is appended.
pub open spec fn module_file(name: Seq<char>) -> Seq<char> {
    name.map_values(|c: char| if c == '.' { '/' } else { c }) + ".lua"@
}

/// The file, relative to the script root, that holds the module `module_name`.
pub fn module_file_path(module_name: &str) -> (r: String)
    ensures
        r@ == module_file(module_name@),
{
    let n = module_name.unicode_len();
    let mut path = String::new();
    let mut i: usize = 0;
    while i < n
        invariant
            n == module_name@.len(),
            0 <= i <= n,
            path@ == module_name@.subrange(0, i as int).map_values(
                |c: char| if c == '.' { '/' } else { c },
            ),
        decreases n - i,
    {
        let c = module_name.get_char(i);
        if c == '.' {
            path.append("/");
            proof {
                reveal_strlit("/");
            }
        } else {
            let piece = module_name.substring_char(i, i + 1);
            path.append(piece);
        }
        assert(path@ =~= module_name@.subrange(0, i + 1).map_values(
            |c: char| if c == '.' { '/' } else { c },
        ));
        i = i + 1;
    }
    path.append(".lua");
    assert(module_name@.subrange(0, n as int) =~= module_name@);
    path
}

/// The error text for a module that could not be read: it names the module
/// and the cause.
pub open spec fn not_found_text(module_name: Seq<char>, cause: Seq<char>) -> Seq<char> {
    "Module '"@ + module_name + "' not found: "@ + cause
}

/// The error text for a module that could not be read.
pub fn module_not_found_message(module_name: &str, cause: &str) -> (r: String)
    ensures
        r@ == not_found_text(module_name@, cause@),
{
    let mut text = String::from_str("Module '");
    text.append(module_name);
    text.append("' not found: ");
    text.append(cause);
    text
}

/// The state of one simulation session: the script root, the world and the
/// turtle.
#[derive(Debug)]
pub struct SimulatorState {
    pub script_root: String,
    pub world: World,
    pub turtle: Turtle,
}

impl SimulatorState {
    pub open spec fn root(&self) -> Seq<char> {
        self.script_root@
    }

    /// Everything but the turtle is unchanged from `other`.
    pub open spec fn same_world_and_root(&self, other: &SimulatorState) -> bool {
        self.world@ == other.world@ && self.root() == other.root()
    }

    /// An empty world and an advanced turtle at the origin facing north.
    pub fn new() -> (r: SimulatorState)
        ensures
            r.root() == Seq::<char>::empty(),
            r.world@ == Map::<Position, Seq<char>>::empty(),
            r.world.holds_no_air(),
            r.turtle.position == (Position { x: 0, y: 0, z: 0 }),
            r.turtle.position_history@ == seq![Position { x: 0, y: 0, z: 0 }],
            r.turtle.facing == Direction::North,
            r.turtle.kind == TurtleKind::Advanced,
            r.turtle.fuel == TurtleKind::Advanced.limit(),
            forall|i: int| 0 <= i < 16 ==> r.turtle.inventory[i] is None,
            r.turtle.selected_slot == 0,
            r.turtle.left_upgrade is None,
            r.turtle.right_upgrade is None,
    {
        SimulatorState {
            script_root: String::new(),
            world: World::new(),
            turtle: Turtle::new(Position::new(0, 0, 0), Direction::North, TurtleKind::Advanced),
        }
    }

    pub fn script_root(&self) -> (r: &str)
        ensures
            r@ == self.root(),
    {
        self.script_root.as_str()
    }

    /// Sets the directory that modules are resolved against.
    pub fn set_script_root(&mut self, root: String)
        ensures
            final(self).root() == root@,
            final(self).world == old(self).world,
            final(self).turtle == old(self).turtle,
    {
        self.script_root = root;
    }

    pub fn block_at(&self, position: Position) -> (r: Block)
        ensures
            r@ == self.world.block_at(position),
    {
        self.world.get_block(position)
    }

    /// Puts `block` at `position`.
    pub fn set_block_at(&mut self, position: Position, block: Block)
        ensures
            final(self).world@ == crate::world::with_block(old(self).world@, position, block@),
            final(self).turtle == old(self).turtle,
            final(self).root() == old(self).root(),
    {
        self.world.set_block(position, block);
    }

    /// Teleports the turtle; the history is not extended.
    pub fn move_turtle_to(&mut self, position: Position)
        ensures
            final(self).turtle.position == position,
            final(self).turtle.position_history@ == old(self).turtle.position_history@,
            final(self).turtle.fuel == old(self).turtle.fuel,
            final(self).turtle.same_gear(&old(self).turtle),
            final(self).same_world_and_root(old(self)),
    {
        self.turtle.position = position;
    }

    pub fn forward(&mut self) -> (r: (bool, Option<String>))
        requires
            old(self).turtle.position.can_forward(old(self).turtle.facing),
        ensures
            ({
                let target = old(self).turtle.position.forward_of(old(self).turtle.facing);
                &&& Turtle::move_result(&old(self).turtle, &old(self).world, target).is_reply_for(r)
                &&& Turtle::move_step(&old(self).turtle, &final(self).turtle, &old(self).world, target)
            }),
            final(self).same_world_and_root(old(self)),
    {
        let result = self.turtle.forward(&self.world);
        result.to_lua_result()
    }

    pub fn back(&mut self) -> (r: (bool, Option<String>))
        requires
            old(self).turtle.position.can_back(old(self).turtle.facing),
        ensures
            ({
                let target = old(self).turtle.position.back_of(old(self).turtle.facing);
                &&& Turtle::move_result(&old(self).turtle, &old(self).world, target).is_reply_for(r)
                &&& Turtle::move_step(&old(self).turtle, &final(self).turtle, &old(self).world, target)
            }),
            final(self).same_world_and_root(old(self)),
    {
        let result = self.turtle.back(&self.world);
        result.to_lua_result()
    }

    pub fn up(&mut self) -> (r: (bool, Option<String>))
        requires
            old(self).turtle.position.can_up(),
        ensures
            ({
                let target = old(self).turtle.position.up_of();
                &&& Turtle::move_result(&old(self).turtle, &old(self).world, target).is_reply_for(r)
                &&& Turtle::move_step(&old(self).turtle, &final(self).turtle, &old(self).world, target)
            }),
            final(self).same_world_and_root(old(self)),
    {
        let result = self.turtle.up(&self.world);
        result.to_lua_result()
    }

    pub fn down(&mut self) -> (r: (bool, Option<String>))
        requires
            old(self).turtle.position.can_down(),
        ensures
            ({
                let target = old(self).turtle.position.down_of();
                &&& Turtle::move_result(&old(self).turtle, &old(self).world, target).is_reply_for(r)
                &&& Turtle::move_step(&old(self).turtle, &final(self).turtle, &old(self).world, target)
            }),
            final(self).same_world_and_root(old(self)),
    {
        let result = self.turtle.down(&self.world);
        result.to_lua_result()
    }

    pub fn turn_left(&mut self) -> (r: (bool, Option<String>))
        ensures
            is_ok_reply(r),
            final(self).turtle.facing == old(self).turtle.facing.left_of(),
            final(self).turtle.same_but_facing(&old(self).turtle),
            final(self).same_world_and_root(old(self)),
    {
        self.turtle.turn_left();
        (true, None)
    }

    pub fn turn_right(&mut self) -> (r: (bool, Option<String>))
        ensures
            is_ok_reply(r),
            final(self).turtle.facing == old(self).turtle.facing.right_of(),
            final(self).turtle.same_but_facing(&old(self).turtle),
            final(self).same_world_and_root(old(self)),
    {
        self.turtle.turn_right();
        (true, None)
    }

    /// Digs in front with the tool on the right mount.
    pub fn dig(&mut self) -> (r: (bool, Option<String>))
        requires
            old(self).turtle.can_reach(InteractDirection::Forward),
        ensures
            ({
                let target = old(self).turtle.aim(InteractDirection::Forward);
                let verdict = dig_verdict(
                    old(self).world.block_at(target),
                    old(self).turtle.tool_on(TurtleSide::Right),
                    standard_rules(),
                );
                &&& is_dig_reply(verdict, r)
                &&& final(self).world@ == world_after_dig(old(self).world@, target, verdict)
            }),
            final(self).turtle == old(self).turtle,
            final(self).root() == old(self).root(),
    {
        let result = self.turtle.dig_forward(TurtleSide::Right, &mut self.world);
        result.to_lua_result()
    }

    /// Digs above with the tool on the right mount.
    pub fn dig_up(&mut self) -> (r: (bool, Option<String>))
        requires
            old(self).turtle.can_reach(InteractDirection::Up),
        ensures
            ({
                let target = old(self).turtle.aim(InteractDirection::Up);
                let verdict = dig_verdict(
                    old(self).world.block_at(target),
                    old(self).turtle.tool_on(TurtleSide::Right),
                    standard_rules(),
                );
                &&& is_dig_reply(verdict, r)
                &&& final(self).world@ == world_after_dig(old(self).world@, target, verdict)
            }),
            final(self).turtle == old(self).turtle,
            final(self).root() == old(self).root(),
    {
        let result = self.turtle.dig_up(TurtleSide::Right, &mut self.world);
        result.to_lua_result()
    }

    /// Digs below with the tool on the right mount.
    pub fn dig_down(&mut self) -> (r: (bool, Option<String>))
        requires
            old(self).turtle.can_reach(InteractDirection::Down),
        ensures
            ({
                let target = old(self).turtle.aim(InteractDirection::Down);
                let verdict = dig_verdict(
                    old(self).world.block_at(target),
                    old(self).turtle.tool_on(TurtleSide::Right),
                    standard_rules(),
                );
                &&& is_dig_reply(verdict, r)
                &&& final(self).world@ == world_after_dig(old(self).world@, target, verdict)
            }),
            final(self).turtle == old(self).turtle,
            final(self).root() == old(self).root(),
    {
        let result = self.turtle.dig_down(TurtleSide::Right, &mut self.world);
        result.to_lua_result()
    }

    /// Places one item of the selected slot in front.
    pub fn place(&mut self) -> (r: (bool, Option<String>))
        requires
            old(self).turtle.can_reach(InteractDirection::Forward),
        ensures
            Turtle::place_result(&old(self).turtle, &old(self).world, InteractDirection::Forward).is_reply_for(r),
            Turtle::place_step(
                &old(self).turtle,
                &final(self).turtle,
                &old(self).world,
                &final(self).world,
                InteractDirection::Forward,
            ),
            final(self).root() == old(self).root(),
    {
        let result = self.turtle.place(InteractDirection::Forward, &mut self.world);
        result.to_lua_result()
    }

    /// Places one item of the selected slot above.
    pub fn place_up(&mut self) -> (r: (bool, Option<String>))
        requires
            old(self).turtle.can_reach(InteractDirection::Up),
        ensures
            Turtle::place_result(&old(self).turtle, &old(self).world, InteractDirection::Up).is_reply_for(r),
            Turtle::place_step(
                &old(self).turtle,
                &final(self).turtle,
                &old(self).world,
                &final(self).world,
                InteractDirection::Up,
            ),
            final(self).root() == old(self).root(),
    {
        let result = self.turtle.place(InteractDirection::Up, &mut self.world);
        result.to_lua_result()
    }

    /// Places one item of the selected slot below.
    pub fn place_down(&mut self) -> (r: (bool, Option<String>))
        requires
            old(self).turtle.can_reach(InteractDirection::Down),
        ensures
            Turtle::place_result(&old(self).turtle, &old(self).world, InteractDirection::Down).is_reply_for(r),
            Turtle::place_step(
                &old(self).turtle,
                &final(self).turtle,
                &old(self).world,
                &final(self).world,
                InteractDirection::Down,
            ),
            final(self).root() == old(self).root(),
    {
        let result = self.turtle.place(InteractDirection::Down, &mut self.world);
        result.to_lua_result()
    }

    /// Inspects the block in front.
    pub fn inspect(&self) -> (r: (bool, InspectDataOrReason))
        requires
            self.turtle.can_reach(InteractDirection::Forward),
        ensures
            ({
                let block = self.world.block_at(self.turtle.aim(InteractDirection::Forward));
                if Block::solid(block) {
                    r.0 && match r.1 {
                        InspectDataOrReason::Data(d) => d.name@ == block,
                        InspectDataOrReason::Reason(_) => false,
                    }
                } else {
                    !r.0 && match r.1 {
                        InspectDataOrReason::Reason(text) => text@ == TurtleInspectError::NoBlock.text(),
                        InspectDataOrReason::Data(_) => false,
                    }
                }
            }),
    {
        let result = self.turtle.inspect(InteractDirection::Forward, &self.world);
        result.to_lua_result()
    }

    /// Inspects the block above.
    pub fn inspect_up(&self) -> (r: (bool, InspectDataOrReason))
        requires
            self.turtle.can_reach(InteractDirection::Up),
        ensures
            ({
                let block = self.world.block_at(self.turtle.aim(InteractDirection::Up));
                if Block::solid(block) {
                    r.0 && match r.1 {
                        InspectDataOrReason::Data(d) => d.name@ == block,
                        InspectDataOrReason::Reason(_) => false,
                    }
                } else {
                    !r.0 && match r.1 {
                        InspectDataOrReason::Reason(text) => text@ == TurtleInspectError::NoBlock.text(),
                        InspectDataOrReason::Data(_) => false,
                    }
                }
            }),
    {
        let result = self.turtle.inspect(InteractDirection::Up, &self.world);
        result.to_lua_result()
    }

    /// Inspects the block below.
    pub fn inspect_down(&self) -> (r: (bool, InspectDataOrReason))
        requires
            self.turtle.can_reach(InteractDirection::Down),
        ensures
            ({
                let block = self.world.block_at(self.turtle.aim(InteractDirection::Down));
                if Block::solid(block) {
                    r.0 && match r.1 {
                        InspectDataOrReason::Data(d) => d.name@ == block,
                        InspectDataOrReason::Reason(_) => false,
                    }
                } else {
                    !r.0 && match r.1 {
                        InspectDataOrReason::Reason(text) => text@ == TurtleInspectError::NoBlock.text(),
                        InspectDataOrReason::Data(_) => false,
                    }
                }
            }),
    {
        let result = self.turtle.inspect(InteractDirection::Down, &self.world);
        result.to_lua_result()
    }

    /// Selects the one-based slot `slot`; anything outside `1..=16` fails and
    /// keeps the selection.
    pub fn select(&mut self, slot: i32) -> (r: (bool, Option<String>))
        ensures
            1 <= slot <= 16 ==> is_ok_reply(r) && final(self).turtle.selected_slot == slot - 1,
            !(1 <= slot <= 16) ==> is_error_reply(r, "Slot out of range"@)
                && final(self).turtle.selected_slot == old(self).turtle.selected_slot,
            final(self).turtle.position == old(self).turtle.position,
            final(self).turtle.position_history@ == old(self).turtle.position_history@,
            final(self).turtle.facing == old(self).turtle.facing,
            final(self).turtle.kind == old(self).turtle.kind,
            final(self).turtle.fuel == old(self).turtle.fuel,
            final(self).turtle.inventory == old(self).turtle.inventory,
            final(self).turtle.left_upgrade == old(self).turtle.left_upgrade,
            final(self).turtle.right_upgrade == old(self).turtle.right_upgrade,
            final(self).same_world_and_root(old(self)),
    {
        if slot < 1 {
            return (false, Some("Slot out of range".to_owned()));
        }
        self.turtle.select((slot - 1) as usize)
    }

    /// Name and count of the stack in the one-based `slot`, the selected slot
    /// when absent; nothing for an empty or missing slot.
    pub fn get_item_detail(&self, slot: Option<i32>, detailed: bool) -> (r: Option<ItemDetail>)
        ensures
            ({
                let s = script_slot(slot, self.turtle.selected_slot);
                match r {
                    Some(d) => 0 <= s < 16 && self.turtle.name_in(s as usize) == Some(d.name@)
                        && d.count == self.turtle.count_in(s as usize),
                    None => !(0 <= s < 16) || self.turtle.name_in(s as usize) is None,
                }
            }),
    {
        let index = match slot {
            Some(s) => {
                if s < 1 {
                    return None;
                }
                (s - 1) as usize
            },
            None => self.turtle.selected_slot,
        };
        self.turtle.get_item_detail(index, detailed)
    }
}

} // verus!
