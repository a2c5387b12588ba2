use crate::types::stack_item::{items_view, ItemView, StackItem};
use crate::vm::execution_context::{ContextView, SharedView};
use crate::vm::execution_engine::{EngineView, ExecutionEngine};
use crate::vm::op_code::OpCode;
use crate::vm::slot::Slot;
use crate::jump_table::JumpTable;
use crate::vm::instruction::Instruction;
use vstd::prelude::*;

verus! {

/// The three slots that a context can reach.
#[derive(Debug, Clone, Copy, PartialEq, Eq, Structural)]
pub enum SlotKind {
    /// The static fields of the script.
    Static,
    /// The local variables of the context.
    Local,
    /// The arguments of the context.
    Argument,
}

/// Whether a code loads from a slot or stores into one.
#[derive(Debug, Clone, Copy, PartialEq, Eq, Structural)]
pub enum SlotAccess {
    Load,
    Store,
}

/// A code that reaches a slot: the access, the slot, and the position,
/// which is `None` where the operand of the instruction gives it.
pub struct SlotCode {
    pub access: SlotAccess,
    pub kind: SlotKind,
    pub index: Option<u8>,
}

/// The access that the code makes, if it reaches a slot. The codes of a
/// slot and an access are eight in a row: seven with the positions 0 to 6
/// and one that takes the position from its operand.
pub open spec fn slot_code(op: OpCode) -> Option<SlotCode> {
    let code = op.code();
    if OpCode::LDSFLD0.code() <= code <= OpCode::STARG.code() {
        let group = (code - OpCode::LDSFLD0.code()) / 8;
        let offset = ((code - OpCode::LDSFLD0.code()) % 8) as u8;
        Some(
            SlotCode {
                access: if group % 2 == 0 {
                    SlotAccess::Load
                } else {
                    SlotAccess::Store
                },
                kind: if group < 2 {
                    SlotKind::Static
                } else if group < 4 {
                    SlotKind::Local
                } else {
                    SlotKind::Argument
                },
                index: if offset == 7 {
                    None
                } else {
                    Some(offset)
                },
            },
        )
    } else {
        None
    }
}

impl EngineView {
    /// The items of the slot, if the slot was made.
    pub open spec fn slot(self, kind: SlotKind) -> Option<Seq<ItemView>> {
        match kind {
            SlotKind::Static => self.frame().static_fields,
            SlotKind::Local => self.context().local_variables,
            SlotKind::Argument => self.context().arguments,
        }
    }

    /// The machine with other items in the slot.
    pub open spec fn with_slot(self, kind: SlotKind, items: Option<Seq<ItemView>>) -> EngineView {
        match kind {
            SlotKind::Static => self.with_frame(SharedView { static_fields: items, ..self.frame() }),
            SlotKind::Local => self.with_context(
                ContextView { local_variables: items, ..self.context() },
            ),
            SlotKind::Argument => self.with_context(
                ContextView { arguments: items, ..self.context() },
            ),
        }
    }

    /// The machine after the item at `index` of the slot was pushed. There
    /// is no result for a slot that was not made and for a position outside
    /// it.
    pub open spec fn loaded(self, kind: SlotKind, index: int) -> Option<EngineView> {
        if !self.ready() {
            None
        } else {
            match self.slot(kind) {
                Some(items) => if 0 <= index < items.len() {
                    self.push(items[index])
                } else {
                    None
                },
                None => None,
            }
        }
    }

    /// The machine after the top of the stack was popped and put at `index`
    /// of the slot: the place lets go of its old item and takes hold of the
    /// new one.
    pub open spec fn stored(self, kind: SlotKind, index: int) -> Option<EngineView> {
        match self.pop() {
            Some((s, item)) => match s.slot(kind) {
                Some(items) => if 0 <= index < items.len() {
                    match s.heap.replace_stack_reference(items[index], item) {
                        Some(h) => Some(
                            EngineView {
                                heap: h,
                                ..s.with_slot(kind, Some(items.update(index, item)))
                            },
                        ),
                        None => None,
                    }
                } else {
                    None
                },
                None => None,
            },
            None => None,
        }
    }

    /// The machine after a slot of `count` places that hold null was made.
    /// There is no result where the slot exists already.
    pub open spec fn with_new_slot(self, kind: SlotKind, count: usize) -> Option<EngineView> {
        if !self.ready() || self.slot(kind) is Some {
            None
        } else {
            match self.heap.add_stack_reference(ItemView::Null, count) {
                Some(h) => Some(
                    EngineView {
                        heap: h,
                        ..self.with_slot(kind, Some(Seq::new(count as nat, |i: int| ItemView::Null)))
                    },
                ),
                None => None,
            }
        }
    }

    /// The machine after `INITSSLOT` with the given number of static
    /// fields, which must not be zero.
    pub open spec fn init_static(self, count: usize) -> Option<EngineView> {
        if count == 0 {
            None
        } else {
            self.with_new_slot(SlotKind::Static, count)
        }
    }

    /// The machine after as many items as `count` says were popped into a
    /// new argument slot: the item that was popped last is the first
    /// argument.
    pub open spec fn with_arguments(self, count: usize) -> Option<EngineView> {
        if !self.ready() || self.context().arguments is Some {
            None
        } else {
            match self.operands().pop_n(count as nat) {
                Some((st, popped)) => match st.heap.add_stack_references(popped.reverse(), 0) {
                    Some(h) => Some(
                        EngineView {
                            heap: h,
                            ..self.with_operands(st).with_slot(
                                SlotKind::Argument,
                                Some(popped.reverse()),
                            )
                        },
                    ),
                    None => None,
                },
                None => None,
            }
        }
    }

    /// The machine after `INITSLOT` with the given numbers of local
    /// variables and of arguments. Nothing happens where both are zero.
    /// Else neither slot may exist already; the local variables hold null,
    /// the arguments are popped from the stack.
    pub open spec fn init_slots(self, locals: usize, arguments: usize) -> Option<EngineView> {
        if locals == 0 && arguments == 0 {
            Some(self)
        } else if !self.ready() || self.context().local_variables is Some
            || self.context().arguments is Some {
            None
        } else {
            let with_locals = if locals > 0 {
                self.with_new_slot(SlotKind::Local, locals)
            } else {
                Some(self)
            };
            match with_locals {
                Some(s) => if arguments > 0 {
                    s.with_arguments(arguments)
                } else {
                    Some(s)
                },
                None => None,
            }
        }
    }

    /// The machine after a code that reaches a slot. `operand` is the
    /// operand of the instruction.
    pub open spec fn slot_op(self, op: OpCode, operand: Seq<u8>) -> Option<EngineView> {
        if op == OpCode::INITSSLOT {
            if operand.len() >= 1 {
                self.init_static(operand[0] as usize)
            } else {
                None
            }
        } else if op == OpCode::INITSLOT {
            if operand.len() >= 2 {
                self.init_slots(operand[0] as usize, operand[1] as usize)
            } else {
                None
            }
        } else {
            match slot_code(op) {
                Some(c) => {
                    let index = match c.index {
                        Some(i) => Some(i),
                        None => if operand.len() >= 1 {
                            Some(operand[0])
                        } else {
                            None
                        },
                    };
                    match index {
                        Some(i) => if c.access == SlotAccess::Load {
                            self.loaded(c.kind, i as int)
                        } else {
                            self.stored(c.kind, i as int)
                        },
                        None => None,
                    }
                },
                None => None,
            }
        }
    }
}

/// The access that the code makes, if it reaches a slot.
pub fn get_slot_code(op: OpCode) -> (r: Option<SlotCode>)
    ensures
        r == slot_code(op),
{
    let code: u8 = op.to_u8();
    if code < 0x58 || code > 0x87 {
        return None;
    }
    let group: u8 = (code - 0x58) / 8;
    let offset: u8 = (code - 0x58) % 8;
    Some(
        SlotCode {
            access: if group % 2 == 0 {
                SlotAccess::Load
            } else {
                SlotAccess::Store
            },
            kind: if group < 2 {
                SlotKind::Static
            } else if group < 4 {
                SlotKind::Local
            } else {
                SlotKind::Argument
            },
            index: if offset == 7 {
                None
            } else {
                Some(offset)
            },
        },
    )
}

impl ExecutionEngine {
    /// The item at `index` of the slot.
    fn slot_item(&self, kind: SlotKind, index: usize) -> (r: Option<StackItem>)
        requires
            self@.ready(),
        ensures
            r is Some <==> self@.slot(kind) is Some && index < self@.slot(kind)->Some_0.len(),
            r is Some ==> r->Some_0@ == self@.slot(kind)->Some_0[index as int],
    {
        let at = self.frame_index();
        let n: usize = self.invocation_stack.len();
        let slot = match kind {
            SlotKind::Static => &self.shared_states[at].static_fields,
            SlotKind::Local => &self.invocation_stack[n - 1].local_variables,
            SlotKind::Argument => &self.invocation_stack[n - 1].arguments,
        };
        match slot {
            Some(s) => s.get(index),
            None => None,
        }
    }

    /// Pushes the item at `index` of the slot.
    pub fn load_slot(&mut self, kind: SlotKind, index: usize) -> (ok: bool)
        ensures
            ok <==> old(self)@.loaded(kind, index as int) is Some,
            ok ==> final(self)@ == old(self)@.loaded(kind, index as int)->Some_0,
    {
        if !self.ready() {
            return false;
        }
        match self.slot_item(kind, index) {
            Some(item) => self.push_item(item),
            None => false,
        }
    }

    /// Pops the top of the stack and puts it at `index` of the slot.
    pub fn store_slot(&mut self, kind: SlotKind, index: usize) -> (ok: bool)
        ensures
            ok <==> old(self)@.stored(kind, index as int) is Some,
            ok ==> final(self)@ == old(self)@.stored(kind, index as int)->Some_0,
    {
        let item = match self.pop_item() {
            Some(item) => item,
            None => {
                return false;
            },
        };
        let ghost popped = self@;
        let at = self.frame_index();
        let n: usize = self.invocation_stack.len();
        let ok = match kind {
            SlotKind::Static => match &mut self.shared_states[at].static_fields {
                Some(slot) => slot.set(index, item, &mut self.reference_counter),
                None => false,
            },
            SlotKind::Local => match &mut self.invocation_stack[n - 1].local_variables {
                Some(slot) => slot.set(index, item, &mut self.reference_counter),
                None => false,
            },
            SlotKind::Argument => match &mut self.invocation_stack[n - 1].arguments {
                Some(slot) => slot.set(index, item, &mut self.reference_counter),
                None => false,
            },
        };
        if ok {
            assert(self@.shared =~= old(self)@.stored(kind, index as int)->Some_0.shared);
            assert(self@.invocation =~= old(self)@.stored(kind, index as int)->Some_0.invocation);
        }
        ok
    }

    /// Puts `slot` in the place of the slot of the given kind.
    fn put_slot(&mut self, kind: SlotKind, slot: Slot)
        requires
            old(self)@.ready(),
        ensures
            final(self)@ == old(self)@.with_slot(kind, Some(slot@)),
    {
        let at = self.frame_index();
        let n: usize = self.invocation_stack.len();
        match kind {
            SlotKind::Static => {
                self.shared_states[at].static_fields = Some(slot);
            },
            SlotKind::Local => {
                self.invocation_stack[n - 1].local_variables = Some(slot);
            },
            SlotKind::Argument => {
                self.invocation_stack[n - 1].arguments = Some(slot);
            },
        }
        assert(self@.shared =~= old(self)@.with_slot(kind, Some(slot@)).shared);
        assert(self@.invocation =~= old(self)@.with_slot(kind, Some(slot@)).invocation);
    }

    /// Whether the slot of the given kind was made.
    fn has_slot(&self, kind: SlotKind) -> (r: bool)
        requires
            self@.ready(),
        ensures
            r == (self@.slot(kind) is Some),
    {
        let at = self.frame_index();
        let n: usize = self.invocation_stack.len();
        match kind {
            SlotKind::Static => self.shared_states[at].static_fields.is_some(),
            SlotKind::Local => self.invocation_stack[n - 1].local_variables.is_some(),
            SlotKind::Argument => self.invocation_stack[n - 1].arguments.is_some(),
        }
    }

    /// Makes a slot of `count` places that hold null.
    pub fn make_slot(&mut self, kind: SlotKind, count: usize) -> (ok: bool)
        ensures
            ok <==> old(self)@.with_new_slot(kind, count) is Some,
            ok ==> final(self)@ == old(self)@.with_new_slot(kind, count)->Some_0,
    {
        if !self.ready() {
            return false;
        }
        if self.has_slot(kind) {
            return false;
        }
        match Slot::with_count(count, &mut self.reference_counter) {
            Some(slot) => {
                self.put_slot(kind, slot);
                true
            },
            None => false,
        }
    }

    /// Pops `count` items into a new argument slot.
    pub fn make_arguments(&mut self, count: usize) -> (ok: bool)
        ensures
            ok <==> old(self)@.with_arguments(count) is Some,
            ok ==> final(self)@ == old(self)@.with_arguments(count)->Some_0,
    {
        if !self.ready() {
            return false;
        }
        if self.has_slot(SlotKind::Argument) {
            return false;
        }
        let at = self.frame_index();
        let popped = match self.shared_states[at].evaluation_stack.pop_n(
            count,
            &mut self.reference_counter,
        ) {
            Some(p) => p,
            None => {
                return false;
            },
        };
        assert(self@.shared =~= old(self)@.with_operands(
            old(self)@.operands().pop_n(count as nat)->Some_0.0,
        ).shared);
        assert(self@.invocation =~= old(self)@.invocation);
        let items = crate::types::compound_types::vm_array::reversed_items(&popped);
        match Slot::new(items, &mut self.reference_counter) {
            Some(slot) => {
                self.put_slot(SlotKind::Argument, slot);
                true
            },
            None => false,
        }
    }

    /// Executes `INITSLOT`.
    pub fn init_slots(&mut self, locals: usize, arguments: usize) -> (ok: bool)
        ensures
            ok <==> old(self)@.init_slots(locals, arguments) is Some,
            ok ==> final(self)@ == old(self)@.init_slots(locals, arguments)->Some_0,
    {
        if locals == 0 && arguments == 0 {
            return true;
        }
        if !self.ready() {
            return false;
        }
        if self.has_slot(SlotKind::Local) || self.has_slot(SlotKind::Argument) {
            return false;
        }
        if locals > 0 {
            if !self.make_slot(SlotKind::Local, locals) {
                return false;
            }
        }
        if arguments > 0 {
            self.make_arguments(arguments)
        } else {
            true
        }
    }

    /// Executes a code that reaches a slot.
    pub fn run_slot_op(&mut self, op: OpCode, operand: &Vec<u8>) -> (ok: bool)
        ensures
            ok <==> old(self)@.slot_op(op, operand@) is Some,
            ok ==> final(self)@ == old(self)@.slot_op(op, operand@)->Some_0,
    {
        if matches!(op, OpCode::INITSSLOT) {
            if operand.len() < 1 || operand[0] == 0 {
                return false;
            }
            return self.make_slot(SlotKind::Static, operand[0] as usize);
        }
        if matches!(op, OpCode::INITSLOT) {
            if operand.len() < 2 {
                return false;
            }
            return self.init_slots(operand[0] as usize, operand[1] as usize);
        }
        match get_slot_code(op) {
            Some(c) => {
                let index: u8 = match c.index {
                    Some(i) => i,
                    None => if operand.len() >= 1 {
                        operand[0]
                    } else {
                        return false;
                    },
                };
                match c.access {
                    SlotAccess::Load => self.load_slot(c.kind, index as usize),
                    SlotAccess::Store => self.store_slot(c.kind, index as usize),
                }
            },
            None => false,
        }
    }
}

impl JumpTable {
    /// Makes the static fields of the current script. Where the handler fails, the engine faults and is otherwise as it was.
    pub fn init_static_slot(&self, engine: &mut ExecutionEngine, instruction: &Instruction)
        ensures
            final(engine)@ == old(engine)@.executed(OpCode::INITSSLOT, instruction.operand@),
    {
        engine.perform(OpCode::INITSSLOT, instruction);
    }

    /// Makes the local variables and the arguments of the current context. Where the handler fails, the engine faults and is otherwise as it was.
    pub fn init_slot(&self, engine: &mut ExecutionEngine, instruction: &Instruction)
        ensures
            final(engine)@ == old(engine)@.executed(OpCode::INITSLOT, instruction.operand@),
    {
        engine.perform(OpCode::INITSLOT, instruction);
    }

    /// Pushes the static field 0. Where the handler fails, the engine faults and is otherwise as it was.
    pub fn load_static_field_0(&self, engine: &mut ExecutionEngine, instruction: &Instruction)
        ensures
            final(engine)@ == old(engine)@.executed(OpCode::LDSFLD0, instruction.operand@),
    {
        engine.perform(OpCode::LDSFLD0, instruction);
    }

    /// Pushes the static field 1. Where the handler fails, the engine faults and is otherwise as it was.
    pub fn load_static_field_1(&self, engine: &mut ExecutionEngine, instruction: &Instruction)
        ensures
            final(engine)@ == old(engine)@.executed(OpCode::LDSFLD1, instruction.operand@),
    {
        engine.perform(OpCode::LDSFLD1, instruction);
    }

    /// Pushes the static field 2. Where the handler fails, the engine faults and is otherwise as it was.
    pub fn load_static_field_2(&self, engine: &mut ExecutionEngine, instruction: &Instruction)
        ensures
            final(engine)@ == old(engine)@.executed(OpCode::LDSFLD2, instruction.operand@),
    {
        engine.perform(OpCode::LDSFLD2, instruction);
    }

    /// Pushes the static field 3. Where the handler fails, the engine faults and is otherwise as it was.
    pub fn load_static_field_3(&self, engine: &mut ExecutionEngine, instruction: &Instruction)
        ensures
            final(engine)@ == old(engine)@.executed(OpCode::LDSFLD3, instruction.operand@),
    {
        engine.perform(OpCode::LDSFLD3, instruction);
    }

    /// Pushes the static field 4. Where the handler fails, the engine faults and is otherwise as it was.
    pub fn load_static_field_4(&self, engine: &mut ExecutionEngine, instruction: &Instruction)
        ensures
            final(engine)@ == old(engine)@.executed(OpCode::LDSFLD4, instruction.operand@),
    {
        engine.perform(OpCode::LDSFLD4, instruction);
    }

    /// Pushes the static field 5. Where the handler fails, the engine faults and is otherwise as it was.
    pub fn load_static_field_5(&self, engine: &mut ExecutionEngine, instruction: &Instruction)
        ensures
            final(engine)@ == old(engine)@.executed(OpCode::LDSFLD5, instruction.operand@),
    {
        engine.perform(OpCode::LDSFLD5, instruction);
    }

    /// Pushes the static field 6. Where the handler fails, the engine faults and is otherwise as it was.
    pub fn load_static_field_6(&self, engine: &mut ExecutionEngine, instruction: &Instruction)
        ensures
            final(engine)@ == old(engine)@.executed(OpCode::LDSFLD6, instruction.operand@),
    {
        engine.perform(OpCode::LDSFLD6, instruction);
    }

    /// Pushes the static field that the operand names. Where the handler fails, the engine faults and is otherwise as it was.
    pub fn load_static_field(&self, engine: &mut ExecutionEngine, instruction: &Instruction)
        ensures
            final(engine)@ == old(engine)@.executed(OpCode::LDSFLD, instruction.operand@),
    {
        engine.perform(OpCode::LDSFLD, instruction);
    }

    /// Pushes the local variable 0. Where the handler fails, the engine faults and is otherwise as it was.
    pub fn load_local_0(&self, engine: &mut ExecutionEngine, instruction: &Instruction)
        ensures
            final(engine)@ == old(engine)@.executed(OpCode::LDLOC0, instruction.operand@),
    {
        engine.perform(OpCode::LDLOC0, instruction);
    }

    /// Pushes the local variable 1. Where the handler fails, the engine faults and is otherwise as it was.
    pub fn load_local_1(&self, engine: &mut ExecutionEngine, instruction: &Instruction)
        ensures
            final(engine)@ == old(engine)@.executed(OpCode::LDLOC1, instruction.operand@),
    {
        engine.perform(OpCode::LDLOC1, instruction);
    }

    /// Pushes the local variable 2. Where the handler fails, the engine faults and is otherwise as it was.
    pub fn load_local_2(&self, engine: &mut ExecutionEngine, instruction: &Instruction)
        ensures
            final(engine)@ == old(engine)@.executed(OpCode::LDLOC2, instruction.operand@),
    {
        engine.perform(OpCode::LDLOC2, instruction);
    }

    /// Pushes the local variable 3. Where the handler fails, the engine faults and is otherwise as it was.
    pub fn load_local_3(&self, engine: &mut ExecutionEngine, instruction: &Instruction)
        ensures
            final(engine)@ == old(engine)@.executed(OpCode::LDLOC3, instruction.operand@),
    {
        engine.perform(OpCode::LDLOC3, instruction);
    }

    /// Pushes the local variable 4. Where the handler fails, the engine faults and is otherwise as it was.
    pub fn load_local_4(&self, engine: &mut ExecutionEngine, instruction: &Instruction)
        ensures
            final(engine)@ == old(engine)@.executed(OpCode::LDLOC4, instruction.operand@),
    {
        engine.perform(OpCode::LDLOC4, instruction);
    }

    /// Pushes the local variable 5. Where the handler fails, the engine faults and is otherwise as it was.
    pub fn load_local_5(&self, engine: &mut ExecutionEngine, instruction: &Instruction)
        ensures
            final(engine)@ == old(engine)@.executed(OpCode::LDLOC5, instruction.operand@),
    {
        engine.perform(OpCode::LDLOC5, instruction);
    }

    /// Pushes the local variable 6. Where the handler fails, the engine faults and is otherwise as it was.
    pub fn load_local_6(&self, engine: &mut ExecutionEngine, instruction: &Instruction)
        ensures
            final(engine)@ == old(engine)@.executed(OpCode::LDLOC6, instruction.operand@),
    {
        engine.perform(OpCode::LDLOC6, instruction);
    }

    /// Pushes the local variable that the operand names. Where the handler fails, the engine faults and is otherwise as it was.
    pub fn load_local(&self, engine: &mut ExecutionEngine, instruction: &Instruction)
        ensures
            final(engine)@ == old(engine)@.executed(OpCode::LDLOC, instruction.operand@),
    {
        engine.perform(OpCode::LDLOC, instruction);
    }

    /// Pushes the argument 0. Where the handler fails, the engine faults and is otherwise as it was.
    pub fn load_arg_0(&self, engine: &mut ExecutionEngine, instruction: &Instruction)
        ensures
            final(engine)@ == old(engine)@.executed(OpCode::LDARG0, instruction.operand@),
    {
        engine.perform(OpCode::LDARG0, instruction);
    }

    /// Pushes the argument 1. Where the handler fails, the engine faults and is otherwise as it was.
    pub fn load_arg_1(&self, engine: &mut ExecutionEngine, instruction: &Instruction)
        ensures
            final(engine)@ == old(engine)@.executed(OpCode::LDARG1, instruction.operand@),
    {
        engine.perform(OpCode::LDARG1, instruction);
    }

    /// Pushes the argument 2. Where the handler fails, the engine faults and is otherwise as it was.
    pub fn load_arg_2(&self, engine: &mut ExecutionEngine, instruction: &Instruction)
        ensures
            final(engine)@ == old(engine)@.executed(OpCode::LDARG2, instruction.operand@),
    {
        engine.perform(OpCode::LDARG2, instruction);
    }

    /// Pushes the argument 3. Where the handler fails, the engine faults and is otherwise as it was.
    pub fn load_arg_3(&self, engine: &mut ExecutionEngine, instruction: &Instruction)
        ensures
            final(engine)@ == old(engine)@.executed(OpCode::LDARG3, instruction.operand@),
    {
        engine.perform(OpCode::LDARG3, instruction);
    }

    /// Pushes the argument 4. Where the handler fails, the engine faults and is otherwise as it was.
    pub fn load_arg_4(&self, engine: &mut ExecutionEngine, instruction: &Instruction)
        ensures
            final(engine)@ == old(engine)@.executed(OpCode::LDARG4, instruction.operand@),
    {
        engine.perform(OpCode::LDARG4, instruction);
    }

    /// Pushes the argument 5. Where the handler fails, the engine faults and is otherwise as it was.
    pub fn load_arg_5(&self, engine: &mut ExecutionEngine, instruction: &Instruction)
        ensures
            final(engine)@ == old(engine)@.executed(OpCode::LDARG5, instruction.operand@),
    {
        engine.perform(OpCode::LDARG5, instruction);
    }

    /// Pushes the argument 6. Where the handler fails, the engine faults and is otherwise as it was.
    pub fn load_arg_6(&self, engine: &mut ExecutionEngine, instruction: &Instruction)
        ensures
            final(engine)@ == old(engine)@.executed(OpCode::LDARG6, instruction.operand@),
    {
        engine.perform(OpCode::LDARG6, instruction);
    }

    /// Pushes the argument that the operand names. Where the handler fails, the engine faults and is otherwise as it was.
    pub fn load_arg(&self, engine: &mut ExecutionEngine, instruction: &Instruction)
        ensures
            final(engine)@ == old(engine)@.executed(OpCode::LDARG, instruction.operand@),
    {
        engine.perform(OpCode::LDARG, instruction);
    }

    /// Pops an item into the static field 0. Where the handler fails, the engine faults and is otherwise as it was.
    pub fn store_static_field_0(&self, engine: &mut ExecutionEngine, instruction: &Instruction)
        ensures
            final(engine)@ == old(engine)@.executed(OpCode::STSFLD0, instruction.operand@),
    {
        engine.perform(OpCode::STSFLD0, instruction);
    }

    /// Pops an item into the static field 1. Where the handler fails, the engine faults and is otherwise as it was.
    pub fn store_static_field_1(&self, engine: &mut ExecutionEngine, instruction: &Instruction)
        ensures
            final(engine)@ == old(engine)@.executed(OpCode::STSFLD1, instruction.operand@),
    {
        engine.perform(OpCode::STSFLD1, instruction);
    }

    /// Pops an item into the static field 2. Where the handler fails, the engine faults and is otherwise as it was.
    pub fn store_static_field_2(&self, engine: &mut ExecutionEngine, instruction: &Instruction)
        ensures
            final(engine)@ == old(engine)@.executed(OpCode::STSFLD2, instruction.operand@),
    {
        engine.perform(OpCode::STSFLD2, instruction);
    }

    /// Pops an item into the static field 3. Where the handler fails, the engine faults and is otherwise as it was.
    pub fn store_static_field_3(&self, engine: &mut ExecutionEngine, instruction: &Instruction)
        ensures
            final(engine)@ == old(engine)@.executed(OpCode::STSFLD3, instruction.operand@),
    {
        engine.perform(OpCode::STSFLD3, instruction);
    }

    /// Pops an item into the static field 4. Where the handler fails, the engine faults and is otherwise as it was.
    pub fn store_static_field_4(&self, engine: &mut ExecutionEngine, instruction: &Instruction)
        ensures
            final(engine)@ == old(engine)@.executed(OpCode::STSFLD4, instruction.operand@),
    {
        engine.perform(OpCode::STSFLD4, instruction);
    }

    /// Pops an item into the static field 5. Where the handler fails, the engine faults and is otherwise as it was.
    pub fn store_static_field_5(&self, engine: &mut ExecutionEngine, instruction: &Instruction)
        ensures
            final(engine)@ == old(engine)@.executed(OpCode::STSFLD5, instruction.operand@),
    {
        engine.perform(OpCode::STSFLD5, instruction);
    }

    /// Pops an item into the static field 6. Where the handler fails, the engine faults and is otherwise as it was.
    pub fn store_static_field_6(&self, engine: &mut ExecutionEngine, instruction: &Instruction)
        ensures
            final(engine)@ == old(engine)@.executed(OpCode::STSFLD6, instruction.operand@),
    {
        engine.perform(OpCode::STSFLD6, instruction);
    }

    /// Pops an item into the static field that the operand names. Where the handler fails, the engine faults and is otherwise as it was.
    pub fn store_static_field(&self, engine: &mut ExecutionEngine, instruction: &Instruction)
        ensures
            final(engine)@ == old(engine)@.executed(OpCode::STSFLD, instruction.operand@),
    {
        engine.perform(OpCode::STSFLD, instruction);
    }

    /// Pops an item into the local variable 0. Where the handler fails, the engine faults and is otherwise as it was.
    pub fn store_local_0(&self, engine: &mut ExecutionEngine, instruction: &Instruction)
        ensures
            final(engine)@ == old(engine)@.executed(OpCode::STLOC0, instruction.operand@),
    {
        engine.perform(OpCode::STLOC0, instruction);
    }

    /// Pops an item into the local variable 1. Where the handler fails, the engine faults and is otherwise as it was.
    pub fn store_local_1(&self, engine: &mut ExecutionEngine, instruction: &Instruction)
        ensures
            final(engine)@ == old(engine)@.executed(OpCode::STLOC1, instruction.operand@),
    {
        engine.perform(OpCode::STLOC1, instruction);
    }

    /// Pops an item into the local variable 2. Where the handler fails, the engine faults and is otherwise as it was.
    pub fn store_local_2(&self, engine: &mut ExecutionEngine, instruction: &Instruction)
        ensures
            final(engine)@ == old(engine)@.executed(OpCode::STLOC2, instruction.operand@),
    {
        engine.perform(OpCode::STLOC2, instruction);
    }

    /// Pops an item into the local variable 3. Where the handler fails, the engine faults and is otherwise as it was.
    pub fn store_local_3(&self, engine: &mut ExecutionEngine, instruction: &Instruction)
        ensures
            final(engine)@ == old(engine)@.executed(OpCode::STLOC3, instruction.operand@),
    {
        engine.perform(OpCode::STLOC3, instruction);
    }

    /// Pops an item into the local variable 4. Where the handler fails, the engine faults and is otherwise as it was.
    pub fn store_local_4(&self, engine: &mut ExecutionEngine, instruction: &Instruction)
        ensures
            final(engine)@ == old(engine)@.executed(OpCode::STLOC4, instruction.operand@),
    {
        engine.perform(OpCode::STLOC4, instruction);
    }

    /// Pops an item into the local variable 5. Where the handler fails, the engine faults and is otherwise as it was.
    pub fn store_local_5(&self, engine: &mut ExecutionEngine, instruction: &Instruction)
        ensures
            final(engine)@ == old(engine)@.executed(OpCode::STLOC5, instruction.operand@),
    {
        engine.perform(OpCode::STLOC5, instruction);
    }

    /// Pops an item into the local variable 6. Where the handler fails, the engine faults and is otherwise as it was.
    pub fn store_local_6(&self, engine: &mut ExecutionEngine, instruction: &Instruction)
        ensures
            final(engine)@ == old(engine)@.executed(OpCode::STLOC6, instruction.operand@),
    {
        engine.perform(OpCode::STLOC6, instruction);
    }

    /// Pops an item into the local variable that the operand names. Where the handler fails, the engine faults and is otherwise as it was.
    pub fn store_local(&self, engine: &mut ExecutionEngine, instruction: &Instruction)
        ensures
            final(engine)@ == old(engine)@.executed(OpCode::STLOC, instruction.operand@),
    {
        engine.perform(OpCode::STLOC, instruction);
    }

    /// Pops an item into the argument 0. Where the handler fails, the engine faults and is otherwise as it was.
    pub fn store_arg_0(&self, engine: &mut ExecutionEngine, instruction: &Instruction)
        ensures
            final(engine)@ == old(engine)@.executed(OpCode::STARG0, instruction.operand@),
    {
        engine.perform(OpCode::STARG0, instruction);
    }

    /// Pops an item into the argument 1. Where the handler fails, the engine faults and is otherwise as it was.
    pub fn store_arg_1(&self, engine: &mut ExecutionEngine, instruction: &Instruction)
        ensures
            final(engine)@ == old(engine)@.executed(OpCode::STARG1, instruction.operand@),
    {
        engine.perform(OpCode::STARG1, instruction);
    }

    /// Pops an item into the argument 2. Where the handler fails, the engine faults and is otherwise as it was.
    pub fn store_arg_2(&self, engine: &mut ExecutionEngine, instruction: &Instruction)
        ensures
            final(engine)@ == old(engine)@.executed(OpCode::STARG2, instruction.operand@),
    {
        engine.perform(OpCode::STARG2, instruction);
    }

    /// Pops an item into the argument 3. Where the handler fails, the engine faults and is otherwise as it was.
    pub fn store_arg_3(&self, engine: &mut ExecutionEngine, instruction: &Instruction)
        ensures
            final(engine)@ == old(engine)@.executed(OpCode::STARG3, instruction.operand@),
    {
        engine.perform(OpCode::STARG3, instruction);
    }

    /// Pops an item into the argument 4. Where the handler fails, the engine faults and is otherwise as it was.
    pub fn store_arg_4(&self, engine: &mut ExecutionEngine, instruction: &Instruction)
        ensures
            final(engine)@ == old(engine)@.executed(OpCode::STARG4, instruction.operand@),
    {
        engine.perform(OpCode::STARG4, instruction);
    }

    /// Pops an item into the argument 5. Where the handler fails, the engine faults and is otherwise as it was.
    pub fn store_arg_5(&self, engine: &mut ExecutionEngine, instruction: &Instruction)
        ensures
            final(engine)@ == old(engine)@.executed(OpCode::STARG5, instruction.operand@),
    {
        engine.perform(OpCode::STARG5, instruction);
    }

    /// Pops an item into the argument 6. Where the handler fails, the engine faults and is otherwise as it was.
    pub fn store_arg_6(&self, engine: &mut ExecutionEngine, instruction: &Instruction)
        ensures
            final(engine)@ == old(engine)@.executed(OpCode::STARG6, instruction.operand@),
    {
        engine.perform(OpCode::STARG6, instruction);
    }

    /// Pops an item into the argument that the operand names. Where the handler fails, the engine faults and is otherwise as it was.
    pub fn store_arg(&self, engine: &mut ExecutionEngine, instruction: &Instruction)
        ensures
            final(engine)@ == old(engine)@.executed(OpCode::STARG, instruction.operand@),
    {
        engine.perform(OpCode::STARG, instruction);
    }
}

} // verus!
