use crate::jump_table::control::{branch_offset, is_jump_code, read_branch_offset};
use crate::jump_table::slot::slot_code;
use crate::jump_table::stack::is_stack_op;
use crate::jump_table::{
    arity, family, has_handler, host_handles, Family, Handler, JumpTable,
};
use crate::types::compound_types::vm_compound::CompoundView;
use crate::types::compound_types::vm_map::MapView;
use crate::types::stack_item::{items_view, ItemView, StackItem};
use crate::vm::encoding::{le_i32, le_u16, le_u32, signed8};
use crate::vm::evaluation_stack::StackState;
use crate::vm::execution_engine::{EngineView, ExecutionEngine, HostCall};
use crate::vm::instruction::{Instruction, InstructionView};
use crate::vm::op_code::OpCode;
use crate::vm::reference_counter::{CounterView, ReferenceCounter};
use vstd::prelude::*;

verus! {

impl CounterView {
    /// The counter after the map `id` was given, from position `from` on,
    /// each key of `pairs` with the value that follows it.
    pub open spec fn set_pairs(self, id: usize, pairs: Seq<ItemView>, from: int) -> Option<
        CounterView,
    >
        decreases pairs.len() - from,
    {
        if from < 0 || from + 1 >= pairs.len() {
            Some(self)
        } else {
            match self.map_set(id, pairs[from], pairs[from + 1]) {
                Some(h) => h.set_pairs(id, pairs, from + 2),
                None => None,
            }
        }
    }

    /// The counter with a new map of the pairs, and the number of the map.
    pub open spec fn new_map_of(self, pairs: Seq<ItemView>) -> Option<(CounterView, usize)> {
        let id = self.items.len() as usize;
        match self.adopt(CompoundView::Mapping(MapView::empty())).set_pairs(id, pairs, 0) {
            Some(h) => Some((h, id)),
            None => None,
        }
    }
}

/// Whether the code belongs to the slots.
pub open spec fn is_slot_op(op: OpCode) -> bool {
    op == OpCode::INITSSLOT || op == OpCode::INITSLOT || slot_code(op) is Some
}

impl EngineView {
    /// The machine after `n` items, or for `PACKMAP` `n` keys, each followed
    /// by its value, were popped and a new array, struct or map of them was
    /// pushed. The first popped item is the first item of the array or
    /// struct.
    pub open spec fn packed_items(self, op: OpCode, n: usize) -> Option<EngineView> {
        if !self.ready() {
            None
        } else if op == OpCode::PACKMAP {
            if n > usize::MAX / 2 {
                None
            } else {
                match self.operands().pop_n((2 * n) as nat) {
                    Some((st, popped)) => match st.heap.new_map_of(popped) {
                        Some((h, id)) => self.after_operands(
                            (StackState { stack: st.stack, heap: h }).push(ItemView::Mapping(id)),
                        ),
                        None => None,
                    },
                    None => None,
                }
            }
        } else {
            match self.operands().pop_n(n as nat) {
                Some((st, popped)) => match st.heap.new_sequence(popped, op == OpCode::PACKSTRUCT) {
                    Some((h, id)) => self.after_operands(
                        (StackState { stack: st.stack, heap: h }).push(
                            if op == OpCode::PACKSTRUCT {
                                ItemView::Struct(id)
                            } else {
                                ItemView::Array(id)
                            },
                        ),
                    ),
                    None => None,
                },
                None => None,
            }
        }
    }

    /// The machine after `PACK`, `PACKSTRUCT` or `PACKMAP`: a number is
    /// popped, then that many items are packed.
    pub open spec fn packed(self, op: OpCode) -> Option<EngineView> {
        match self.pop_size() {
            Some((s, n)) => s.packed_items(op, n),
            None => None,
        }
    }

    /// The machine after the flow code `op` with the given operand.
    pub open spec fn flow_op(self, op: OpCode, operand: Seq<u8>) -> Option<EngineView> {
        match op {
            OpCode::NOP => Some(self),
            OpCode::CALL => match branch_offset(op, operand) {
                Some(o) => self.called(self.target(o)),
                None => None,
            },
            OpCode::CALL_L => match branch_offset(op, operand) {
                Some(o) => self.called(self.target(o)),
                None => None,
            },
            OpCode::CALLA => self.called_pointer(),
            OpCode::CALLT => if operand.len() >= 2 {
                self.requested(HostCall::LoadToken(le_u16(operand) as u16))
            } else {
                None
            },
            OpCode::SYSCALL => if operand.len() >= 4 {
                self.requested(HostCall::Syscall(le_u32(operand) as u32))
            } else {
                None
            },
            OpCode::ASSERT => self.asserted(),
            OpCode::THROW => self.thrown(),
            OpCode::TRY => if operand.len() >= 2 {
                self.entered_try(signed8(operand[0]), signed8(operand[1]))
            } else {
                None
            },
            OpCode::TRY_L => if operand.len() >= 8 {
                self.entered_try(le_i32(operand), le_i32(operand.skip(4)))
            } else {
                None
            },
            OpCode::ENDTRY => match branch_offset(op, operand) {
                Some(o) => self.ended_try(o),
                None => None,
            },
            OpCode::ENDTRY_L => match branch_offset(op, operand) {
                Some(o) => self.ended_try(o),
                None => None,
            },
            OpCode::ENDFINALLY => self.ended_finally(),
            OpCode::RET => self.returned(),
            OpCode::PUSHA => match branch_offset(op, operand) {
                Some(o) => self.pushed_address(o),
                None => None,
            },
            OpCode::PACK => self.packed(op),
            OpCode::PACKSTRUCT => self.packed(op),
            OpCode::PACKMAP => self.packed(op),
            _ => None,
        }
    }

    /// The machine after the handler of the code `op` ran on the given
    /// operand. There is no result where the handler fails.
    pub open spec fn handled(self, op: OpCode, operand: Seq<u8>) -> Option<EngineView> {
        if arity(op) is Some {
            self.computed(op, operand)
        } else if is_stack_op(op) {
            self.stack_op(op)
        } else if is_slot_op(op) {
            self.slot_op(op, operand)
        } else if is_jump_code(op) {
            self.jump_op(op, operand)
        } else {
            self.flow_op(op, operand)
        }
    }

    /// The machine after the instruction was executed, where that succeeds:
    /// the handler of its code runs. There is no result for a code without
    /// a handler in the table, nor where the handler fails.
    pub open spec fn dispatch(self, ins: InstructionView) -> Option<EngineView> {
        if has_handler(self.table, ins.opcode) {
            self.handled(ins.opcode, ins.operand)
        } else {
            None
        }
    }

    /// The machine after the handler of the code `op` was called on the
    /// given operand: the machine that the handler leaves, or, where the
    /// handler fails, the faulted machine.
    pub open spec fn executed(self, op: OpCode, operand: Seq<u8>) -> EngineView {
        match self.handled(op, operand) {
            Some(e) => e,
            None => self.faulted(op),
        }
    }
}

impl ReferenceCounter {
    /// Makes a new map of the pairs and gives back its number.
    pub fn new_map_of(&mut self, pairs: &Vec<StackItem>) -> (r: Option<usize>)
        ensures
            r is Some <==> old(self)@.new_map_of(items_view(pairs@)) is Some,
            r is Some ==> (final(self)@, r->Some_0) == old(self)@.new_map_of(
                items_view(pairs@),
            )->Some_0,
    {
        let id = self.new_map();
        let n: usize = pairs.len();
        assert(items_view(pairs@).len() == n);
        let ghost start = self@;
        let mut i: usize = 0;
        while i < n && n - i >= 2
            invariant
                i <= n,
                n == pairs@.len(),
                n == items_view(pairs@).len(),
                id == old(self)@.items.len(),
                start == old(self)@.adopt(CompoundView::Mapping(MapView::empty())),
                start.set_pairs(id, items_view(pairs@), 0) == self@.set_pairs(
                    id,
                    items_view(pairs@),
                    i as int,
                ),
            decreases n - i,
        {
            if !self.map_set(id, pairs[i].clone(), pairs[i + 1].clone()) {
                return None;
            }
            i += 2;
        }
        Some(id)
    }
}

impl ExecutionEngine {
    /// Pops `n` items, or `n` keys with their values, and pushes a new
    /// array, struct or map of them.
    pub fn pack_items(&mut self, op: OpCode, n: usize) -> (ok: bool)
        ensures
            ok <==> old(self)@.packed_items(op, n) is Some,
            ok ==> final(self)@ == old(self)@.packed_items(op, n)->Some_0,
    {
        if !self.ready() {
            return false;
        }
        let at = self.frame_index();
        let as_map: bool = matches!(op, OpCode::PACKMAP);
        let as_struct: bool = matches!(op, OpCode::PACKSTRUCT);
        if as_map && n > usize::MAX / 2 {
            return false;
        }
        let count: usize = if as_map {
            2 * n
        } else {
            n
        };
        let popped = match self.shared_states[at].evaluation_stack.pop_n(
            count,
            &mut self.reference_counter,
        ) {
            Some(p) => p,
            None => {
                return false;
            },
        };
        let item = if as_map {
            match self.reference_counter.new_map_of(&popped) {
                Some(id) => StackItem::Mapping(id),
                None => {
                    return false;
                },
            }
        } else {
            match self.reference_counter.new_sequence(popped, as_struct) {
                Some(id) => if as_struct {
                    StackItem::Struct(id)
                } else {
                    StackItem::Array(id)
                },
                None => {
                    return false;
                },
            }
        };
        let r = self.shared_states[at].evaluation_stack.push(item, &mut self.reference_counter);
        if r.is_ok() {
            assert(self@.shared =~= old(self)@.packed_items(op, n)->Some_0.shared);
            assert(self@.invocation =~= old(self)@.invocation);
            true
        } else {
            false
        }
    }

    /// Executes `PACK`, `PACKSTRUCT` or `PACKMAP`.
    pub fn pack(&mut self, op: OpCode) -> (ok: bool)
        ensures
            ok <==> old(self)@.packed(op) is Some,
            ok ==> final(self)@ == old(self)@.packed(op)->Some_0,
    {
        match self.pop_size() {
            Some(n) => self.pack_items(op, n),
            None => false,
        }
    }

    /// Executes a flow code.
    pub fn run_flow_op(&mut self, op: OpCode, instruction: &Instruction) -> (ok: bool)
        ensures
            ok <==> old(self)@.flow_op(op, instruction.operand@) is Some,
            ok ==> final(self)@ == old(self)@.flow_op(op, instruction.operand@)->Some_0,
    {
        match op {
            OpCode::NOP => true,
            OpCode::CALL | OpCode::CALL_L => match read_branch_offset(op, instruction) {
                Some(o) => {
                    if !self.ready() {
                        return false;
                    }
                    let position = self.target(o);
                    self.call_position(position)
                },
                None => false,
            },
            OpCode::CALLA => self.call_pointer(),
            OpCode::CALLT => {
                if instruction.operand.len() >= 2 {
                    self.request(HostCall::LoadToken(instruction.token_u16()))
                } else {
                    false
                }
            },
            OpCode::SYSCALL => {
                if instruction.operand.len() >= 4 {
                    self.request(HostCall::Syscall(instruction.token_u32()))
                } else {
                    false
                }
            },
            OpCode::ASSERT => self.assert_top(),
            OpCode::THROW => self.throw(),
            OpCode::TRY => {
                if instruction.operand.len() >= 2 {
                    self.enter_try(instruction.token_i8() as i32, instruction.token_i8_1() as i32)
                } else {
                    false
                }
            },
            OpCode::TRY_L => {
                if instruction.operand.len() >= 8 {
                    self.enter_try(instruction.token_i32(), instruction.token_i32_1())
                } else {
                    false
                }
            },
            OpCode::ENDTRY | OpCode::ENDTRY_L => match read_branch_offset(op, instruction) {
                Some(o) => self.end_try(o),
                None => false,
            },
            OpCode::ENDFINALLY => self.end_finally(),
            OpCode::RET => self.ret(),
            OpCode::PUSHA => match read_branch_offset(op, instruction) {
                Some(o) => self.push_address(o),
                None => false,
            },
            OpCode::PACK | OpCode::PACKSTRUCT | OpCode::PACKMAP => self.pack(op),
            _ => false,
        }
    }

    /// Runs the handler of the code `op` on the instruction. A handler that
    /// fails may have done a part of its work: `perform` puts the machine
    /// back.
    pub fn handle(&mut self, op: OpCode, instruction: &Instruction) -> (ok: bool)
        ensures
            ok <==> old(self)@.handled(op, instruction.operand@) is Some,
            ok ==> final(self)@ == old(self)@.handled(op, instruction.operand@)->Some_0,
    {
        let (kind, _) = family(op);
        if !matches!(kind, Family::Other) {
            return self.run_computed(op, &instruction.operand);
        }
        let code: u8 = op.to_u8();
        if matches!(
            op,
            OpCode::DEPTH
                | OpCode::DROP
                | OpCode::NIP
                | OpCode::XDROP
                | OpCode::CLEAR
                | OpCode::DUP
                | OpCode::OVER
                | OpCode::PICK
                | OpCode::TUCK
                | OpCode::SWAP
                | OpCode::ROT
                | OpCode::ROLL
                | OpCode::REVERSE3
                | OpCode::REVERSE4
                | OpCode::REVERSEN
        ) {
            self.run_stack_op(op)
        } else if code >= 0x56 && code <= 0x87 {
            self.run_slot_op(op, &instruction.operand)
        } else if code >= 0x22 && code <= 0x33 {
            self.run_jump(op, instruction)
        } else {
            self.run_flow_op(op, instruction)
        }
    }
}

impl ExecutionEngine {
    /// Calls the handler of the code `op` on the instruction. Where the
    /// handler fails, the machine is put back as it stood before the call
    /// and faults.
    pub fn perform(&mut self, op: OpCode, instruction: &Instruction)
        ensures
            final(self)@ == old(self)@.executed(op, instruction.operand@),
    {
        let saved = self.snapshot();
        if !self.handle(op, instruction) {
            *self = saved;
            self.fault_on(op);
        }
    }
}

impl EngineView {
    /// The machine after it was asked to pause for the host to execute the
    /// code `op`: it pauses with the code as its pending request, and
    /// faults without a current context.
    pub open spec fn paused_for(self, op: OpCode) -> EngineView {
        match self.requested(HostCall::Instruction(op)) {
            Some(t) => t,
            None => EngineView { state: crate::vm::vm_state::VMState::FAULT, ..self },
        }
    }

    /// The machine after the instruction was executed with the handlers of
    /// `table`. A code that the table hands to the host pauses the machine.
    /// A code without a handler, and a handler that fails, fault the
    /// machine, which is otherwise as it stood before.
    pub open spec fn served(self, table: Seq<Handler>, op: OpCode, operand: Seq<u8>) -> EngineView {
        if host_handles(table, op) {
            self.paused_for(op)
        } else if has_handler(table, op) {
            self.executed(op, operand)
        } else {
            EngineView { state: crate::vm::vm_state::VMState::FAULT, ..self }
        }
    }
}

impl ExecutionEngine {
    /// Pauses for the host to execute the code `op`; without a current
    /// context the machine faults.
    pub fn pause_for(&mut self, op: OpCode)
        ensures
            final(self)@ == old(self)@.paused_for(op),
    {
        if !self.request(HostCall::Instruction(op)) {
            self.fault();
        }
    }
}

impl JumpTable {
    /// Executes the instruction on the engine with the handlers of this
    /// table. A code that the table hands to the host pauses the engine
    /// with the code as its pending request. A code without a handler, and
    /// a handler that fails, fault the engine, which is otherwise as it
    /// stood before.
    pub fn execute(&self, engine: &mut ExecutionEngine, instruction: &Instruction)
        ensures
            final(engine)@ == old(engine)@.served(
                self@,
                instruction.opcode,
                instruction.operand@,
            ),
    {
        if self.delegates(instruction.opcode) {
            engine.pause_for(instruction.opcode);
        } else if self.contains(instruction.opcode) {
            engine.perform(instruction.opcode, instruction);
        } else {
            engine.fault();
        }
    }
}

} // verus!
