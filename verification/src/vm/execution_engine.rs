use crate::jump_table::{has_handler, host_handles, Handler, JumpTable};
use crate::types::stack_item::{items_view, ItemView, StackItem};
use crate::vm::evaluation_stack::{EvaluationStack, StackState};
use crate::vm::execution_context::{
    ContextView, ExecutionContext, SharedStates, SharedView,
};
use crate::vm::execution_engine_limits::ExecutionEngineLimits;
use crate::vm::collector::checked_zero_referred;
use crate::vm::instruction::{lemma_decode_bounds, Instruction, InstructionView};
use crate::vm::op_code::OpCode;
use crate::vm::reference_counter::{CounterView, ReferenceCounter};
use crate::vm::script::{spec_get_instruction, ScriptView};
use crate::vm::script::Script;
use crate::vm::vm_error::{VMError, VMErrorKind};
use crate::vm::vm_state::VMState;
use vstd::prelude::*;

verus! {

/// A service that only the host can perform.
#[derive(Debug, Clone, Copy, PartialEq, Eq, Structural)]
pub enum HostCall {
    /// `SYSCALL` with the number of the service.
    Syscall(u32),
    /// `CALLT` with the number of the token.
    LoadToken(u16),
    /// An instruction whose code the table hands to the host.
    Instruction(OpCode),
}

/// The machine: its state, the contexts that are executing, the shared
/// states of the loaded scripts, the reference counter and the result
/// stack.
#[derive(Debug)]
pub struct ExecutionEngine {
    pub state: VMState,
    pub is_jumping: bool,
    pub jump_table: JumpTable,
    pub limits: ExecutionEngineLimits,
    pub reference_counter: ReferenceCounter,
    pub shared_states: Vec<SharedStates>,
    pub invocation_stack: Vec<ExecutionContext>,
    pub result_stack: EvaluationStack,
    pub uncaught_exception: Option<StackItem>,
    pub pending_call: Option<HostCall>,
}

/// The machine as a mathematical value. The last context of `invocation`
/// is the current one, the first is the entry context.
pub struct EngineView {
    pub state: VMState,
    pub is_jumping: bool,
    pub table: Seq<Handler>,
    pub limits: ExecutionEngineLimits,
    pub heap: CounterView,
    pub shared: Seq<SharedView>,
    pub invocation: Seq<ContextView>,
    pub result_stack: Seq<ItemView>,
    pub uncaught: Option<ItemView>,
    pub pending: Option<HostCall>,
}

/// The values of the shared states.
pub open spec fn shared_views(shared: Seq<SharedStates>) -> Seq<SharedView> {
    shared.map_values(|s: SharedStates| s@)
}

/// The values of the contexts.
pub open spec fn context_views(contexts: Seq<ExecutionContext>) -> Seq<ContextView> {
    contexts.map_values(|c: ExecutionContext| c@)
}

/// The value of an item, if there is one.
pub open spec fn option_view(item: Option<StackItem>) -> Option<ItemView> {
    match item {
        Some(i) => Some(i@),
        None => None,
    }
}

impl View for ExecutionEngine {
    type V = EngineView;

    open spec fn view(&self) -> EngineView {
        EngineView {
            state: self.state,
            is_jumping: self.is_jumping,
            table: self.jump_table@,
            limits: self.limits,
            heap: self.reference_counter@,
            shared: shared_views(self.shared_states@),
            invocation: context_views(self.invocation_stack@),
            result_stack: self.result_stack@,
            uncaught: option_view(self.uncaught_exception),
            pending: self.pending_call,
        }
    }
}

impl EngineView {
    /// Whether there is a current context, and it names shared states of
    /// the machine.
    pub open spec fn ready(self) -> bool {
        self.invocation.len() > 0 && self.invocation.last().shared_states < self.shared.len()
    }

    /// The current context.
    pub open spec fn context(self) -> ContextView {
        self.invocation.last()
    }

    /// The shared states of the current context.
    pub open spec fn frame(self) -> SharedView {
        self.shared[self.context().shared_states as int]
    }

    /// The evaluation stack of the current context together with the
    /// counter.
    pub open spec fn operands(self) -> StackState {
        StackState { stack: self.frame().stack, heap: self.heap }
    }

    /// The machine with another current context.
    pub open spec fn with_context(self, c: ContextView) -> EngineView {
        EngineView { invocation: self.invocation.update(self.invocation.len() - 1, c), ..self }
    }

    /// The machine with other shared states for the current context.
    pub open spec fn with_frame(self, f: SharedView) -> EngineView {
        EngineView { shared: self.shared.update(self.context().shared_states as int, f), ..self }
    }

    /// The machine with another evaluation stack for the current context
    /// and another counter.
    pub open spec fn with_operands(self, st: StackState) -> EngineView {
        EngineView { heap: st.heap, ..self.with_frame(SharedView { stack: st.stack, ..self.frame() }) }
    }

    /// The machine with the result of a stack operation, if there is one.
    pub open spec fn after_operands(self, st: Option<StackState>) -> Option<EngineView> {
        if !self.ready() {
            None
        } else {
            match st {
                Some(s) => Some(self.with_operands(s)),
                None => None,
            }
        }
    }

    /// The machine after `item` was pushed on the current evaluation stack.
    pub open spec fn push(self, item: ItemView) -> Option<EngineView> {
        self.after_operands(self.operands().push(item))
    }

    /// The machine after the top was popped from the current evaluation
    /// stack, and the former top.
    pub open spec fn pop(self) -> Option<(EngineView, ItemView)> {
        if !self.ready() {
            None
        } else {
            match self.operands().pop() {
                Some((st, item)) => Some((self.with_operands(st), item)),
                None => None,
            }
        }
    }

    /// The item `index` places below the top of the current evaluation
    /// stack.
    pub open spec fn peek(self, index: int) -> Option<ItemView> {
        if !self.ready() {
            None
        } else {
            self.operands().peek(index)
        }
    }

    /// The machine after the item `index` places below the top was removed
    /// from the current evaluation stack, and that item.
    pub open spec fn remove(self, index: int) -> Option<(EngineView, ItemView)> {
        if !self.ready() {
            None
        } else {
            match self.operands().remove(index) {
                Some((st, item)) => Some((self.with_operands(st), item)),
                None => None,
            }
        }
    }

    /// The machine after the top of the current evaluation stack was popped
    /// and read as a size: a number that is not negative and not above the
    /// largest size of the machine.
    pub open spec fn pop_size(self) -> Option<(EngineView, usize)> {
        match self.pop() {
            Some((s, item)) => match s.heap.integer_of(item) {
                Some(v) => if 0 <= v <= usize::MAX {
                    Some((s, v as usize))
                } else {
                    None
                },
                None => None,
            },
            None => None,
        }
    }

    /// The machine after the top of the current evaluation stack was popped
    /// and read as a truth value.
    pub open spec fn pop_boolean(self) -> Option<(EngineView, bool)> {
        match self.pop() {
            Some((s, item)) => match s.heap.boolean_of(item) {
                Some(b) => Some((s, b)),
                None => None,
            },
            None => None,
        }
    }

    /// The machine after the top of the current evaluation stack was popped
    /// and read as a number.
    pub open spec fn pop_integer(self) -> Option<(EngineView, int)> {
        match self.pop() {
            Some((s, item)) => match s.heap.integer_of(item) {
                Some(v) => Some((s, v)),
                None => None,
            },
            None => None,
        }
    }

    /// The machine at `position` of the current script, marked as having
    /// jumped. The position may be the end of the script.
    pub open spec fn moved_to(self, position: int) -> Option<EngineView> {
        if self.ready() && 0 <= position <= self.frame().script.value.len() {
            Some(
                EngineView {
                    is_jumping: true,
                    ..self.with_context(
                        ContextView { instruction_pointer: position as usize, ..self.context() },
                    )
                },
            )
        } else {
            None
        }
    }

    /// The machine after a jump to `position`, which must lie inside the
    /// current script.
    pub open spec fn jumped_to(self, position: int) -> Option<EngineView> {
        if self.ready() && position < self.frame().script.value.len() {
            self.moved_to(position)
        } else {
            None
        }
    }
}

impl ExecutionEngine {
    /// Whether there is a current context, and it names shared states of
    /// the machine.
    pub fn ready(&self) -> (r: bool)
        ensures
            r == self@.ready(),
    {
        let n: usize = self.invocation_stack.len();
        n > 0 && self.invocation_stack[n - 1].shared_states < self.shared_states.len()
    }

    /// The number of the shared states of the current context.
    pub fn frame_index(&self) -> (r: usize)
        requires
            self@.ready(),
        ensures
            r == self@.context().shared_states,
            r < self.shared_states@.len(),
    {
        let n: usize = self.invocation_stack.len();
        self.invocation_stack[n - 1].shared_states
    }

    /// The position at which the current context stands.
    pub fn position(&self) -> (r: usize)
        requires
            self@.ready(),
        ensures
            r == self@.context().instruction_pointer,
    {
        let n: usize = self.invocation_stack.len();
        self.invocation_stack[n - 1].instruction_pointer
    }

    /// The length of the current script.
    pub fn script_len(&self) -> (r: usize)
        requires
            self@.ready(),
        ensures
            r == self@.frame().script.value.len(),
    {
        let index = self.frame_index();
        self.shared_states[index].script.len()
    }

    /// Pushes the item on the current evaluation stack.
    pub fn push_item(&mut self, item: StackItem) -> (ok: bool)
        ensures
            ok <==> old(self)@.push(item@) is Some,
            ok ==> final(self)@ == old(self)@.push(item@)->Some_0,
    {
        if !self.ready() {
            return false;
        }
        let index = self.frame_index();
        let r = self.shared_states[index].evaluation_stack.push(item, &mut self.reference_counter);
        if r.is_ok() {
            assert(self@.shared =~= old(self)@.push(item@)->Some_0.shared);
            assert(self@.invocation =~= old(self)@.invocation);
            true
        } else {
            false
        }
    }

    /// Pops the top of the current evaluation stack.
    pub fn pop_item(&mut self) -> (r: Option<StackItem>)
        ensures
            r is Some <==> old(self)@.pop() is Some,
            r is Some ==> (final(self)@, r->Some_0@) == old(self)@.pop()->Some_0,
    {
        if !self.ready() {
            return None;
        }
        let index = self.frame_index();
        let r = self.shared_states[index].evaluation_stack.pop(&mut self.reference_counter);
        match r {
            Ok(item) => {
                assert(self@.shared =~= old(self)@.pop()->Some_0.0.shared);
                assert(self@.invocation =~= old(self)@.invocation);
                Some(item)
            },
            Err(_) => None,
        }
    }

    /// The item `index` places below the top of the current evaluation
    /// stack.
    pub fn peek_item(&self, index: usize) -> (r: Option<StackItem>)
        ensures
            r is Some <==> self@.peek(index as int) is Some,
            r is Some ==> r->Some_0@ == self@.peek(index as int)->Some_0,
    {
        if !self.ready() {
            return None;
        }
        let at = self.frame_index();
        match self.shared_states[at].evaluation_stack.peek(index) {
            Ok(item) => Some(item),
            Err(_) => None,
        }
    }

    /// Puts the machine into the fault state.
    pub fn fault(&mut self)
        ensures
            final(self)@ == (EngineView { state: VMState::FAULT, ..old(self)@ }),
    {
        self.state = VMState::FAULT;
    }

    /// Puts the machine into the fault state after the code `op` failed:
    /// where the code is `THROW`, the machine holds the item that was to be
    /// thrown.
    pub fn fault_on(&mut self, op: OpCode)
        ensures
            final(self)@ == old(self)@.faulted(op),
    {
        if matches!(op, OpCode::THROW) {
            match self.peek_item(0) {
                Some(item) => {
                    self.uncaught_exception = Some(item);
                },
                None => {},
            }
        }
        self.state = VMState::FAULT;
    }

    /// Moves the current context to `position` and marks the machine as
    /// having jumped.
    pub fn move_to(&mut self, position: i128) -> (ok: bool)
        ensures
            ok <==> old(self)@.moved_to(position as int) is Some,
            ok ==> final(self)@ == old(self)@.moved_to(position as int)->Some_0,
    {
        if !self.ready() {
            return false;
        }
        let len: usize = self.script_len();
        if position < 0 || position > len as i128 {
            return false;
        }
        let n: usize = self.invocation_stack.len();
        self.invocation_stack[n - 1].instruction_pointer = position as usize;
        self.is_jumping = true;
        assert(self@.invocation =~= old(self)@.moved_to(position as int)->Some_0.invocation);
        assert(self@.shared =~= old(self)@.shared);
        true
    }

    /// Jumps to `position`, which must lie inside the current script.
    pub fn jump_to(&mut self, position: i128) -> (ok: bool)
        ensures
            ok <==> old(self)@.jumped_to(position as int) is Some,
            ok ==> final(self)@ == old(self)@.jumped_to(position as int)->Some_0,
    {
        if !self.ready() {
            return false;
        }
        let len: usize = self.script_len();
        if position >= len as i128 {
            return false;
        }
        self.move_to(position)
    }

    /// Removes the item `index` places below the top of the current
    /// evaluation stack.
    pub fn remove_item(&mut self, index: usize) -> (r: Option<StackItem>)
        ensures
            r is Some <==> old(self)@.remove(index as int) is Some,
            r is Some ==> (final(self)@, r->Some_0@) == old(self)@.remove(index as int)->Some_0,
    {
        if !self.ready() {
            return None;
        }
        let at = self.frame_index();
        let r = self.shared_states[at].evaluation_stack.remove(index, &mut self.reference_counter);
        match r {
            Ok(item) => {
                assert(self@.shared =~= old(self)@.remove(index as int)->Some_0.0.shared);
                assert(self@.invocation =~= old(self)@.invocation);
                Some(item)
            },
            Err(_) => None,
        }
    }

    /// Inserts the item `index` places below the top of the current
    /// evaluation stack.
    pub fn insert_item(&mut self, index: usize, item: StackItem) -> (ok: bool)
        ensures
            ok <==> old(self)@.after_operands(old(self)@.operands().insert(index as int, item@))
                is Some,
            ok ==> final(self)@ == old(self)@.after_operands(
                old(self)@.operands().insert(index as int, item@),
            )->Some_0,
    {
        if !self.ready() {
            return false;
        }
        let at = self.frame_index();
        let r = self.shared_states[at].evaluation_stack.insert(
            index,
            item,
            &mut self.reference_counter,
        );
        if r.is_ok() {
            assert(self@.shared =~= old(self)@.after_operands(
                old(self)@.operands().insert(index as int, item@),
            )->Some_0.shared);
            assert(self@.invocation =~= old(self)@.invocation);
            true
        } else {
            false
        }
    }

    /// Puts the top `n` items of the current evaluation stack in the
    /// opposite order.
    pub fn reverse_top(&mut self, n: usize) -> (ok: bool)
        ensures
            ok <==> old(self)@.after_operands(old(self)@.operands().reverse(n as int)) is Some,
            ok ==> final(self)@ == old(self)@.after_operands(
                old(self)@.operands().reverse(n as int),
            )->Some_0,
    {
        if !self.ready() {
            return false;
        }
        let at = self.frame_index();
        let r = self.shared_states[at].evaluation_stack.reverse(n);
        if r.is_ok() {
            assert(self@.shared =~= old(self)@.after_operands(
                old(self)@.operands().reverse(n as int),
            )->Some_0.shared);
            assert(self@.invocation =~= old(self)@.invocation);
            true
        } else {
            false
        }
    }

    /// Removes every item of the current evaluation stack.
    pub fn clear_stack(&mut self) -> (ok: bool)
        ensures
            ok <==> old(self)@.after_operands(old(self)@.operands().clear()) is Some,
            ok ==> final(self)@ == old(self)@.after_operands(old(self)@.operands().clear())->Some_0,
    {
        if !self.ready() {
            return false;
        }
        let at = self.frame_index();
        let ok = self.shared_states[at].evaluation_stack.clear(&mut self.reference_counter);
        if ok {
            assert(self@.shared =~= old(self)@.after_operands(
                old(self)@.operands().clear(),
            )->Some_0.shared);
            assert(self@.invocation =~= old(self)@.invocation);
        }
        ok
    }

    /// Pops the top of the current evaluation stack and reads it as a size.
    pub fn pop_size(&mut self) -> (r: Option<usize>)
        ensures
            r is Some <==> old(self)@.pop_size() is Some,
            r is Some ==> (final(self)@, r->Some_0) == old(self)@.pop_size()->Some_0,
    {
        let item = match self.pop_item() {
            Some(item) => item,
            None => {
                return None;
            },
        };
        match item.get_integer(&self.reference_counter) {
            Some(v) => v.value().to_usize(),
            None => None,
        }
    }

    /// Pops the top of the current evaluation stack and reads it as a truth
    /// value.
    pub fn pop_boolean(&mut self) -> (r: Option<bool>)
        ensures
            r is Some <==> old(self)@.pop_boolean() is Some,
            r is Some ==> (final(self)@, r->Some_0) == old(self)@.pop_boolean()->Some_0,
    {
        let item = match self.pop_item() {
            Some(item) => item,
            None => {
                return None;
            },
        };
        item.get_boolean(&self.reference_counter)
    }

    /// Pops the top of the current evaluation stack and reads it as a
    /// number.
    pub fn pop_integer(&mut self) -> (r: Option<crate::types::primitive_types::vm_integer::VMInteger>)
        ensures
            r is Some <==> old(self)@.pop_integer() is Some,
            r is Some ==> (final(self)@, r->Some_0@) == old(self)@.pop_integer()->Some_0,
    {
        let item = match self.pop_item() {
            Some(item) => item,
            None => {
                return None;
            },
        };
        item.get_integer(&self.reference_counter)
    }
}

impl EngineView {
    /// A machine without contexts in the state `BREAK`.
    pub open spec fn initial(
        table: Seq<Handler>,
        heap: CounterView,
        limits: ExecutionEngineLimits,
    ) -> EngineView {
        EngineView {
            state: VMState::BREAK,
            is_jumping: false,
            table,
            limits,
            heap,
            shared: Seq::<SharedView>::empty(),
            invocation: Seq::<ContextView>::empty(),
            result_stack: Seq::<ItemView>::empty(),
            uncaught: None,
            pending: None,
        }
    }

    /// The instruction at which the current context stands.
    pub open spec fn fetched(self) -> Option<InstructionView> {
        if !self.ready() {
            None
        } else {
            match spec_get_instruction(
                self.frame().script,
                self.context().instruction_pointer as int,
            ) {
                Ok(ins) => Some(ins),
                Err(_) => None,
            }
        }
    }

    /// The machine after the check of the stack limit: where more
    /// references are live than the limit allows, the objects that nothing
    /// reaches are reclaimed; there is no result where the references are
    /// then still above the limit, nor for a counter with more objects than
    /// the machine can number.
    pub open spec fn within_limit(self) -> Option<EngineView> {
        if self.heap.count > self.limits.max_stack_size {
            let h = checked_zero_referred(self.heap);
            if h.count > self.limits.max_stack_size || !self.heap.wf() {
                None
            } else {
                Some(EngineView { heap: h, ..self })
            }
        } else {
            Some(self)
        }
    }

    /// The machine after the instruction of `size` bytes that the context
    /// number `index` executed: unless the machine has jumped, that context
    /// stands behind the instruction. The mark of a jump is cleared.
    pub open spec fn advanced(self, index: int, size: int) -> Option<EngineView> {
        if self.is_jumping {
            Some(EngineView { is_jumping: false, ..self })
        } else if 0 <= index < self.invocation.len()
            && self.invocation[index].instruction_pointer + size <= usize::MAX {
            Some(
                EngineView {
                    invocation: self.invocation.update(
                        index,
                        ContextView {
                            instruction_pointer: (self.invocation[index].instruction_pointer
                                + size) as usize,
                            ..self.invocation[index]
                        },
                    ),
                    ..self
                },
            )
        } else {
            None
        }
    }

    /// The exception that the machine holds after the code `op` failed:
    /// `THROW` leaves the item that it was to throw, any other code what
    /// the machine held before.
    pub open spec fn raised(self, op: OpCode) -> Option<ItemView> {
        if op == OpCode::THROW {
            match self.peek(0) {
                Some(item) => Some(item),
                None => self.uncaught,
            }
        } else {
            self.uncaught
        }
    }

    /// The machine after the code `op` failed: it has faulted and holds the
    /// exception that the code leaves. Its stacks, contexts, objects and
    /// counts are those from before the instruction.
    pub open spec fn faulted(self, op: OpCode) -> EngineView {
        EngineView { state: VMState::FAULT, uncaught: self.raised(op), ..self }
    }

    /// The machine after one step that succeeds: without a context it
    /// halts; else the instruction at which the current context stands is
    /// fetched and executed, the stack limit is checked, and the context
    /// moves on. An instruction whose code the table hands to the host is
    /// not executed: the machine pauses for the host. There is no result
    /// where the step fails.
    #[verifier::opaque]
    pub open spec fn next(self) -> Option<EngineView> {
        if self.invocation.len() == 0 {
            Some(EngineView { state: VMState::HALT, ..self })
        } else {
            match self.fetched() {
                Some(ins) => if host_handles(self.table, ins.opcode) {
                    self.delegated(ins.opcode, self.invocation.len() - 1, ins.size())
                } else if has_handler(self.table, ins.opcode) {
                    self.completed(ins.opcode, ins.operand, self.invocation.len() - 1, ins.size())
                } else {
                    None
                },
                None => None,
            }
        }
    }

    /// The machine after the handler of the instruction ran, the stack
    /// limit was checked and the context number `index` moved on. There is
    /// no result where one of the three fails.
    pub open spec fn completed(self, op: OpCode, operand: Seq<u8>, index: int, size: int) -> Option<
        EngineView,
    > {
        match self.handled(op, operand) {
            Some(t) => t.settled(index, size),
            None => None,
        }
    }

    /// The machine after an instruction whose code the host executes: the
    /// machine pauses with the code as its pending request, the stack limit
    /// is checked, and the context number `index` moves on.
    pub open spec fn delegated(self, op: OpCode, index: int, size: int) -> Option<EngineView> {
        if self.ready() {
            (EngineView {
                pending: Some(HostCall::Instruction(op)),
                state: VMState::BREAK,
                ..self
            }).settled(index, size)
        } else {
            None
        }
    }

    /// The machine after the stack limit was checked and the context
    /// number `index` moved behind the instruction of `size` bytes.
    pub open spec fn settled(self, index: int, size: int) -> Option<EngineView> {
        match self.within_limit() {
            Some(u) => u.advanced(index, size),
            None => None,
        }
    }

    /// The machine after a step that fails: it has faulted and is otherwise
    /// as it stood before the step. Where the handler of the instruction
    /// was called, the machine holds the exception that its code leaves.
    pub open spec fn failed(self) -> EngineView {
        match self.fetched() {
            Some(ins) => if has_handler(self.table, ins.opcode) {
                self.faulted(ins.opcode)
            } else {
                EngineView { state: VMState::FAULT, ..self }
            },
            None => EngineView { state: VMState::FAULT, ..self },
        }
    }

    /// The machine after one step: the machine that the step leaves where
    /// it succeeds, and the faulted machine where it fails.
    pub open spec fn step(self) -> EngineView {
        match self.next() {
            Some(t) => t,
            None => self.failed(),
        }
    }

    /// The machine after at most `fuel` steps: it steps while it is in the
    /// state `NONE`, and pauses in the state `BREAK` when the steps are
    /// used up.
    pub open spec fn run(self, fuel: nat) -> EngineView
        decreases fuel,
    {
        if self.state != VMState::NONE {
            self
        } else if fuel == 0 {
            EngineView { state: VMState::BREAK, ..self }
        } else {
            self.step().run((fuel - 1) as nat)
        }
    }

    /// The machine as it starts to execute: a machine that pauses without a
    /// pending request to the host runs again.
    pub open spec fn resumed(self) -> EngineView {
        if self.state == VMState::BREAK && self.pending is None {
            EngineView { state: VMState::NONE, ..self }
        } else {
            self
        }
    }

    /// The machine with the script loaded: new shared states with an empty
    /// stack, and a new current context at `position`.
    pub open spec fn with_script(self, script: ScriptView, rv_count: i32, position: usize) -> EngineView {
        EngineView {
            shared: self.shared.push(
                SharedView { script, stack: Seq::<ItemView>::empty(), static_fields: None },
            ),
            invocation: self.invocation.push(
                ContextView::fresh(self.shared.len() as usize, rv_count, position),
            ),
            ..self
        }
    }

    /// Why a script cannot be loaded, if it cannot: the number of return
    /// values is outside -1 to 65535 or the position is outside the script,
    /// or the invocation stack is full.
    pub open spec fn load_error(self, script: ScriptView, rv_count: i32, position: usize) -> Option<
        VMErrorKind,
    > {
        if rv_count < -1 || rv_count > 65535 || position > script.value.len() {
            Some(VMErrorKind::InvalidParameter)
        } else if self.invocation.len() >= self.limits.max_invocation_stack_size {
            Some(VMErrorKind::InvocationStackOverflow)
        } else {
            None
        }
    }
}

impl ExecutionEngine {
    /// A machine with the given table, or the default one, and the default
    /// limits. Its reference count equals its live references: there are
    /// none.
    pub fn new(jump_table: Option<JumpTable>) -> (r: Self)
        ensures
            r@ == EngineView::initial(
                match jump_table {
                    Some(t) => t@,
                    None => crate::jump_table::default_table(),
                },
                CounterView::empty(),
                ExecutionEngineLimits::spec_default(),
            ),
            crate::vm::accounting::balanced(r@),
    {
        let r = ExecutionEngine::new_with_limits(
            jump_table,
            ReferenceCounter::new(),
            ExecutionEngineLimits::default(),
        );
        proof {
            crate::vm::accounting::lemma_start_is_balanced(
                r@.table,
                r@.limits,
                r@,
                ScriptView { value: Seq::<u8>::empty(), strict_mode: false },
                0,
                0,
            );
        }
        r
    }

    /// A machine with the default table and the default limits.
    pub fn new_default() -> (r: Self)
        ensures
            r@ == EngineView::initial(
                crate::jump_table::default_table(),
                CounterView::empty(),
                ExecutionEngineLimits::spec_default(),
            ),
            crate::vm::accounting::balanced(r@),
    {
        ExecutionEngine::new(None)
    }

    /// A machine with the given table, or the default one, the given
    /// counter and the given limits.
    pub fn new_with_limits(
        jump_table: Option<JumpTable>,
        reference_counter: ReferenceCounter,
        limits: ExecutionEngineLimits,
    ) -> (r: Self)
        ensures
            r@ == EngineView::initial(
                match jump_table {
                    Some(t) => t@,
                    None => crate::jump_table::default_table(),
                },
                reference_counter@,
                limits,
            ),
    {
        let table = match jump_table {
            Some(t) => t,
            None => JumpTable::new(),
        };
        let r = ExecutionEngine {
            state: VMState::BREAK,
            is_jumping: false,
            jump_table: table,
            limits,
            reference_counter,
            shared_states: Vec::new(),
            invocation_stack: Vec::new(),
            result_stack: EvaluationStack::new(),
            uncaught_exception: None,
            pending_call: None,
        };
        assert(r@.shared =~= Seq::<SharedView>::empty());
        assert(r@.invocation =~= Seq::<ContextView>::empty());
        r
    }

    /// Loads the script: it gets shared states of its own and a context at
    /// `initial_position`, which becomes the current one. The result is the
    /// number of the context on the invocation stack.
    pub fn load_script(&mut self, script: Script, rv_count: i32, initial_position: usize) -> (r:
        Result<usize, VMError>)
        ensures
            match r {
                Ok(handle) => old(self)@.load_error(script@, rv_count, initial_position) is None
                    && final(self)@ == old(self)@.with_script(script@, rv_count, initial_position)
                    && handle == old(self)@.invocation.len(),
                Err(e) => old(self)@.load_error(script@, rv_count, initial_position) == Some(
                    e.spec_kind(),
                ) && final(self)@ == old(self)@,
            },
            crate::vm::accounting::balanced(old(self)@) ==> crate::vm::accounting::balanced(
                final(self)@,
            ),
    {
        proof {
            crate::vm::accounting::lemma_start_is_balanced(
                self@.table,
                self@.limits,
                self@,
                script@,
                rv_count,
                initial_position,
            );
        }
        if rv_count < -1 || rv_count > 65535 {
            return Err(VMError::InvalidParameter("Invalid rv_count".to_owned()));
        }
        if initial_position > script.len() {
            return Err(VMError::InvalidParameter("Instruction pointer out of range".to_owned()));
        }
        if self.invocation_stack.len() >= self.limits.max_invocation_stack_size {
            return Err(
                VMError::InvocationStackOverflow("MaxInvocationStackSize exceeded".to_owned()),
            );
        }
        let index: usize = self.shared_states.len();
        let handle: usize = self.invocation_stack.len();
        self.shared_states.push(SharedStates::new(script));
        let mut context = ExecutionContext::new(index, rv_count);
        context.instruction_pointer = initial_position;
        self.invocation_stack.push(context);
        assert(self@.shared =~= old(self)@.with_script(
            script@,
            rv_count,
            initial_position,
        ).shared);
        assert(self@.invocation =~= old(self)@.with_script(
            script@,
            rv_count,
            initial_position,
        ).invocation);
        Ok(handle)
    }

    /// Makes the context the current one. It fails, and changes nothing,
    /// where the invocation stack is full.
    pub fn load_context(&mut self, context: ExecutionContext) -> (r: Result<(), VMError>)
        ensures
            match r {
                Ok(()) => old(self)@.invocation.len() < old(self)@.limits.max_invocation_stack_size
                    && final(self)@ == (EngineView {
                    invocation: old(self)@.invocation.push(context@),
                    ..old(self)@
                }),
                Err(e) => old(self)@.invocation.len()
                    >= old(self)@.limits.max_invocation_stack_size && final(self)@ == old(self)@
                    && e.spec_kind() == VMErrorKind::InvocationStackOverflow,
            },
    {
        if self.invocation_stack.len() >= self.limits.max_invocation_stack_size {
            return Err(
                VMError::InvocationStackOverflow("MaxInvocationStackSize exceeded".to_owned()),
            );
        }
        self.invocation_stack.push(context);
        assert(self@.invocation =~= old(self)@.invocation.push(context@));
        Ok(())
    }

    /// Fetches the instruction at which the current context stands.
    pub fn fetch(&self) -> (r: Option<Instruction>)
        ensures
            r is Some <==> self@.fetched() is Some,
            r is Some ==> r->Some_0@ == self@.fetched()->Some_0,
            r is Some ==> self@.context().instruction_pointer + r->Some_0@.size() <= usize::MAX,
    {
        if !self.ready() {
            return None;
        }
        let at = self.frame_index();
        let ip = self.position();
        let script = &self.shared_states[at].script;
        assert(script@ == self@.frame().script);
        let len: usize = script.len();
        match script.get_instruction(ip) {
            Ok(ins) => {
                proof {
                    assert(spec_get_instruction(script@, ip as int) is Ok);
                    assert(crate::vm::instruction::spec_decode(script@.value, ip as int) is Ok);
                    lemma_decode_bounds(script@.value, ip as int);
                }
                Some(ins)
            },
            Err(_) => None,
        }
    }

    /// Checks the stack limit, and reclaims what nothing reaches where the
    /// limit is passed.
    pub fn check_limit(&mut self) -> (ok: bool)
        ensures
            ok <==> old(self)@.within_limit() is Some,
            ok ==> final(self)@ == old(self)@.within_limit()->Some_0,
    {
        if self.reference_counter.count() > self.limits.max_stack_size {
            let left = self.reference_counter.check_zero_referred();
            left <= self.limits.max_stack_size
        } else {
            true
        }
    }

    /// Moves the context number `index` behind the instruction of `size`
    /// bytes that it executed, unless the machine has jumped.
    pub fn advance(&mut self, index: usize, size: usize) -> (ok: bool)
        ensures
            ok <==> old(self)@.advanced(index as int, size as int) is Some,
            ok ==> final(self)@ == old(self)@.advanced(index as int, size as int)->Some_0,
    {
        if self.is_jumping {
            self.is_jumping = false;
            return true;
        }
        if index >= self.invocation_stack.len() {
            return false;
        }
        let ip: usize = self.invocation_stack[index].instruction_pointer;
        if size > usize::MAX - ip {
            return false;
        }
        self.invocation_stack[index].instruction_pointer = ip + size;
        assert(self@.invocation =~= old(self)@.advanced(
            index as int,
            size as int,
        )->Some_0.invocation);
        assert(self@.shared =~= old(self)@.shared);
        true
    }

    /// Executes one step. A step that fails leaves the machine faulted and
    /// otherwise as it stood before the step. After a step that executed an
    /// instruction, the machine has faulted or holds at most as many
    /// references as the stack limit allows. A machine whose reference
    /// count equals its live references is of that kind again afterwards.
    pub fn execute_next(&mut self)
        ensures
            final(self)@ == old(self)@.step(),
            old(self)@.invocation.len() > 0 ==> final(self)@.state == VMState::FAULT || final(self)@.heap.count <= final(self)@.limits.max_stack_size,
            crate::vm::accounting::balanced(old(self)@) ==> crate::vm::accounting::balanced(
                final(self)@,
            ),
    {
        proof {
            reveal(EngineView::next);
            if crate::vm::accounting::balanced(self@) {
                crate::vm::accounting::lemma_step_keeps_balance(self@);
            }
        }
        if self.invocation_stack.len() == 0 {
            self.state = VMState::HALT;
            return;
        }
        let index: usize = self.invocation_stack.len() - 1;
        let instruction = match self.fetch() {
            Some(ins) => ins,
            None => {
                self.fault();
                return;
            },
        };
        let size: usize = instruction.size();
        if self.jump_table.delegates(instruction.opcode) {
            let saved = self.snapshot();
            if !self.delegate(instruction.opcode, index, size) {
                *self = saved;
                self.fault();
            }
            return;
        }
        if !self.jump_table.contains(instruction.opcode) {
            self.fault();
            return;
        }
        let saved = self.snapshot();
        if !self.complete(index, &instruction, size) {
            *self = saved;
            self.fault_on(instruction.opcode);
        }
    }

    /// Pauses for the host to execute an instruction of the code `op`,
    /// checks the stack limit and moves the context number `index` behind
    /// the `size` bytes of the instruction.
    fn delegate(&mut self, op: OpCode, index: usize, size: usize) -> (ok: bool)
        ensures
            ok <==> old(self)@.delegated(op, index as int, size as int) is Some,
            ok ==> final(self)@ == old(self)@.delegated(op, index as int, size as int)->Some_0,
    {
        if !self.ready() {
            return false;
        }
        self.pending_call = Some(HostCall::Instruction(op));
        self.state = VMState::BREAK;
        self.settle(index, size)
    }

    /// Checks the stack limit and moves the context number `index` behind
    /// the instruction of `size` bytes.
    fn settle(&mut self, index: usize, size: usize) -> (ok: bool)
        ensures
            ok <==> old(self)@.settled(index as int, size as int) is Some,
            ok ==> final(self)@ == old(self)@.settled(index as int, size as int)->Some_0,
    {
        if !self.check_limit() {
            return false;
        }
        self.advance(index, size)
    }

    /// Runs the handler of the instruction, checks the stack limit and
    /// moves the context number `index` behind the `size` bytes of the
    /// instruction.
    fn complete(&mut self, index: usize, instruction: &Instruction, size: usize) -> (ok: bool)
        ensures
            ok <==> old(self)@.completed(
                instruction.opcode,
                instruction.operand@,
                index as int,
                size as int,
            ) is Some,
            ok ==> final(self)@ == old(self)@.completed(
                instruction.opcode,
                instruction.operand@,
                index as int,
                size as int,
            )->Some_0,
    {
        if !self.handle(instruction.opcode, instruction) {
            return false;
        }
        self.settle(index, size)
    }

    /// Executes at most `max_steps` steps and gives back the state in which
    /// the machine stops: `HALT` after the last context returned, `FAULT`
    /// after an error, `BREAK` where it waits for the host or has used up
    /// its steps.
    pub fn execute(&mut self, max_steps: usize) -> (r: VMState)
        ensures
            final(self)@ == old(self)@.resumed().run(max_steps as nat),
            r == final(self)@.state,
            crate::vm::accounting::balanced(old(self)@) ==> crate::vm::accounting::balanced(
                final(self)@,
            ),
    {
        proof {
            if crate::vm::accounting::balanced(self@) {
                crate::vm::accounting::lemma_run_keeps_balance(self@.resumed(), max_steps as nat);
            }
        }
        if matches!(self.state, VMState::BREAK) && self.pending_call.is_none() {
            self.state = VMState::NONE;
        }
        let mut left: usize = max_steps;
        loop
            invariant_except_break
                old(self)@.resumed().run(max_steps as nat) == self@.run(left as nat),
            ensures
                self@ == old(self)@.resumed().run(max_steps as nat),
            decreases left,
        {
            if !matches!(self.state, VMState::NONE) {
                break;
            }
            if left == 0 {
                self.state = VMState::BREAK;
                break;
            }
            let ghost prev = self@;
            self.execute_next();
            proof {
                assert(prev.run(left as nat) == prev.step().run((left - 1) as nat));
            }
            if matches!(self.state, VMState::FAULT) {
                proof {
                    assert(self@.run((left - 1) as nat) == self@);
                }
                break;
            }
            left = left - 1;
        }
        self.state
    }

    /// Tells the machine that the host has performed the pending request.
    /// The machine runs again after a success and faults after a failure.
    /// Without a pending request nothing changes.
    pub fn complete_host_call(&mut self, success: bool)
        ensures
            final(self)@ == if old(self)@.pending is Some {
                EngineView {
                    pending: None,
                    state: if success {
                        VMState::NONE
                    } else {
                        VMState::FAULT
                    },
                    ..old(self)@
                }
            } else {
                old(self)@
            },
    {
        if self.pending_call.is_some() {
            self.pending_call = None;
            self.state = if success {
                VMState::NONE
            } else {
                VMState::FAULT
            };
        }
    }
}

impl ExecutionEngine {
    pub fn is_jumping(&self) -> (r: bool)
        ensures
            r == self@.is_jumping,
    {
        self.is_jumping
    }

    pub fn set_is_jumping(&mut self, is_jumping: bool)
        ensures
            final(self)@ == (EngineView { is_jumping, ..old(self)@ }),
    {
        self.is_jumping = is_jumping;
    }

    pub fn jump_table(&self) -> (r: &JumpTable)
        ensures
            r@ == self@.table,
    {
        &self.jump_table
    }

    pub fn set_jump_table(&mut self, jump_table: JumpTable)
        ensures
            final(self)@ == (EngineView { table: jump_table@, ..old(self)@ }),
    {
        self.jump_table = jump_table;
    }

    pub fn limits(&self) -> (r: &ExecutionEngineLimits)
        ensures
            *r == self@.limits,
    {
        &self.limits
    }

    pub fn set_limits(&mut self, limits: ExecutionEngineLimits)
        ensures
            final(self)@ == (EngineView { limits, ..old(self)@ }),
    {
        self.limits = limits;
    }

    pub fn reference_counter(&self) -> (r: &ReferenceCounter)
        ensures
            r@ == self@.heap,
    {
        &self.reference_counter
    }

    pub fn set_reference_counter(&mut self, reference_counter: ReferenceCounter)
        ensures
            final(self)@ == (EngineView { heap: reference_counter@, ..old(self)@ }),
    {
        self.reference_counter = reference_counter;
    }

    pub fn invocation_stack(&self) -> (r: &Vec<ExecutionContext>)
        ensures
            context_views(r@) == self@.invocation,
    {
        &self.invocation_stack
    }

    pub fn set_invocation_stack(&mut self, invocation_stack: Vec<ExecutionContext>)
        ensures
            final(self)@ == (EngineView {
                invocation: context_views(invocation_stack@),
                ..old(self)@
            }),
    {
        self.invocation_stack = invocation_stack;
    }

    /// The context that is executing, if there is one.
    pub fn current_context(&self) -> (r: Option<&ExecutionContext>)
        ensures
            r is Some <==> self@.invocation.len() > 0,
            r is Some ==> r->Some_0@ == self@.invocation.last(),
    {
        let n: usize = self.invocation_stack.len();
        if n == 0 {
            None
        } else {
            Some(&self.invocation_stack[n - 1])
        }
    }

    /// The context that was loaded first, if there is one.
    pub fn entry_context(&self) -> (r: Option<&ExecutionContext>)
        ensures
            r is Some <==> self@.invocation.len() > 0,
            r is Some ==> r->Some_0@ == self@.invocation[0],
    {
        if self.invocation_stack.len() == 0 {
            None
        } else {
            Some(&self.invocation_stack[0])
        }
    }

    pub fn result_stack(&self) -> (r: &EvaluationStack)
        ensures
            r@ == self@.result_stack,
    {
        &self.result_stack
    }

    pub fn set_result_stack(&mut self, result_stack: EvaluationStack)
        ensures
            final(self)@ == (EngineView { result_stack: result_stack@, ..old(self)@ }),
    {
        self.result_stack = result_stack;
    }

    pub fn uncaught_exception(&self) -> (r: &Option<StackItem>)
        ensures
            option_view(*r) == self@.uncaught,
    {
        &self.uncaught_exception
    }

    pub fn set_uncaught_exception(&mut self, uncaught_exception: Option<StackItem>)
        ensures
            final(self)@ == (EngineView { uncaught: option_view(uncaught_exception), ..old(self)@ }),
    {
        self.uncaught_exception = uncaught_exception;
    }

    pub fn state(&self) -> (r: VMState)
        ensures
            r == self@.state,
    {
        self.state
    }

    pub fn set_state(&mut self, new_state: VMState)
        ensures
            final(self)@ == (EngineView { state: new_state, ..old(self)@ }),
    {
        self.state = new_state;
    }

    /// The request that waits for the host, if there is one.
    pub fn pending_call(&self) -> (r: Option<HostCall>)
        ensures
            r == self@.pending,
    {
        self.pending_call
    }

    /// The item `index` places below the top of the current evaluation
    /// stack.
    pub fn peek(&self, index: usize) -> (r: Result<StackItem, VMError>)
        ensures
            match r {
                Ok(item) => self@.peek(index as int) == Some(item@),
                Err(e) => self@.peek(index as int) is None && e.spec_kind() == if self@.ready() {
                    VMErrorKind::InvalidParameter
                } else {
                    VMErrorKind::Custom
                },
            },
    {
        if !self.ready() {
            return Err(VMError::Custom("No current context".to_owned()));
        }
        let at = self.frame_index();
        self.shared_states[at].evaluation_stack.peek(index)
    }

    /// Pops the top of the current evaluation stack.
    pub fn pop(&mut self) -> (r: Result<StackItem, VMError>)
        ensures
            match r {
                Ok(item) => old(self)@.pop() == Some((final(self)@, item@)),
                Err(e) => old(self)@.pop() is None && final(self)@ == old(self)@,
            },
            crate::vm::accounting::balanced(old(self)@) ==> crate::vm::accounting::balanced(
                final(self)@,
            ),
    {
        proof {
            if crate::vm::accounting::balanced(self@) {
                crate::vm::accounting::lemma_engine_stack(self@, 0, ItemView::Null);
            }
        }
        if !self.ready() {
            return Err(VMError::Custom("No current context".to_owned()));
        }
        let at = self.frame_index();
        let r = self.shared_states[at].evaluation_stack.pop(&mut self.reference_counter);
        match r {
            Ok(item) => {
                assert(self@.shared =~= old(self)@.pop()->Some_0.0.shared);
                assert(self@.invocation =~= old(self)@.invocation);
                Ok(item)
            },
            Err(e) => {
                assert(self@.shared =~= old(self)@.shared);
                assert(self@.invocation =~= old(self)@.invocation);
                Err(e)
            },
        }
    }

    /// Pushes the item on the current evaluation stack.
    pub fn push(&mut self, item: StackItem) -> (r: Result<(), VMError>)
        ensures
            match r {
                Ok(()) => old(self)@.push(item@) == Some(final(self)@),
                Err(e) => old(self)@.push(item@) is None && final(self)@ == old(self)@,
            },
            crate::vm::accounting::balanced(old(self)@) ==> crate::vm::accounting::balanced(
                final(self)@,
            ),
    {
        proof {
            if crate::vm::accounting::balanced(self@) {
                crate::vm::accounting::lemma_engine_stack(self@, 0, item@);
            }
        }
        if !self.ready() {
            return Err(VMError::Custom("No current context".to_owned()));
        }
        let at = self.frame_index();
        let r = self.shared_states[at].evaluation_stack.push(item, &mut self.reference_counter);
        match r {
            Ok(()) => {
                assert(self@.shared =~= old(self)@.push(item@)->Some_0.shared);
                assert(self@.invocation =~= old(self)@.invocation);
                Ok(())
            },
            Err(e) => {
                assert(self@.shared =~= old(self)@.shared);
                assert(self@.invocation =~= old(self)@.invocation);
                Err(e)
            },
        }
    }

    /// Removes the current context from the invocation stack and unloads
    /// it. It fails where there is no context, and where the counter
    /// refuses to let go of what the context held; the machine is then as
    /// it was.
    pub fn unload_context(&mut self) -> (r: Result<(), VMError>)
        ensures
            match r {
                Ok(()) => old(self)@.invocation.len() > 0 && old(self)@.without_context().unloaded(
                    old(self)@.context(),
                ) == Some(final(self)@),
                Err(e) => (old(self)@.invocation.len() == 0
                    || old(self)@.without_context().unloaded(old(self)@.context()) is None)
                    && final(self)@ == old(self)@,
            },
    {
        if self.invocation_stack.len() == 0 {
            return Err(VMError::Custom("No current context".to_owned()));
        }
        let saved = self.snapshot();
        match self.invocation_stack.pop() {
            Some(ctx) => {
                assert(self@.invocation =~= old(self)@.without_context().invocation);
                if self.unload(ctx) {
                    Ok(())
                } else {
                    *self = saved;
                    Err(VMError::Custom("The counter refused the release".to_owned()))
                }
            },
            None => {
                *self = saved;
                Err(VMError::Custom("No current context".to_owned()))
            },
        }
    }
}

/// The stack bound: after a step that executed an instruction, the
/// machine has faulted, or at most as many references are live as the
/// stack limit allows.
pub proof fn lemma_step_keeps_stack_bound(s: EngineView)
    requires
        s.invocation.len() > 0,
    ensures
        s.step().state == VMState::FAULT || s.step().heap.count <= s.step().limits.max_stack_size,
{
    reveal(EngineView::next);
}

/// A step that fails changes nothing but the state, and after a failed
/// `THROW` the exception that the machine holds: the stacks, the contexts,
/// the objects and the counts are those from before the step.
pub proof fn lemma_failed_step_keeps_contents(s: EngineView)
    requires
        s.next() is None,
    ensures
        s.step().state == VMState::FAULT,
        s.step() == (EngineView { state: VMState::FAULT, uncaught: s.step().uncaught, ..s }),
        s.step().uncaught != s.uncaught ==> s.fetched() is Some && s.fetched()->Some_0.opcode
            == OpCode::THROW && s.step().uncaught == s.peek(0),
{
}

/// The machine is deterministic: two machines that start from the same
/// state and are given the same number of steps stop in the same state,
/// with the same result stack, the same exception and the same everything
/// else, whether they halt, pause or fault.
pub proof fn lemma_deterministic(start: EngineView, steps: nat, first: EngineView, second: EngineView)
    requires
        first == start.resumed().run(steps),
        second == start.resumed().run(steps),
    ensures
        first == second,
        first.state == second.state,
        first.result_stack == second.result_stack,
        first.uncaught == second.uncaught,
{
}

/// A machine that has halted or faulted does not move: running it changes
/// nothing.
pub proof fn lemma_stopped_machine_stays(s: EngineView, steps: nat)
    requires
        s.state == VMState::HALT || s.state == VMState::FAULT,
    ensures
        s.resumed().run(steps) == s,
{
}

} // verus!
