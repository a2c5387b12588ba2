use crate::types::stack_item::ItemView;
use crate::vm::evaluation_stack::EvaluationStack;
use crate::vm::exception_handling_context::ExceptionHandlingContext;
use crate::vm::instruction::{Instruction, InstructionView};
use crate::vm::script::{spec_get_instruction, Script, ScriptError, ScriptView};
use crate::vm::slot::Slot;
use vstd::prelude::*;

verus! {

/// What the contexts of one loaded script share: the script, the
/// evaluation stack and the static fields.
#[derive(Debug)]
pub struct SharedStates {
    pub script: Script,
    pub evaluation_stack: EvaluationStack,
    pub static_fields: Option<Slot>,
}

/// The shared states as a mathematical value.
pub struct SharedView {
    pub script: ScriptView,
    pub stack: Seq<ItemView>,
    pub static_fields: Option<Seq<ItemView>>,
}

/// The items of a slot, if there is one.
pub open spec fn slot_view(slot: Option<Slot>) -> Option<Seq<ItemView>> {
    match slot {
        Some(s) => Some(s@),
        None => None,
    }
}

impl View for SharedStates {
    type V = SharedView;

    open spec fn view(&self) -> SharedView {
        SharedView {
            script: self.script@,
            stack: self.evaluation_stack@,
            static_fields: slot_view(self.static_fields),
        }
    }
}

impl SharedStates {
    /// The shared states of a freshly loaded script.
    pub fn new(script: Script) -> (r: Self)
        ensures
            r@ == (SharedView {
                script: script@,
                stack: Seq::<ItemView>::empty(),
                static_fields: None,
            }),
    {
        SharedStates { script, evaluation_stack: EvaluationStack::new(), static_fields: None }
    }
}

/// One activation of a script: where it executes, how many values it
/// returns (-1 for any number), its local variables, its arguments and its
/// active `TRY` blocks. The script, the evaluation stack and the static
/// fields belong to the shared states that the context names by number.
#[derive(Debug)]
pub struct ExecutionContext {
    pub shared_states: usize,
    pub rv_count: i32,
    pub instruction_pointer: usize,
    pub local_variables: Option<Slot>,
    pub arguments: Option<Slot>,
    pub try_stack: Option<Vec<ExceptionHandlingContext>>,
}

/// A context as a mathematical value.
pub struct ContextView {
    pub shared_states: usize,
    pub rv_count: i32,
    pub instruction_pointer: usize,
    pub local_variables: Option<Seq<ItemView>>,
    pub arguments: Option<Seq<ItemView>>,
    pub try_stack: Option<Seq<ExceptionHandlingContext>>,
}

/// The handlers of a try stack, if there is one.
pub open spec fn try_view(stack: Option<Vec<ExceptionHandlingContext>>) -> Option<
    Seq<ExceptionHandlingContext>,
> {
    match stack {
        Some(s) => Some(s@),
        None => None,
    }
}

impl View for ExecutionContext {
    type V = ContextView;

    open spec fn view(&self) -> ContextView {
        ContextView {
            shared_states: self.shared_states,
            rv_count: self.rv_count,
            instruction_pointer: self.instruction_pointer,
            local_variables: slot_view(self.local_variables),
            arguments: slot_view(self.arguments),
            try_stack: try_view(self.try_stack),
        }
    }
}

impl ContextView {
    /// A context at `position` without slots and without handlers.
    pub open spec fn fresh(shared_states: usize, rv_count: i32, position: usize) -> ContextView {
        ContextView {
            shared_states,
            rv_count,
            instruction_pointer: position,
            local_variables: None,
            arguments: None,
            try_stack: None,
        }
    }
}

impl ExecutionContext {
    /// A context at the start of the script of the given shared states.
    pub fn new(shared_states: usize, rv_count: i32) -> (r: Self)
        ensures
            r@ == ContextView::fresh(shared_states, rv_count, 0),
    {
        ExecutionContext {
            shared_states,
            rv_count,
            instruction_pointer: 0,
            local_variables: None,
            arguments: None,
            try_stack: None,
        }
    }

    pub fn rv_count(&self) -> (r: i32)
        ensures
            r == self@.rv_count,
    {
        self.rv_count
    }

    pub fn instruction_pointer(&self) -> (r: usize)
        ensures
            r == self@.instruction_pointer,
    {
        self.instruction_pointer
    }

    /// Moves the context to `value`, which may be any position of the
    /// script or its end.
    pub fn set_instruction_pointer(&mut self, value: usize, script: &Script) -> (r: Result<
        (),
        &'static str,
    >)
        ensures
            r is Ok <==> value <= script@.value.len(),
            r is Ok ==> final(self)@ == (ContextView { instruction_pointer: value, ..old(self)@ }),
            r is Err ==> final(self)@ == old(self)@,
    {
        if value > script.len() {
            return Err("Instruction pointer out of range");
        }
        self.instruction_pointer = value;
        Ok(())
    }

    /// The instruction at which the context stands.
    pub fn current_instruction(&self, script: &Script) -> (r: Result<Instruction, ScriptError>)
        ensures
            match r {
                Ok(ins) => spec_get_instruction(script@, self@.instruction_pointer as int) == Ok::<
                    InstructionView,
                    ScriptError,
                >(ins@),
                Err(e) => spec_get_instruction(script@, self@.instruction_pointer as int) == Err::<
                    InstructionView,
                    ScriptError,
                >(e),
            },
    {
        script.get_instruction(self.instruction_pointer)
    }

    /// A context of the same shared states at the same position, without
    /// slots and handlers, that returns no value.
    pub fn clone(&self) -> (r: Self)
        ensures
            r@ == ContextView::fresh(self@.shared_states, 0, self@.instruction_pointer),
    {
        self.clone_with_ip(self.instruction_pointer)
    }

    /// A context of the same shared states at `initial_position`, without
    /// slots and handlers, that returns no value.
    pub fn clone_with_ip(&self, initial_position: usize) -> (r: Self)
        ensures
            r@ == ContextView::fresh(self@.shared_states, 0, initial_position),
    {
        ExecutionContext {
            shared_states: self.shared_states,
            rv_count: 0,
            instruction_pointer: initial_position,
            local_variables: None,
            arguments: None,
            try_stack: None,
        }
    }

    /// Moves the context past the instruction `current`, and says whether
    /// it still stands inside the script.
    pub fn move_next(&mut self, current: &Instruction, script: &Script) -> (r: bool)
        requires
            old(self)@.instruction_pointer + current@.size() <= usize::MAX,
        ensures
            final(self)@ == (ContextView {
                instruction_pointer: (old(self)@.instruction_pointer + current@.size()) as usize,
                ..old(self)@
            }),
            r == (final(self)@.instruction_pointer < script@.value.len()),
    {
        self.instruction_pointer = self.instruction_pointer + current.size();
        self.instruction_pointer < script.len()
    }

    /// The number of the shared states of the context.
    pub fn shared_states(&self) -> (r: usize)
        ensures
            r == self@.shared_states,
    {
        self.shared_states
    }

    pub fn local_variables(&self) -> (r: &Option<Slot>)
        ensures
            slot_view(*r) == self@.local_variables,
    {
        &self.local_variables
    }

    pub fn set_local_variables(&mut self, value: Option<Slot>)
        ensures
            final(self)@ == (ContextView { local_variables: slot_view(value), ..old(self)@ }),
    {
        self.local_variables = value;
    }

    pub fn arguments(&self) -> (r: &Option<Slot>)
        ensures
            slot_view(*r) == self@.arguments,
    {
        &self.arguments
    }

    pub fn set_arguments(&mut self, value: Option<Slot>)
        ensures
            final(self)@ == (ContextView { arguments: slot_view(value), ..old(self)@ }),
    {
        self.arguments = value;
    }

    pub fn try_stack(&self) -> (r: Option<&Vec<ExceptionHandlingContext>>)
        ensures
            match r {
                Some(h) => self@.try_stack == Some(h@),
                None => self@.try_stack is None,
            },
    {
        self.try_stack.as_ref()
    }

    /// The instruction behind the one at which the context stands.
    pub fn next_instruction(&self, script: &Script) -> (r: Option<Instruction>)
        ensures
            match r {
                Some(ins) => {
                    let current = spec_get_instruction(
                        script@,
                        self@.instruction_pointer as int,
                    );
                    current is Ok && spec_get_instruction(
                        script@,
                        self@.instruction_pointer + current->Ok_0.size(),
                    ) == Ok::<InstructionView, ScriptError>(ins@)
                },
                None => {
                    let current = spec_get_instruction(
                        script@,
                        self@.instruction_pointer as int,
                    );
                    current is Err || spec_get_instruction(
                        script@,
                        self@.instruction_pointer + current->Ok_0.size(),
                    ) is Err
                },
            },
    {
        let current = match script.get_instruction(self.instruction_pointer) {
            Ok(ins) => ins,
            Err(_) => {
                return None;
            },
        };
        proof {
            crate::vm::instruction::lemma_decode_bounds(
                script@.value,
                self.instruction_pointer as int,
            );
        }
        let len: usize = script.len();
        match script.get_instruction(self.instruction_pointer + current.size()) {
            Ok(ins) => Some(ins),
            Err(_) => None,
        }
    }
}

} // verus!
