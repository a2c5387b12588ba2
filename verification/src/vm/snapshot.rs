use crate::types::compound_types::vm_array::clone_items;
use crate::types::compound_types::vm_compound::VMCompound;
use crate::types::compound_types::vm_struct::VMStruct;
use crate::types::stack_item::{
    ObjectReferenceEntry, StackItem, StackItemMetadata, StackItemWrapper,
};
use crate::vm::evaluation_stack::EvaluationStack;
use crate::vm::exception_handling_context::ExceptionHandlingContext;
use crate::vm::execution_context::{slot_view, ExecutionContext, SharedStates};
use crate::vm::execution_engine::{context_views, shared_views, ExecutionEngine};
use crate::vm::reference_counter::{wrappers_view, ReferenceCounter};
use crate::vm::slot::Slot;
use vstd::prelude::*;

verus! {

impl StackItemMetadata {
    /// A second record with the same entries and marks.
    pub fn snapshot(&self) -> (r: Self)
        ensures
            r@ == self@,
    {
        let n: usize = self.object_references.len();
        let mut entries: Vec<ObjectReferenceEntry> = Vec::new();
        let mut i: usize = 0;
        while i < n
            invariant
                i <= n,
                n == self.object_references@.len(),
                entries@ == self.object_references@.subrange(0, i as int),
            decreases n - i,
        {
            entries.push(self.object_references[i]);
            i += 1;
            assert(entries@ =~= self.object_references@.subrange(0, i as int));
        }
        assert(entries@ =~= self.object_references@);
        StackItemMetadata {
            stack_references: self.stack_references,
            object_references: entries,
            watched: self.watched,
            freed: self.freed,
            zero_referred: self.zero_referred,
        }
    }
}

impl VMCompound {
    /// A second object with the same contents.
    pub fn snapshot(&self) -> (r: Self)
        ensures
            r@ == self@,
    {
        match self {
            VMCompound::Mapping(m) => VMCompound::Mapping(m.clone()),
            VMCompound::Array(a) => VMCompound::Array(a.clone()),
            VMCompound::Struct(s) => VMCompound::Struct(
                VMStruct { array: clone_items(&s.array), read_only: s.read_only },
            ),
            VMCompound::Buffer(b) => VMCompound::Buffer(b.clone()),
        }
    }
}

impl StackItemWrapper {
    /// A second object with the same contents and the same record.
    pub fn snapshot(&self) -> (r: Self)
        ensures
            r@ == self@,
    {
        StackItemWrapper { item: self.item.snapshot(), metadata: self.metadata.snapshot() }
    }
}

impl ReferenceCounter {
    /// A second counter with the same objects, records and count.
    pub fn snapshot(&self) -> (r: Self)
        ensures
            r@ == self@,
    {
        let n: usize = self.items.len();
        let mut items: Vec<StackItemWrapper> = Vec::new();
        let mut i: usize = 0;
        while i < n
            invariant
                i <= n,
                n == self.items@.len(),
                items@.len() == i,
                forall|j: int| 0 <= j < i ==> items@[j]@ == self.items@[j]@,
            decreases n - i,
        {
            items.push(self.items[i].snapshot());
            i += 1;
        }
        assert(wrappers_view(items@) =~= wrappers_view(self.items@));
        ReferenceCounter { items, references_count: self.references_count }
    }
}

/// A second slot with the same items, where there is one.
pub fn snapshot_slot(slot: &Option<Slot>) -> (r: Option<Slot>)
    ensures
        slot_view(r) == slot_view(*slot),
{
    match slot {
        Some(s) => Some(Slot { items: clone_items(&s.items) }),
        None => None,
    }
}

impl SharedStates {
    /// Second shared states with the same script, stack and static fields.
    pub fn snapshot(&self) -> (r: Self)
        ensures
            r@ == self@,
    {
        SharedStates {
            script: self.script.clone(),
            evaluation_stack: EvaluationStack {
                inner_list: clone_items(&self.evaluation_stack.inner_list),
            },
            static_fields: snapshot_slot(&self.static_fields),
        }
    }
}

impl ExecutionContext {
    /// A second context at the same position with the same slots and
    /// handlers.
    pub fn snapshot(&self) -> (r: Self)
        ensures
            r@ == self@,
    {
        let try_stack: Option<Vec<ExceptionHandlingContext>> = match &self.try_stack {
            Some(handlers) => {
                let copy = handlers.clone();
                assert(copy@ =~= handlers@);
                Some(copy)
            },
            None => None,
        };
        ExecutionContext {
            shared_states: self.shared_states,
            rv_count: self.rv_count,
            instruction_pointer: self.instruction_pointer,
            local_variables: snapshot_slot(&self.local_variables),
            arguments: snapshot_slot(&self.arguments),
            try_stack,
        }
    }
}

/// Second shared states for each of the given ones.
pub fn snapshot_shared(shared: &Vec<SharedStates>) -> (r: Vec<SharedStates>)
    ensures
        shared_views(r@) == shared_views(shared@),
{
    let n: usize = shared.len();
    let mut out: Vec<SharedStates> = Vec::new();
    let mut i: usize = 0;
    while i < n
        invariant
            i <= n,
            n == shared@.len(),
            out@.len() == i,
            forall|j: int| 0 <= j < i ==> out@[j]@ == shared@[j]@,
        decreases n - i,
    {
        out.push(shared[i].snapshot());
        i += 1;
    }
    assert(shared_views(out@) =~= shared_views(shared@));
    out
}

/// A second context for each of the given ones.
pub fn snapshot_contexts(contexts: &Vec<ExecutionContext>) -> (r: Vec<ExecutionContext>)
    ensures
        context_views(r@) == context_views(contexts@),
{
    let n: usize = contexts.len();
    let mut out: Vec<ExecutionContext> = Vec::new();
    let mut i: usize = 0;
    while i < n
        invariant
            i <= n,
            n == contexts@.len(),
            out@.len() == i,
            forall|j: int| 0 <= j < i ==> out@[j]@ == contexts@[j]@,
        decreases n - i,
    {
        out.push(contexts[i].snapshot());
        i += 1;
    }
    assert(context_views(out@) =~= context_views(contexts@));
    out
}

impl ExecutionEngine {
    /// A second machine in the same state: it holds copies of the stacks,
    /// the contexts and the objects, so that nothing done to one of the two
    /// shows in the other.
    pub fn snapshot(&self) -> (r: Self)
        ensures
            r@ == self@,
    {
        let uncaught_exception: Option<StackItem> = match &self.uncaught_exception {
            Some(item) => Some(item.clone()),
            None => None,
        };
        ExecutionEngine {
            state: self.state,
            is_jumping: self.is_jumping,
            jump_table: self.jump_table.clone(),
            limits: self.limits,
            reference_counter: self.reference_counter.snapshot(),
            shared_states: snapshot_shared(&self.shared_states),
            invocation_stack: snapshot_contexts(&self.invocation_stack),
            result_stack: EvaluationStack { inner_list: clone_items(&self.result_stack.inner_list) },
            uncaught_exception,
            pending_call: self.pending_call,
        }
    }
}

} // verus!
