use crate::types::compound_types::vm_array::clone_items;
use crate::types::stack_item::{items_view, ItemView, StackItem};
use crate::vm::evaluation_stack::StackState;
use crate::vm::exception_handling_context::ExceptionHandlingContext;
use crate::vm::exception_handling_state::ExceptionHandlingState;
use crate::vm::execution_context::{ContextView, ExecutionContext, SharedView};
use crate::vm::execution_engine::{EngineView, ExecutionEngine};
use crate::vm::op_code::OpCode;
use crate::vm::slot::Slot;
use crate::vm::vm_state::VMState;
use vstd::prelude::*;

verus! {

/// Whether the handler can take an exception: its body is running, or its
/// catch block is running and it has a final block.
pub open spec fn can_claim(e: ExceptionHandlingContext) -> bool {
    !(e.state == ExceptionHandlingState::Finally || (e.state == ExceptionHandlingState::Catch
        && e.finally_pointer is None))
}

/// The handlers that are left after those on top that cannot take an
/// exception were discarded: none, or handlers whose top can take it.
pub open spec fn live_handlers(handlers: Seq<ExceptionHandlingContext>) -> Seq<
    ExceptionHandlingContext,
>
    decreases handlers.len(),
{
    if handlers.len() == 0 {
        handlers
    } else if can_claim(handlers.last()) {
        handlers
    } else {
        live_handlers(handlers.drop_last())
    }
}

/// The handlers that are left are a prefix of the handlers, and if there
/// are any, the last of them can take an exception.
pub proof fn lemma_live_handlers(handlers: Seq<ExceptionHandlingContext>)
    ensures
        live_handlers(handlers).len() <= handlers.len(),
        live_handlers(handlers) == handlers.subrange(0, live_handlers(handlers).len() as int),
        live_handlers(handlers).len() > 0 ==> can_claim(live_handlers(handlers).last()),
        forall|i: int|
            live_handlers(handlers).len() <= i < handlers.len() ==> !can_claim(handlers[i]),
    decreases handlers.len(),
{
    if handlers.len() == 0 {
        assert(handlers.subrange(0, 0) =~= handlers);
    } else if can_claim(handlers.last()) {
        assert(handlers.subrange(0, handlers.len() as int) =~= handlers);
    } else {
        lemma_live_handlers(handlers.drop_last());
        let rest = live_handlers(handlers.drop_last());
        assert(handlers.drop_last().subrange(0, rest.len() as int) =~= handlers.subrange(
            0,
            rest.len() as int,
        ));
        assert forall|i: int| rest.len() <= i < handlers.len() implies !can_claim(
            handlers[i],
        ) by {
            if i < handlers.len() - 1 {
                assert(handlers[i] == handlers.drop_last()[i]);
            }
        }
    }
}

impl EngineView {
    /// The handlers of the current context, the innermost last.
    pub open spec fn handlers(self) -> Seq<ExceptionHandlingContext> {
        match self.context().try_stack {
            Some(h) => h,
            None => Seq::<ExceptionHandlingContext>::empty(),
        }
    }

    /// The machine with other handlers in the current context.
    pub open spec fn with_handlers(self, handlers: Seq<ExceptionHandlingContext>) -> EngineView {
        self.with_context(ContextView { try_stack: Some(handlers), ..self.context() })
    }

    /// The start of a block `offset` bytes from the current instruction:
    /// no block for the offset 0. There is no result for a position that is
    /// negative or above the largest size of the machine.
    pub open spec fn block_at(self, offset: int) -> Option<Option<usize>> {
        if offset == 0 {
            Some(None)
        } else if 0 <= self.target(offset) <= usize::MAX {
            Some(Some(self.target(offset) as usize))
        } else {
            None
        }
    }

    /// The machine after `TRY`: a handler whose body is about to run is
    /// added to the current context. There is no result where both offsets
    /// are zero, and where the context has as many handlers as the limit
    /// allows, whether or not it had a handler before.
    pub open spec fn entered_try(self, catch_offset: int, finally_offset: int) -> Option<
        EngineView,
    > {
        if !self.ready() || (catch_offset == 0 && finally_offset == 0) || self.handlers().len()
            >= self.limits.max_try_nesting_depth {
            None
        } else {
            match (self.block_at(catch_offset), self.block_at(finally_offset)) {
                (Some(c), Some(f)) => Some(
                    self.with_handlers(
                        self.handlers().push(
                            ExceptionHandlingContext {
                                catch_pointer: c,
                                finally_pointer: f,
                                end_pointer: None,
                                state: ExceptionHandlingState::Try,
                            },
                        ),
                    ),
                ),
                _ => None,
            }
        }
    }

    /// The machine after `ENDTRY`, which leaves the body or the catch block
    /// of the innermost handler. With a final block the handler remembers
    /// where to go on, enters the state `Finally`, and the final block
    /// starts; without one the handler is removed and execution goes on at
    /// the end. There is no result without a handler and for a handler
    /// whose final block is running.
    pub open spec fn ended_try(self, end_offset: int) -> Option<EngineView> {
        if !self.ready() || self.context().try_stack is None || self.handlers().len() == 0
            || self.handlers().last().state == ExceptionHandlingState::Finally || !(0
            <= self.target(end_offset) <= usize::MAX) {
            None
        } else {
            let top = self.handlers().last();
            let end = self.target(end_offset) as usize;
            match top.finally_pointer {
                Some(f) => self.with_handlers(
                    self.handlers().update(
                        self.handlers().len() - 1,
                        ExceptionHandlingContext {
                            state: ExceptionHandlingState::Finally,
                            end_pointer: Some(end),
                            ..top
                        },
                    ),
                ).moved_to(f as int),
                None => self.with_handlers(self.handlers().drop_last()).moved_to(end as int),
            }
        }
    }

    /// The machine after the shared states `index` were given up: the
    /// static fields and the evaluation stack let go of their items.
    pub open spec fn released_frame(self, index: usize) -> Option<EngineView> {
        if index >= self.shared.len() {
            None
        } else {
            let f = self.shared[index as int];
            let after_fields = match f.static_fields {
                Some(items) => self.heap.remove_stack_references(items, 0),
                None => Some(self.heap),
            };
            match after_fields {
                Some(h) => match (StackState { stack: f.stack, heap: h }).clear() {
                    Some(st) => Some(
                        EngineView {
                            heap: st.heap,
                            shared: self.shared.update(
                                index as int,
                                SharedView {
                                    stack: st.stack,
                                    static_fields: match f.static_fields {
                                        Some(_) => Some(Seq::<ItemView>::empty()),
                                        None => None,
                                    },
                                    ..f
                                },
                            ),
                            ..self
                        },
                    ),
                    None => None,
                },
                None => None,
            }
        }
    }

    /// The machine after a slot that held `items` was given up.
    pub open spec fn released_slot(self, items: Option<Seq<ItemView>>) -> Option<EngineView> {
        match items {
            Some(i) => match self.heap.remove_stack_references(i, 0) {
                Some(h) => Some(EngineView { heap: h, ..self }),
                None => None,
            },
            None => Some(self),
        }
    }

    /// The machine after the context `ctx`, which has left the invocation
    /// stack, was unloaded. Its shared states are given up unless the
    /// context that is now current has the same; its local variables and
    /// its arguments are given up.
    pub open spec fn unloaded(self, ctx: ContextView) -> Option<EngineView> {
        let after_frame = if self.invocation.len() == 0 || self.context().shared_states
            != ctx.shared_states {
            self.released_frame(ctx.shared_states)
        } else {
            Some(self)
        };
        match after_frame {
            Some(s) => match s.released_slot(ctx.local_variables) {
                Some(t) => t.released_slot(ctx.arguments),
                None => None,
            },
            None => None,
        }
    }

    /// The machine without its current context.
    pub open spec fn without_context(self) -> EngineView {
        EngineView { invocation: self.invocation.drop_last(), ..self }
    }

    /// The machine after the innermost of the handlers `remaining` of the
    /// current context took the pending exception. A handler whose body was
    /// running and that has a catch block enters the state `Catch`: the
    /// exception is pushed, is no longer pending, and the catch block
    /// starts. Every other handler enters the state `Finally`: its final
    /// block starts, and the exception stays pending.
    pub open spec fn claimed(self, remaining: Seq<ExceptionHandlingContext>) -> Option<EngineView> {
        if !self.ready() || remaining.len() == 0 || self.uncaught is None {
            None
        } else {
            let top = remaining.last();
            if top.state == ExceptionHandlingState::Try && top.catch_pointer is Some {
                match self.with_handlers(
                    remaining.update(
                        remaining.len() - 1,
                        ExceptionHandlingContext { state: ExceptionHandlingState::Catch, ..top },
                    ),
                ).push(self.uncaught->Some_0) {
                    Some(s) => (EngineView { uncaught: None, ..s }).moved_to(
                        top.catch_pointer->Some_0 as int,
                    ),
                    None => None,
                }
            } else {
                match top.finally_pointer {
                    Some(f) => self.with_handlers(
                        remaining.update(
                            remaining.len() - 1,
                            ExceptionHandlingContext {
                                state: ExceptionHandlingState::Finally,
                                ..top
                            },
                        ),
                    ).moved_to(f as int),
                    None => None,
                }
            }
        }
    }

    /// The machine after the pending exception was handed to the innermost
    /// handler that can take it. The contexts are searched from the current
    /// one down; in each, the handlers that cannot take the exception are
    /// discarded; a context without a handler that can take it is
    /// unloaded. There is no result where no handler takes the exception.
    pub open spec fn unwound(self) -> Option<EngineView>
        decreases self.invocation.len(),
    {
        if self.invocation.len() == 0 || !self.ready() {
            None
        } else {
            let remaining = live_handlers(self.handlers());
            if remaining.len() > 0 {
                self.claimed(remaining)
            } else {
                match self.without_context().unloaded(self.context()) {
                    Some(s) => if s.invocation.len() < self.invocation.len() {
                        s.unwound()
                    } else {
                        None
                    },
                    None => None,
                }
            }
        }
    }

    /// The machine after `THROW`: the popped item becomes the pending
    /// exception and is handed to the innermost handler that can take it.
    pub open spec fn thrown(self) -> Option<EngineView> {
        match self.pop() {
            Some((s, ex)) => (EngineView { uncaught: Some(ex), ..s }).unwound(),
            None => None,
        }
    }

    /// The machine after `ENDFINALLY`, which ends the final block of the
    /// innermost handler. The handler is removed. A pending exception is
    /// handed on; without one, execution goes on where the handler
    /// remembered it, or with the next instruction where it remembered
    /// nothing. There is no result without a handler.
    pub open spec fn ended_finally(self) -> Option<EngineView> {
        if !self.ready() || self.context().try_stack is None || self.handlers().len() == 0 {
            None
        } else {
            let top = self.handlers().last();
            let s = self.with_handlers(self.handlers().drop_last());
            if s.uncaught is Some {
                s.unwound()
            } else {
                match top.end_pointer {
                    Some(e) => s.moved_to(e as int),
                    None => Some(s),
                }
            }
        }
    }

    /// The machine after `RET`. The current context leaves the invocation
    /// stack. Unless the context below it has the same evaluation stack,
    /// the items of the stack are pushed, in their order, on the stack of
    /// the context below, or on the result stack where there is none; a
    /// context that returns a fixed number of values must have exactly that
    /// many. Without a context left the machine halts. The context is
    /// unloaded.
    pub open spec fn returned(self) -> Option<EngineView> {
        if !self.ready() {
            None
        } else {
            let ctx = self.context();
            let items = self.frame().stack;
            let below = self.without_context();
            let handed = if below.invocation.len() > 0 && below.context().shared_states
                == ctx.shared_states {
                Some(below)
            } else if ctx.rv_count >= 0 && items.len() != ctx.rv_count {
                None
            } else if below.invocation.len() == 0 {
                match (StackState { stack: below.result_stack, heap: below.heap }).push_all(
                    items,
                    0,
                ) {
                    Some(st) => Some(
                        EngineView {
                            result_stack: st.stack,
                            heap: st.heap,
                            state: VMState::HALT,
                            ..below
                        },
                    ),
                    None => None,
                }
            } else {
                below.after_operands(below.operands().push_all(items, 0))
            };
            match handed {
                Some(s) => match s.unloaded(ctx) {
                    Some(t) => Some(EngineView { is_jumping: true, ..t }),
                    None => None,
                },
                None => None,
            }
        }
    }
}

/// Whether the handler can take an exception.
pub fn handler_can_claim(e: &ExceptionHandlingContext) -> (r: bool)
    ensures
        r == can_claim(*e),
{
    let in_finally: bool = matches!(e.state, ExceptionHandlingState::Finally);
    let in_catch: bool = matches!(e.state, ExceptionHandlingState::Catch);
    !(in_finally || (in_catch && e.finally_pointer.is_none()))
}

/// The number of handlers that are left after those on top that cannot take
/// an exception were discarded.
pub fn live_count(handlers: &Vec<ExceptionHandlingContext>) -> (r: usize)
    ensures
        r == live_handlers(handlers@).len(),
{
    let mut k: usize = handlers.len();
    assert(handlers@.subrange(0, k as int) =~= handlers@);
    while k > 0
        invariant
            k <= handlers@.len(),
            live_handlers(handlers@) == live_handlers(handlers@.subrange(0, k as int)),
        decreases k,
    {
        if handler_can_claim(&handlers[k - 1]) {
            return k;
        }
        assert(handlers@.subrange(0, k as int).drop_last() =~= handlers@.subrange(0, k - 1));
        k -= 1;
    }
    k
}

impl ExecutionEngine {
    /// The handlers of the current context.
    fn handler_count(&self) -> (r: usize)
        requires
            self@.ready(),
        ensures
            r == self@.handlers().len(),
    {
        let n: usize = self.invocation_stack.len();
        match &self.invocation_stack[n - 1].try_stack {
            Some(h) => h.len(),
            None => 0,
        }
    }

    /// Whether the current context has a try stack.
    fn has_try_stack(&self) -> (r: bool)
        requires
            self@.ready(),
        ensures
            r == (self@.context().try_stack is Some),
    {
        let n: usize = self.invocation_stack.len();
        self.invocation_stack[n - 1].try_stack.is_some()
    }

    /// The start of a block `offset` bytes from the current instruction.
    fn block_at(&self, offset: i32) -> (r: Option<Option<usize>>)
        requires
            self@.ready(),
        ensures
            r == self@.block_at(offset as int),
    {
        if offset == 0 {
            return Some(None);
        }
        let position = self.target(offset);
        if position < 0 || position > usize::MAX as i128 {
            None
        } else {
            Some(Some(position as usize))
        }
    }

    /// Replaces the handlers of the current context.
    fn set_handlers(&mut self, handlers: Vec<ExceptionHandlingContext>)
        requires
            old(self)@.ready(),
        ensures
            final(self)@ == old(self)@.with_handlers(handlers@),
    {
        let n: usize = self.invocation_stack.len();
        self.invocation_stack[n - 1].try_stack = Some(handlers);
        assert(self@.invocation =~= old(self)@.with_handlers(handlers@).invocation);
        assert(self@.shared =~= old(self)@.shared);
    }

    /// A copy of the first `count` handlers of the current context.
    fn handlers_prefix(&self, count: usize) -> (r: Vec<ExceptionHandlingContext>)
        requires
            self@.ready(),
            count <= self@.handlers().len(),
        ensures
            r@ == self@.handlers().subrange(0, count as int),
    {
        let n: usize = self.invocation_stack.len();
        let mut out: Vec<ExceptionHandlingContext> = Vec::new();
        match &self.invocation_stack[n - 1].try_stack {
            Some(h) => {
                let mut i: usize = 0;
                while i < count
                    invariant
                        i <= count,
                        count <= h@.len(),
                        out@ == h@.subrange(0, i as int),
                    decreases count - i,
                {
                    out.push(h[i]);
                    i += 1;
                    assert(out@ =~= h@.subrange(0, i as int));
                }
            },
            None => {
                assert(out@ =~= self@.handlers().subrange(0, 0));
            },
        }
        out
    }

    /// Executes `TRY` with the two offsets.
    pub fn enter_try(&mut self, catch_offset: i32, finally_offset: i32) -> (ok: bool)
        ensures
            ok <==> old(self)@.entered_try(catch_offset as int, finally_offset as int) is Some,
            ok ==> final(self)@ == old(self)@.entered_try(
                catch_offset as int,
                finally_offset as int,
            )->Some_0,
    {
        if !self.ready() {
            return false;
        }
        if catch_offset == 0 && finally_offset == 0 {
            return false;
        }
        let count = self.handler_count();
        if count >= self.limits.max_try_nesting_depth {
            return false;
        }
        let c = match self.block_at(catch_offset) {
            Some(c) => c,
            None => {
                return false;
            },
        };
        let f = match self.block_at(finally_offset) {
            Some(f) => f,
            None => {
                return false;
            },
        };
        let mut handlers = self.handlers_prefix(count);
        assert(self@.handlers().subrange(0, count as int) =~= self@.handlers());
        handlers.push(ExceptionHandlingContext::new(c, f));
        self.set_handlers(handlers);
        true
    }

    /// Executes `ENDTRY` with the offset of the end.
    pub fn end_try(&mut self, end_offset: i32) -> (ok: bool)
        ensures
            ok <==> old(self)@.ended_try(end_offset as int) is Some,
            ok ==> final(self)@ == old(self)@.ended_try(end_offset as int)->Some_0,
    {
        if !self.ready() {
            return false;
        }
        let count = self.handler_count();
        if !self.has_try_stack() || count == 0 {
            return false;
        }
        let mut handlers = self.handlers_prefix(count);
        assert(self@.handlers().subrange(0, count as int) =~= self@.handlers());
        let top = handlers[count - 1];
        if matches!(top.state, ExceptionHandlingState::Finally) {
            return false;
        }
        let end = self.target(end_offset);
        if end < 0 || end > usize::MAX as i128 {
            return false;
        }
        match top.finally_pointer {
            Some(f) => {
                handlers.set(
                    count - 1,
                    ExceptionHandlingContext {
                        catch_pointer: top.catch_pointer,
                        finally_pointer: top.finally_pointer,
                        end_pointer: Some(end as usize),
                        state: ExceptionHandlingState::Finally,
                    },
                );
                self.set_handlers(handlers);
                self.move_to(f as i128)
            },
            None => {
                let _ = handlers.pop();
                self.set_handlers(handlers);
                self.move_to(end)
            },
        }
    }

    /// Gives up the shared states `index`.
    pub fn release_frame(&mut self, index: usize) -> (ok: bool)
        ensures
            ok <==> old(self)@.released_frame(index) is Some,
            ok ==> final(self)@ == old(self)@.released_frame(index)->Some_0,
    {
        if index >= self.shared_states.len() {
            return false;
        }
        let f = &mut self.shared_states[index];
        match &mut f.static_fields {
            Some(slot) => {
                if !slot.clear_references(&mut self.reference_counter) {
                    return false;
                }
            },
            None => {},
        }
        if !f.evaluation_stack.clear(&mut self.reference_counter) {
            return false;
        }
        assert(self@.shared =~= old(self)@.released_frame(index)->Some_0.shared);
        assert(self@.invocation =~= old(self)@.invocation);
        true
    }

    /// Gives up a slot.
    pub fn release_slot(&mut self, slot: Option<Slot>) -> (ok: bool)
        ensures
            ok <==> old(self)@.released_slot(crate::vm::execution_context::slot_view(slot))
                is Some,
            ok ==> final(self)@ == old(self)@.released_slot(
                crate::vm::execution_context::slot_view(slot),
            )->Some_0,
    {
        match slot {
            Some(s) => {
                let mut s = s;
                s.clear_references(&mut self.reference_counter)
            },
            None => true,
        }
    }

    /// Unloads a context that has left the invocation stack.
    pub fn unload(&mut self, ctx: ExecutionContext) -> (ok: bool)
        ensures
            ok <==> old(self)@.unloaded(ctx@) is Some,
            ok ==> final(self)@ == old(self)@.unloaded(ctx@)->Some_0,
    {
        let n: usize = self.invocation_stack.len();
        let shared_done: bool = n == 0 || self.invocation_stack[n - 1].shared_states
            != ctx.shared_states;
        if shared_done {
            if !self.release_frame(ctx.shared_states) {
                return false;
            }
        }
        if !self.release_slot(ctx.local_variables) {
            return false;
        }
        self.release_slot(ctx.arguments)
    }

    /// Removes the current context from the invocation stack.
    fn take_context(&mut self) -> (ctx: ExecutionContext)
        requires
            old(self)@.invocation.len() > 0,
        ensures
            ctx@ == old(self)@.context(),
            final(self)@ == old(self)@.without_context(),
    {
        let ctx = self.invocation_stack.pop().unwrap();
        assert(self@.invocation =~= old(self)@.without_context().invocation);
        ctx
    }

    /// Hands the pending exception to the innermost of the first `count`
    /// handlers of the current context.
    fn claim(&mut self, count: usize) -> (ok: bool)
        requires
            old(self)@.ready(),
            0 < count <= old(self)@.handlers().len(),
        ensures
            ok <==> old(self)@.claimed(old(self)@.handlers().subrange(0, count as int)) is Some,
            ok ==> final(self)@ == old(self)@.claimed(
                old(self)@.handlers().subrange(0, count as int),
            )->Some_0,
    {
        let exception = match &self.uncaught_exception {
            Some(e) => e.clone(),
            None => {
                return false;
            },
        };
        let mut handlers = self.handlers_prefix(count);
        let top = handlers[count - 1];
        let in_try: bool = matches!(top.state, ExceptionHandlingState::Try);
        match (in_try, top.catch_pointer, top.finally_pointer) {
            (true, Some(c), _) => {
                handlers.set(
                    count - 1,
                    ExceptionHandlingContext {
                        catch_pointer: top.catch_pointer,
                        finally_pointer: top.finally_pointer,
                        end_pointer: top.end_pointer,
                        state: ExceptionHandlingState::Catch,
                    },
                );
                self.set_handlers(handlers);
                if !self.push_item(exception) {
                    return false;
                }
                self.uncaught_exception = None;
                self.move_to(c as i128)
            },
            (_, _, Some(f)) => {
                handlers.set(
                    count - 1,
                    ExceptionHandlingContext {
                        catch_pointer: top.catch_pointer,
                        finally_pointer: top.finally_pointer,
                        end_pointer: top.end_pointer,
                        state: ExceptionHandlingState::Finally,
                    },
                );
                self.set_handlers(handlers);
                self.move_to(f as i128)
            },
            _ => false,
        }
    }

    /// Hands the pending exception to the innermost handler that can take
    /// it, and unloads the contexts above that handler.
    pub fn unwind(&mut self) -> (ok: bool)
        ensures
            ok <==> old(self)@.unwound() is Some,
            ok ==> final(self)@ == old(self)@.unwound()->Some_0,
    {
        loop
            invariant
                old(self)@.unwound() == self@.unwound(),
            decreases self.invocation_stack@.len(),
        {
            if self.invocation_stack.len() == 0 || !self.ready() {
                return false;
            }
            let n: usize = self.invocation_stack.len();
            let k: usize = match &self.invocation_stack[n - 1].try_stack {
                Some(h) => live_count(h),
                None => {
                    assert(live_handlers(self@.handlers()).len() == 0);
                    0
                },
            };
            proof {
                lemma_live_handlers(self@.handlers());
            }
            if k > 0 {
                return self.claim(k);
            }
            let ghost before = self@;
            let ctx = self.take_context();
            if !self.unload(ctx) {
                return false;
            }
            assert(self@.invocation.len() < before.invocation.len()) by {
                lemma_unloaded_keeps_contexts(before.without_context(), before.context());
            }
        }
    }

    /// Executes `THROW`.
    pub fn throw(&mut self) -> (ok: bool)
        ensures
            ok <==> old(self)@.thrown() is Some,
            ok ==> final(self)@ == old(self)@.thrown()->Some_0,
    {
        let exception = match self.pop_item() {
            Some(e) => e,
            None => {
                return false;
            },
        };
        self.uncaught_exception = Some(exception);
        self.unwind()
    }

    /// Executes `ENDFINALLY`.
    pub fn end_finally(&mut self) -> (ok: bool)
        ensures
            ok <==> old(self)@.ended_finally() is Some,
            ok ==> final(self)@ == old(self)@.ended_finally()->Some_0,
    {
        if !self.ready() {
            return false;
        }
        let count = self.handler_count();
        if !self.has_try_stack() || count == 0 {
            return false;
        }
        let mut handlers = self.handlers_prefix(count);
        assert(self@.handlers().subrange(0, count as int) =~= self@.handlers());
        let top = handlers[count - 1];
        let _ = handlers.pop();
        self.set_handlers(handlers);
        if self.uncaught_exception.is_some() {
            self.unwind()
        } else {
            match top.end_pointer {
                Some(e) => self.move_to(e as i128),
                None => true,
            }
        }
    }

    /// Executes `RET`.
    pub fn ret(&mut self) -> (ok: bool)
        ensures
            ok <==> old(self)@.returned() is Some,
            ok ==> final(self)@ == old(self)@.returned()->Some_0,
    {
        if !self.ready() {
            return false;
        }
        let at = self.frame_index();
        let items = clone_items(&self.shared_states[at].evaluation_stack.inner_list);
        let ctx = self.take_context();
        let n: usize = self.invocation_stack.len();
        let same_stack: bool = n > 0 && self.invocation_stack[n - 1].shared_states
            == ctx.shared_states;
        if !same_stack {
            assert(items_view(items@).len() == items@.len());
            if ctx.rv_count >= 0 && items.len() != ctx.rv_count as usize {
                return false;
            }
            if n == 0 {
                if !self.result_stack.push_all(items, &mut self.reference_counter) {
                    return false;
                }
                self.state = VMState::HALT;
            } else {
                if !self.ready() {
                    return false;
                }
                let target = self.frame_index();
                let ghost before = self@;
                if !self.shared_states[target].evaluation_stack.push_all(
                    items,
                    &mut self.reference_counter,
                ) {
                    return false;
                }
                assert(self@.shared =~= before.after_operands(
                    before.operands().push_all(items_view(items@), 0),
                )->Some_0.shared);
                assert(self@.invocation =~= before.invocation);
            }
        }
        if !self.unload(ctx) {
            return false;
        }
        self.is_jumping = true;
        true
    }
}

/// Unloading a context leaves the invocation stack as it is.
pub proof fn lemma_unloaded_keeps_contexts(s: EngineView, ctx: ContextView)
    requires
        s.unloaded(ctx) is Some,
    ensures
        s.unloaded(ctx)->Some_0.invocation == s.invocation,
{
}

/// The handlers of a context.
pub open spec fn handlers_of(c: ContextView) -> Seq<ExceptionHandlingContext> {
    match c.try_stack {
        Some(h) => h,
        None => Seq::<ExceptionHandlingContext>::empty(),
    }
}

/// Whether an exception passes the context: none of its handlers can take
/// it.
pub open spec fn passed_over(c: ContextView) -> bool {
    live_handlers(handlers_of(c)).len() == 0
}

/// Unwinding preserves frames: where a handler takes the pending
/// exception, the contexts that were unloaded are exactly those above the
/// context of that handler. Every unloaded context had no handler that
/// could take the exception, the context that is current afterwards had
/// one, and the contexts below it are as they were.
pub proof fn lemma_unwinding_preserves_frames(s: EngineView)
    requires
        s.unwound() is Some,
    ensures
        ({
            let t = s.unwound()->Some_0;
            let k = t.invocation.len() - 1;
            &&& 0 <= k < s.invocation.len()
            &&& forall|i: int| k < i < s.invocation.len() ==> passed_over(#[trigger] s.invocation[i])
            &&& !passed_over(s.invocation[k])
            &&& t.invocation.subrange(0, k) == s.invocation.subrange(0, k)
            &&& t.invocation[k].shared_states == s.invocation[k].shared_states
            &&& t.invocation[k].local_variables == s.invocation[k].local_variables
            &&& t.invocation[k].arguments == s.invocation[k].arguments
        }),
    decreases s.invocation.len(),
{
    let remaining = live_handlers(s.handlers());
    if remaining.len() > 0 {
        let t = s.unwound()->Some_0;
        assert(t.invocation.subrange(0, t.invocation.len() - 1) =~= s.invocation.subrange(
            0,
            s.invocation.len() - 1,
        ));
    } else {
        let below = s.without_context();
        lemma_unloaded_keeps_contexts(below, s.context());
        let next = below.unloaded(s.context())->Some_0;
        lemma_unwinding_preserves_frames(next);
        let t = s.unwound()->Some_0;
        let k = t.invocation.len() - 1;
        assert(next.invocation == s.invocation.drop_last());
        assert forall|i: int| k < i < s.invocation.len() implies passed_over(
            #[trigger] s.invocation[i],
        ) by {
            if i < s.invocation.len() - 1 {
                assert(s.invocation[i] == next.invocation[i]);
            }
        }
        assert(s.invocation[k] == next.invocation[k]);
        assert(next.invocation.subrange(0, k) =~= s.invocation.subrange(0, k));
    }
}

/// The handler that takes an exception is no longer pending afterwards
/// only if it has a catch block whose body was running; the exception is
/// then the new top of the stack of the context.
pub proof fn lemma_caught_exception_is_pushed(s: EngineView, remaining: Seq<ExceptionHandlingContext>)
    requires
        s.claimed(remaining) is Some,
        remaining.last().state == ExceptionHandlingState::Try,
        remaining.last().catch_pointer is Some,
    ensures
        ({
            let t = s.claimed(remaining)->Some_0;
            &&& t.uncaught is None
            &&& t.frame().stack == s.frame().stack.push(s.uncaught->Some_0)
            &&& t.context().instruction_pointer == remaining.last().catch_pointer->Some_0
            &&& t.handlers().last().state == ExceptionHandlingState::Catch
        }),
{
    let top = remaining.last();
    let updated = remaining.update(
        remaining.len() - 1,
        ExceptionHandlingContext { state: ExceptionHandlingState::Catch, ..top },
    );
    let with = s.with_handlers(updated);
    assert(with.ready());
    assert(s.ready());
    assert(with.context().try_stack == Some(updated));
    assert(with.frame() == s.frame());
    let pushed = with.push(s.uncaught->Some_0)->Some_0;
    assert(pushed.context() == with.context());
    assert(pushed.frame().stack == s.frame().stack.push(s.uncaught->Some_0));
    let cleared = EngineView { uncaught: None, ..pushed };
    let t = cleared.moved_to(top.catch_pointer->Some_0 as int)->Some_0;
    assert(t.frame() == pushed.frame());
    assert(t.context().try_stack == Some(updated));
    assert(updated.last().state == ExceptionHandlingState::Catch);
}

/// The final block runs when the body or the catch block of a handler is
/// left in the regular way: `ENDTRY` on a handler with a final block puts
/// the handler into the state `Finally` and moves the context to the start
/// of the final block; the handler stays on the try stack.
pub proof fn lemma_end_try_runs_finally(s: EngineView, end_offset: int)
    requires
        s.ended_try(end_offset) is Some,
        s.handlers().last().finally_pointer is Some,
    ensures
        ({
            let t = s.ended_try(end_offset)->Some_0;
            &&& t.handlers().len() == s.handlers().len()
            &&& t.handlers().last().state == ExceptionHandlingState::Finally
            &&& t.handlers().last().end_pointer == Some(s.target(end_offset) as usize)
            &&& t.context().instruction_pointer == s.handlers().last().finally_pointer->Some_0
            &&& t.is_jumping
        }),
{
}

/// The final block runs when an exception leaves the body or the catch
/// block of a handler: a handler that takes an exception and does not
/// catch it enters the state `Finally`, the context moves to the start of
/// the final block, and the exception stays pending.
pub proof fn lemma_exception_runs_finally(s: EngineView, remaining: Seq<ExceptionHandlingContext>)
    requires
        s.claimed(remaining) is Some,
        !(remaining.last().state == ExceptionHandlingState::Try
            && remaining.last().catch_pointer is Some),
    ensures
        ({
            let t = s.claimed(remaining)->Some_0;
            &&& remaining.last().finally_pointer is Some
            &&& t.handlers().len() == remaining.len()
            &&& t.handlers().last().state == ExceptionHandlingState::Finally
            &&& t.context().instruction_pointer == remaining.last().finally_pointer->Some_0
            &&& t.uncaught == s.uncaught
        }),
{
    let top = remaining.last();
    let updated = remaining.update(
        remaining.len() - 1,
        ExceptionHandlingContext { state: ExceptionHandlingState::Finally, ..top },
    );
    let with = s.with_handlers(updated);
    assert(with.ready());
    assert(with.context().try_stack == Some(updated));
    let t = with.moved_to(top.finally_pointer->Some_0 as int)->Some_0;
    assert(t.context().try_stack == Some(updated));
    assert(updated.last().state == ExceptionHandlingState::Finally);
}

/// An exception never skips a final block: every handler that unwinding
/// discards, and that has a final block, is in the state `Finally`, so its
/// final block has started before.
pub proof fn lemma_discarded_handlers_ran_finally(
    handlers: Seq<ExceptionHandlingContext>,
    i: int,
)
    requires
        live_handlers(handlers).len() <= i < handlers.len(),
        handlers[i].finally_pointer is Some,
    ensures
        handlers[i].state == ExceptionHandlingState::Finally,
{
    lemma_live_handlers(handlers);
}

/// A final block runs once: a handler in the state `Finally` takes no
/// exception, and `ENDTRY` on it faults the machine, so that nothing puts
/// it into this state a second time.
pub proof fn lemma_finally_runs_once(s: EngineView, end_offset: int)
    requires
        s.ready(),
        s.handlers().len() > 0,
        s.handlers().last().state == ExceptionHandlingState::Finally,
    ensures
        !can_claim(s.handlers().last()),
        s.ended_try(end_offset) is None,
        live_handlers(s.handlers()) == live_handlers(s.handlers().drop_last()),
{
}

/// `ENDFINALLY` removes the handler whose final block has run, and then
/// either hands the pending exception on or goes on where `ENDTRY`
/// recorded it.
pub proof fn lemma_end_finally_leaves_handler(s: EngineView)
    requires
        s.ended_finally() is Some,
        s.uncaught is None,
    ensures
        ({
            let t = s.ended_finally()->Some_0;
            &&& t.handlers() == s.handlers().drop_last()
            &&& match s.handlers().last().end_pointer {
                Some(e) => t.context().instruction_pointer == e && t.is_jumping,
                None => t.context().instruction_pointer == s.context().instruction_pointer,
            }
        }),
{
}

/// `ENDTRY` succeeds wherever there is a handler whose final block is not
/// running, and the end and the final block lie in the script: the state
/// of the machine stays as it is.
pub proof fn lemma_end_try_succeeds(s: EngineView, end_offset: int)
    requires
        s.ready(),
        s.handlers().len() > 0,
        s.handlers().last().state != ExceptionHandlingState::Finally,
        0 <= s.target(end_offset) <= s.frame().script.value.len(),
        s.target(end_offset) <= usize::MAX,
        s.handlers().last().finally_pointer is Some ==> s.handlers().last().finally_pointer->Some_0
            <= s.frame().script.value.len(),
    ensures
        s.ended_try(end_offset) is Some,
        s.ended_try(end_offset)->Some_0.state == s.state,
{
    let top = s.handlers().last();
    let end = s.target(end_offset) as usize;
    match top.finally_pointer {
        Some(f) => {
            let with = s.with_handlers(
                s.handlers().update(
                    s.handlers().len() - 1,
                    ExceptionHandlingContext {
                        state: ExceptionHandlingState::Finally,
                        end_pointer: Some(end),
                        ..top
                    },
                ),
            );
            assert(with.ready());
            assert(with.frame() == s.frame());
        },
        None => {
            let with = s.with_handlers(s.handlers().drop_last());
            assert(with.ready());
            assert(with.frame() == s.frame());
        },
    }
}

/// `ENDFINALLY` without a pending exception succeeds wherever there is a
/// handler, and the end that it remembers lies in the script: the state of
/// the machine stays as it is.
pub proof fn lemma_end_finally_succeeds(s: EngineView)
    requires
        s.ready(),
        s.handlers().len() > 0,
        s.uncaught is None,
        s.handlers().last().end_pointer is Some ==> s.handlers().last().end_pointer->Some_0
            <= s.frame().script.value.len(),
    ensures
        s.ended_finally() is Some,
        s.ended_finally()->Some_0.state == s.state,
{
    let with = s.with_handlers(s.handlers().drop_last());
    assert(with.ready());
    assert(with.frame() == s.frame());
}

/// `THROW` runs the final block of the innermost handler where that
/// handler cannot catch: its body runs and it has no catch block, or its
/// catch block runs. The handler enters the state `Finally`, the context
/// moves to the final block, the exception stays pending, and no context
/// is unloaded.
pub proof fn lemma_throw_runs_finally(s: EngineView)
    requires
        s.pop() is Some,
        s.handlers().len() > 0,
        s.handlers().last().finally_pointer is Some,
        s.handlers().last().finally_pointer->Some_0 <= s.frame().script.value.len(),
        (s.handlers().last().state == ExceptionHandlingState::Try
            && s.handlers().last().catch_pointer is None) || s.handlers().last().state
            == ExceptionHandlingState::Catch,
    ensures
        s.thrown() is Some,
        ({
            let t = s.thrown()->Some_0;
            &&& t.state == s.state
            &&& t.uncaught == Some(s.pop()->Some_0.1)
            &&& t.uncaught == s.peek(0)
            &&& t.invocation.len() == s.invocation.len()
            &&& t.handlers().len() == s.handlers().len()
            &&& t.handlers().last().state == ExceptionHandlingState::Finally
            &&& t.context().instruction_pointer == s.handlers().last().finally_pointer->Some_0
            &&& t.is_jumping
        }),
{
    let (p, ex) = s.pop()->Some_0;
    let q = EngineView { uncaught: Some(ex), ..p };
    assert(q.ready());
    assert(q.context() == s.context());
    assert(q.frame().script == s.frame().script);
    assert(q.handlers() == s.handlers());
    let remaining = live_handlers(q.handlers());
    assert(remaining == q.handlers());
    let top = remaining.last();
    let updated = remaining.update(
        remaining.len() - 1,
        ExceptionHandlingContext { state: ExceptionHandlingState::Finally, ..top },
    );
    let with = q.with_handlers(updated);
    assert(with.ready());
    assert(with.frame() == q.frame());
    assert(with.context().try_stack == Some(updated));
    let t = with.moved_to(top.finally_pointer->Some_0 as int)->Some_0;
    assert(t.context().try_stack == Some(updated));
    assert(q.unwound() == q.claimed(remaining));
}

/// A `THROW` that no handler takes leaves the exception in the machine:
/// the machine has faulted, holds the item that was thrown, and is
/// otherwise as it stood before the instruction.
pub proof fn lemma_unhandled_throw_is_kept(s: EngineView, operand: Seq<u8>)
    requires
        s.peek(0) is Some,
        s.thrown() is None,
    ensures
        s.executed(OpCode::THROW, operand) == (EngineView {
            state: VMState::FAULT,
            uncaught: s.peek(0),
            ..s
        }),
{
}

/// Where no context has a handler that can take an exception, unwinding
/// finds none.
pub proof fn lemma_no_handler_no_unwinding(s: EngineView)
    requires
        forall|i: int| 0 <= i < s.invocation.len() ==> passed_over(#[trigger] s.invocation[i]),
    ensures
        s.unwound() is None,
    decreases s.invocation.len(),
{
    if s.invocation.len() > 0 && s.ready() {
        assert(passed_over(s.invocation[s.invocation.len() - 1]));
        let below = s.without_context();
        if below.unloaded(s.context()) is Some {
            lemma_unloaded_keeps_contexts(below, s.context());
            let next = below.unloaded(s.context())->Some_0;
            assert forall|i: int| 0 <= i < next.invocation.len() implies passed_over(
                #[trigger] next.invocation[i],
            ) by {
                assert(next.invocation[i] == s.invocation[i]);
            }
            lemma_no_handler_no_unwinding(next);
        }
    }
}

/// A `THROW` in a machine without a handler that can take the exception
/// faults the machine: it holds the item that was thrown and is otherwise
/// as it stood before the instruction.
pub proof fn lemma_throw_without_handler_faults(s: EngineView, operand: Seq<u8>)
    requires
        s.peek(0) is Some,
        forall|i: int| 0 <= i < s.invocation.len() ==> passed_over(#[trigger] s.invocation[i]),
    ensures
        s.executed(OpCode::THROW, operand) == (EngineView {
            state: VMState::FAULT,
            uncaught: s.peek(0),
            ..s
        }),
{
    if s.pop() is Some {
        let (p, ex) = s.pop()->Some_0;
        let q = EngineView { uncaught: Some(ex), ..p };
        assert forall|i: int| 0 <= i < q.invocation.len() implies passed_over(
            #[trigger] q.invocation[i],
        ) by {
            assert(q.invocation[i].try_stack == s.invocation[i].try_stack);
        }
        lemma_no_handler_no_unwinding(q);
    }
    lemma_unhandled_throw_is_kept(s, operand);
}

/// `THROW` preserves frames, whatever comes of it. Where a handler takes
/// the exception, the contexts that were unloaded are exactly those above
/// the context of that handler, none of them had a handler that could
/// take it, and the contexts below are as they were. Where none takes it,
/// or the instruction fails for another reason, the machine faults and no
/// context is unloaded.
pub proof fn lemma_throw_preserves_frames(s: EngineView, operand: Seq<u8>)
    ensures
        ({
            let t = s.executed(OpCode::THROW, operand);
            let k = t.invocation.len() - 1;
            if s.thrown() is None {
                &&& t.state == VMState::FAULT
                &&& t.invocation == s.invocation
                &&& t.shared == s.shared
                &&& t.heap == s.heap
            } else {
                &&& t == s.thrown()->Some_0
                &&& 0 <= k < s.invocation.len()
                &&& forall|i: int|
                    k < i < s.invocation.len() ==> passed_over(#[trigger] s.invocation[i])
                &&& !passed_over(s.invocation[k])
                &&& t.invocation.subrange(0, k) == s.invocation.subrange(0, k)
            }
        }),
{
    if s.thrown() is Some {
        let (p, ex) = s.pop()->Some_0;
        let q = EngineView { uncaught: Some(ex), ..p };
        assert(q.invocation == s.invocation);
        lemma_unwinding_preserves_frames(q);
    }
}

} // verus!
