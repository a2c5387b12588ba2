use crate::types::stack_item::{items_view, ItemView, StackItem};
use crate::vm::reference_counter::{CounterView, ReferenceCounter};
use crate::vm::vm_error::{VMError, VMErrorKind};
use vstd::prelude::*;

verus! {

/// An evaluation stack together with the reference counter that accounts
/// for it, as a mathematical value. The last item of `stack` is the top.
pub struct StackState {
    pub stack: Seq<ItemView>,
    pub heap: CounterView,
}

impl StackState {
    /// The item `index` places below the top.
    pub open spec fn peek(self, index: int) -> Option<ItemView> {
        if 0 <= index < self.stack.len() {
            Some(self.stack[self.stack.len() - 1 - index])
        } else {
            None
        }
    }

    /// The state after `item` was pushed: it is the new top, and the counter
    /// records one more stack reference to it.
    pub open spec fn push(self, item: ItemView) -> Option<StackState> {
        match self.heap.add_stack_reference(item, 1) {
            Some(h) => Some(StackState { stack: self.stack.push(item), heap: h }),
            None => None,
        }
    }

    /// The state after `item` was inserted `index` places below the top.
    pub open spec fn insert(self, index: int, item: ItemView) -> Option<StackState> {
        if 0 <= index <= self.stack.len() {
            match self.heap.add_stack_reference(item, 1) {
                Some(h) => Some(
                    StackState { stack: self.stack.insert(self.stack.len() - index, item), heap: h },
                ),
                None => None,
            }
        } else {
            None
        }
    }

    /// The state after the item `index` places below the top was removed,
    /// and that item: the counter records one stack reference less to it.
    pub open spec fn remove(self, index: int) -> Option<(StackState, ItemView)> {
        if 0 <= index < self.stack.len() {
            let at = self.stack.len() - 1 - index;
            match self.heap.remove_stack_reference(self.stack[at]) {
                Some(h) => Some((StackState { stack: self.stack.remove(at), heap: h }, self.stack[at])),
                None => None,
            }
        } else {
            None
        }
    }

    /// The state after the top was removed, and the former top.
    pub open spec fn pop(self) -> Option<(StackState, ItemView)> {
        self.remove(0)
    }

    /// The state after the top `n` items were put in the opposite order.
    pub open spec fn reverse(self, n: int) -> Option<StackState> {
        if 0 <= n <= self.stack.len() {
            Some(StackState { stack: reversed_top(self.stack, n), ..self })
        } else {
            None
        }
    }

    /// The state after the top `n` items were removed, top first, and the
    /// removed items in the order of their removal.
    pub open spec fn pop_n(self, n: nat) -> Option<(StackState, Seq<ItemView>)>
        decreases n,
    {
        if n == 0 {
            Some((self, Seq::<ItemView>::empty()))
        } else {
            match self.pop() {
                Some((s, top)) => match s.pop_n((n - 1) as nat) {
                    Some((t, rest)) => Some((t, seq![top] + rest)),
                    None => None,
                },
                None => None,
            }
        }
    }

    /// The state after the items from position `from` on were pushed, one
    /// after the other.
    pub open spec fn push_all(self, items: Seq<ItemView>, from: int) -> Option<StackState>
        decreases items.len() - from,
    {
        if from < 0 || from >= items.len() {
            Some(self)
        } else {
            match self.push(items[from]) {
                Some(s) => s.push_all(items, from + 1),
                None => None,
            }
        }
    }

    /// The state after the top `count` items of `source`, or all of them,
    /// were pushed in their order. A count above the size of the source
    /// means all of them.
    pub open spec fn copy_from(self, source: Seq<ItemView>, count: Option<usize>) -> Option<
        StackState,
    > {
        self.push_all(source.subrange(source.len() - copied(source, count), source.len() as int), 0)
    }

    /// The state after every item was removed, top first.
    pub open spec fn clear(self) -> Option<StackState> {
        match self.pop_n(self.stack.len()) {
            Some((s, _)) => Some(s),
            None => None,
        }
    }
}

/// The stack with its top `n` items in the opposite order.
pub open spec fn reversed_top(stack: Seq<ItemView>, n: int) -> Seq<ItemView>
    recommends
        0 <= n <= stack.len(),
{
    stack.subrange(0, stack.len() - n) + stack.subrange(
        stack.len() - n,
        stack.len() as int,
    ).reverse()
}

/// The number of items that a copy of `count` items takes from `source`.
pub open spec fn copied(source: Seq<ItemView>, count: Option<usize>) -> int {
    match count {
        Some(c) => if c <= source.len() {
            c as int
        } else {
            source.len() as int
        },
        None => source.len() as int,
    }
}

/// The source stack and the target state after the top `count` items of the
/// source were moved to the target: they are first pushed on the target in
/// their order and then removed from the source, top first.
pub open spec fn moved(
    source: Seq<ItemView>,
    target: StackState,
    count: Option<usize>,
) -> Option<(Seq<ItemView>, StackState)> {
    match target.copy_from(source, count) {
        Some(t) => match (StackState { stack: source, heap: t.heap }).pop_n(
            copied(source, count) as nat,
        ) {
            Some((s, _)) => Some((s.stack, StackState { stack: t.stack, heap: s.heap })),
            None => None,
        },
        None => None,
    }
}

/// A stack of items. The position 0 is the top.
#[derive(Debug)]
pub struct EvaluationStack {
    pub inner_list: Vec<StackItem>,
}

impl View for EvaluationStack {
    type V = Seq<ItemView>;

    open spec fn view(&self) -> Seq<ItemView> {
        items_view(self.inner_list@)
    }
}

/// The stack and the counter as one state.
pub open spec fn state_of(stack: &EvaluationStack, counter: &ReferenceCounter) -> StackState {
    StackState { stack: stack@, heap: counter@ }
}

/// What a stack operation that can fail did: on success the state is the
/// expected one; on failure nothing has changed, and the error is of the
/// kind `InvalidParameter` where the position is out of range and of the
/// kind `StackOverflow` where the counter refused.
pub open spec fn stack_outcome(
    error: Option<VMError>,
    in_range: bool,
    before: StackState,
    after: StackState,
    expected: Option<StackState>,
) -> bool {
    match expected {
        Some(s) => error is None && after == s,
        None => error is Some && after == before && error->Some_0.spec_kind() == if in_range {
            VMErrorKind::StackOverflow
        } else {
            VMErrorKind::InvalidParameter
        },
    }
}

impl EvaluationStack {
    /// An empty stack.
    pub fn new() -> (r: Self)
        ensures
            r@ == Seq::<ItemView>::empty(),
    {
        assert(items_view(Seq::<StackItem>::empty()) =~= Seq::<ItemView>::empty());
        EvaluationStack { inner_list: Vec::new() }
    }

    /// The number of items.
    pub fn count(&self) -> (r: usize)
        ensures
            r == self@.len(),
    {
        self.inner_list.len()
    }

    /// The item `index` places below the top.
    pub fn peek(&self, index: usize) -> (r: Result<StackItem, VMError>)
        ensures
            match r {
                Ok(item) => index < self@.len() && item@ == self@[self@.len() - 1 - index],
                Err(e) => index >= self@.len() && e.spec_kind() == VMErrorKind::InvalidParameter,
            },
    {
        if index >= self.inner_list.len() {
            return Err(VMError::InvalidParameter("Peek out of bounds".to_owned()));
        }
        Ok(self.inner_list[self.inner_list.len() - index - 1].clone())
    }

    /// Pushes the item.
    pub fn push(&mut self, item: StackItem, counter: &mut ReferenceCounter) -> (r: Result<
        (),
        VMError,
    >)
        ensures
            stack_outcome(
                r.err(),
                true,
                state_of(old(self), old(counter)),
                state_of(final(self), final(counter)),
                state_of(old(self), old(counter)).push(item@),
            ),
    {
        if !counter.add_stack_reference(&item, 1) {
            return Err(VMError::StackOverflow("The counter refused the reference".to_owned()));
        }
        self.inner_list.push(item);
        assert(self@ =~= old(self)@.push(item@));
        Ok(())
    }

    /// Inserts the item `index` places below the top.
    pub fn insert(&mut self, index: usize, item: StackItem, counter: &mut ReferenceCounter) -> (r:
        Result<(), VMError>)
        ensures
            stack_outcome(
                r.err(),
                index <= old(self)@.len(),
                state_of(old(self), old(counter)),
                state_of(final(self), final(counter)),
                state_of(old(self), old(counter)).insert(index as int, item@),
            ),
    {
        if index > self.inner_list.len() {
            return Err(VMError::InvalidParameter("Insert out of bounds".to_owned()));
        }
        if !counter.add_stack_reference(&item, 1) {
            return Err(VMError::StackOverflow("The counter refused the reference".to_owned()));
        }
        let at: usize = self.inner_list.len() - index;
        self.inner_list.insert(at, item);
        assert(self@ =~= old(self)@.insert(at as int, item@));
        Ok(())
    }

    /// Removes the item `index` places below the top and gives it back.
    pub fn remove(&mut self, index: usize, counter: &mut ReferenceCounter) -> (r: Result<
        StackItem,
        VMError,
    >)
        ensures
            stack_outcome(
                r.err(),
                index < old(self)@.len(),
                state_of(old(self), old(counter)),
                state_of(final(self), final(counter)),
                match state_of(old(self), old(counter)).remove(index as int) {
                    Some((s, _)) => Some(s),
                    None => None,
                },
            ),
            r is Ok ==> r->Ok_0@ == state_of(old(self), old(counter)).remove(index as int)->Some_0.1,
    {
        if index >= self.inner_list.len() {
            return Err(VMError::InvalidParameter("Remove out of bounds".to_owned()));
        }
        let at: usize = self.inner_list.len() - index - 1;
        if !counter.remove_stack_reference(&self.inner_list[at]) {
            return Err(VMError::StackOverflow("The counter refused the release".to_owned()));
        }
        let item = self.inner_list.remove(at);
        assert(self@ =~= old(self)@.remove(at as int));
        Ok(item)
    }

    /// Removes the top and gives it back.
    pub fn pop(&mut self, counter: &mut ReferenceCounter) -> (r: Result<StackItem, VMError>)
        ensures
            stack_outcome(
                r.err(),
                0 < old(self)@.len(),
                state_of(old(self), old(counter)),
                state_of(final(self), final(counter)),
                match state_of(old(self), old(counter)).pop() {
                    Some((s, _)) => Some(s),
                    None => None,
                },
            ),
            r is Ok ==> r->Ok_0@ == state_of(old(self), old(counter)).pop()->Some_0.1,
    {
        self.remove(0, counter)
    }

    /// Puts the top `n` items in the opposite order.
    pub fn reverse(&mut self, n: usize) -> (r: Result<(), VMError>)
        ensures
            match r {
                Ok(()) => n <= old(self)@.len() && final(self)@ == reversed_top(
                    old(self)@,
                    n as int,
                ),
                Err(e) => n > old(self)@.len() && final(self)@ == old(self)@ && e.spec_kind()
                    == VMErrorKind::InvalidParameter,
            },
    {
        let len: usize = self.inner_list.len();
        if n > len {
            return Err(VMError::InvalidParameter("Reverse out of bounds".to_owned()));
        }
        let keep: usize = len - n;
        let mut out: Vec<StackItem> = Vec::new();
        let mut i: usize = 0;
        while i < len
            invariant
                i <= len,
                keep + n == len,
                len == self.inner_list@.len(),
                out@.len() == i,
                forall|j: int|
                    0 <= j < i ==> out@[j]@ == if j < keep {
                        self.inner_list@[j]@
                    } else {
                        self.inner_list@[keep + (len - 1 - j)]@
                    },
            decreases len - i,
        {
            if i < keep {
                out.push(self.inner_list[i].clone());
            } else {
                out.push(self.inner_list[keep + (len - 1 - i)].clone());
            }
            i += 1;
        }
        assert(items_view(out@) =~= old(self)@.subrange(0, keep as int) + old(self)@.subrange(
            keep as int,
            len as int,
        ).reverse());
        self.inner_list = out;
        Ok(())
    }

    /// Removes the top `n` items, top first, and gives them back in the
    /// order of their removal.
    pub fn pop_n(&mut self, n: usize, counter: &mut ReferenceCounter) -> (r: Option<
        Vec<StackItem>,
    >)
        ensures
            r is Some <==> state_of(old(self), old(counter)).pop_n(n as nat) is Some,
            r is Some ==> {
                let expected = state_of(old(self), old(counter)).pop_n(n as nat)->Some_0;
                state_of(final(self), final(counter)) == expected.0 && items_view(r->Some_0@)
                    == expected.1
            },
        decreases n,
    {
        if n == 0 {
            let out: Vec<StackItem> = Vec::new();
            assert(items_view(out@) =~= Seq::<ItemView>::empty());
            return Some(out);
        }
        let top = match self.pop(counter) {
            Ok(item) => item,
            Err(_) => {
                return None;
            },
        };
        match self.pop_n(n - 1, counter) {
            Some(rest) => {
                let mut out: Vec<StackItem> = Vec::new();
                out.push(top);
                let mut rest = rest;
                let ghost rest_view = items_view(rest@);
                out.append(&mut rest);
                assert(items_view(out@) =~= seq![top@] + rest_view);
                Some(out)
            },
            None => None,
        }
    }

    /// Pushes the items, one after the other.
    pub fn push_all(&mut self, items: Vec<StackItem>, counter: &mut ReferenceCounter) -> (ok: bool)
        ensures
            ok <==> state_of(old(self), old(counter)).push_all(items_view(items@), 0) is Some,
            ok ==> state_of(final(self), final(counter)) == state_of(
                old(self),
                old(counter),
            ).push_all(items_view(items@), 0)->Some_0,
    {
        let n: usize = items.len();
        let mut i: usize = 0;
        while i < n
            invariant
                i <= n,
                n == items@.len(),
                state_of(old(self), old(counter)).push_all(items_view(items@), 0) == state_of(
                    self,
                    counter,
                ).push_all(items_view(items@), i as int),
            decreases n - i,
        {
            match self.push(items[i].clone(), counter) {
                Ok(()) => {},
                Err(_) => {
                    return false;
                },
            }
            i += 1;
        }
        true
    }

    /// Removes every item, top first.
    pub fn clear(&mut self, counter: &mut ReferenceCounter) -> (ok: bool)
        ensures
            ok <==> state_of(old(self), old(counter)).clear() is Some,
            ok ==> state_of(final(self), final(counter)) == state_of(
                old(self),
                old(counter),
            ).clear()->Some_0,
    {
        let n: usize = self.inner_list.len();
        assert(self@.len() == n);
        self.pop_n(n, counter).is_some()
    }

    /// Pushes the top `count` items of this stack, or all of them, on
    /// `stack`, in their order.
    pub fn copy_to(
        &self,
        stack: &mut EvaluationStack,
        count: Option<usize>,
        counter: &mut ReferenceCounter,
    ) -> (ok: bool)
        ensures
            ok <==> state_of(old(stack), old(counter)).copy_from(self@, count) is Some,
            ok ==> state_of(final(stack), final(counter)) == state_of(
                old(stack),
                old(counter),
            ).copy_from(self@, count)->Some_0,
    {
        let len: usize = self.inner_list.len();
        let n: usize = match count {
            Some(c) => if c <= len {
                c
            } else {
                len
            },
            None => len,
        };
        let start: usize = len - n;
        let mut part: Vec<StackItem> = Vec::new();
        let mut i: usize = start;
        while i < len
            invariant
                start <= i <= len,
                len == self.inner_list@.len(),
                part@.len() == i - start,
                forall|j: int| 0 <= j < i - start ==> part@[j]@ == self.inner_list@[start + j]@,
            decreases len - i,
        {
            part.push(self.inner_list[i].clone());
            i += 1;
        }
        assert(items_view(part@) =~= self@.subrange(start as int, len as int));
        stack.push_all(part, counter)
    }

    /// Moves the top `count` items of this stack, or all of them, to
    /// `stack`, in their order.
    pub fn move_to(
        &mut self,
        stack: &mut EvaluationStack,
        count: Option<usize>,
        counter: &mut ReferenceCounter,
    ) -> (ok: bool)
        ensures
            ok <==> moved(old(self)@, state_of(old(stack), old(counter)), count) is Some,
            ok ==> (final(self)@, state_of(final(stack), final(counter))) == moved(
                old(self)@,
                state_of(old(stack), old(counter)),
                count,
            )->Some_0,
    {
        if !self.copy_to(stack, count, counter) {
            return false;
        }
        let len: usize = self.inner_list.len();
        let n: usize = match count {
            Some(c) => if c <= len {
                c
            } else {
                len
            },
            None => len,
        };
        assert(self@.len() == len);
        self.pop_n(n, counter).is_some()
    }
}

} // verus!
