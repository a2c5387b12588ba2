pub mod bitwise;
pub mod compound;
pub mod control;
pub mod dispatch;
pub mod exceptions;
pub mod numeric;
pub mod operands;
pub mod push;
pub mod slot;
pub mod splice;
pub mod stack;
pub mod types;

use crate::jump_table::compound::{compound_arity, compound_compute, compound_op};
use crate::jump_table::numeric::{numeric_arity, numeric_compute, numeric_op};
use crate::jump_table::push::{is_push, is_push_data, push_compute, push_op};
use crate::jump_table::splice::{splice_arity, splice_compute, splice_op};
use crate::jump_table::types::{types_arity, types_compute, types_op};
use crate::types::stack_item::{items_view, ItemView, StackItem};
use crate::vm::evaluation_stack::StackState;
use crate::vm::execution_engine::{EngineView, ExecutionEngine};
use crate::vm::execution_engine_limits::ExecutionEngineLimits;
use crate::vm::op_code::OpCode;
use crate::vm::reference_counter::{CounterView, ReferenceCounter};
use vstd::prelude::*;

verus! {

/// Who executes an instruction code.
#[derive(Debug, Clone, Copy, PartialEq, Eq, Structural)]
pub enum Handler {
    /// Nobody: the code faults the machine.
    Absent,
    /// The handler of the machine.
    BuiltIn,
    /// The host: the machine pauses with the code as its pending request.
    Host,
}

/// The table of the machine's handlers: for every byte, who executes the
/// instruction code that the byte encodes. A code without a handler faults
/// the machine.
#[derive(Debug)]
pub struct JumpTable {
    pub table: Vec<Handler>,
}

impl View for JumpTable {
    type V = Seq<Handler>;

    open spec fn view(&self) -> Seq<Handler> {
        self.table@
    }
}

/// Whether the default table handles the byte: it encodes an instruction
/// code other than `ABORTMSG` and `ASSERTMSG`.
pub open spec fn handled_by_default(code: u8) -> bool {
    match OpCode::spec_from_u8(code) {
        Some(op) => op != OpCode::ABORTMSG && op != OpCode::ASSERTMSG,
        None => false,
    }
}

/// The default table: the machine executes every code that it handles by
/// default, and nobody executes the others.
pub open spec fn default_table() -> Seq<Handler> {
    Seq::new(
        256,
        |i: int|
            if handled_by_default(i as u8) {
                Handler::BuiltIn
            } else {
                Handler::Absent
            },
    )
}

/// Whether the machine itself executes the code.
pub open spec fn has_handler(table: Seq<Handler>, op: OpCode) -> bool {
    op.code() < table.len() && table[op.code() as int] == Handler::BuiltIn
}

/// Whether the host executes the code.
pub open spec fn host_handles(table: Seq<Handler>, op: OpCode) -> bool {
    op.code() < table.len() && table[op.code() as int] == Handler::Host
}

impl Clone for JumpTable {
    fn clone(&self) -> (r: Self)
        ensures
            r@ == self@,
    {
        let table = self.table.clone();
        assert(table@ =~= self.table@);
        JumpTable { table }
    }
}

impl JumpTable {
    /// The default table.
    pub fn new() -> (r: Self)
        ensures
            r@ == default_table(),
    {
        let mut jump_table = JumpTable { table: Vec::new() };
        jump_table.initialize();
        jump_table
    }

    /// Fills the table with the default handlers.
    pub fn initialize(&mut self)
        ensures
            final(self)@ == default_table(),
    {
        let mut table: Vec<Handler> = Vec::new();
        let mut i: usize = 0;
        while i < 256
            invariant
                i <= 256,
                table@.len() == i,
                forall|j: int|
                    0 <= j < i ==> table@[j] == if handled_by_default(j as u8) {
                        Handler::BuiltIn
                    } else {
                        Handler::Absent
                    },
            decreases 256 - i,
        {
            let handled: bool = match OpCode::from_u8(i as u8) {
                Some(op) => !matches!(op, OpCode::ABORTMSG | OpCode::ASSERTMSG),
                None => false,
            };
            table.push(
                if handled {
                    Handler::BuiltIn
                } else {
                    Handler::Absent
                },
            );
            i += 1;
        }
        assert(table@ =~= default_table());
        self.table = table;
    }

    /// Who executes the code: nobody for a code outside the table.
    pub fn index(&self, op: OpCode) -> (r: Handler)
        ensures
            r == if op.code() < self@.len() {
                self@[op.code() as int]
            } else {
                Handler::Absent
            },
    {
        let code: usize = op.to_u8() as usize;
        if code < self.table.len() {
            self.table[code]
        } else {
            Handler::Absent
        }
    }

    /// Whether the machine itself executes the code.
    pub fn contains(&self, op: OpCode) -> (r: bool)
        ensures
            r == has_handler(self@, op),
    {
        let code: usize = op.to_u8() as usize;
        code < self.table.len() && matches!(self.table[code], Handler::BuiltIn)
    }

    /// Whether the host executes the code.
    pub fn delegates(&self, op: OpCode) -> (r: bool)
        ensures
            r == host_handles(self@, op),
    {
        let code: usize = op.to_u8() as usize;
        code < self.table.len() && matches!(self.table[code], Handler::Host)
    }

    /// Adds or removes the machine's handler of the code. A table of fewer
    /// than 256 entries is left as it is.
    pub fn set_handler(&mut self, op: OpCode, enabled: bool)
        ensures
            final(self)@ == if op.code() < old(self)@.len() {
                old(self)@.update(
                    op.code() as int,
                    if enabled {
                        Handler::BuiltIn
                    } else {
                        Handler::Absent
                    },
                )
            } else {
                old(self)@
            },
    {
        let code: usize = op.to_u8() as usize;
        if code < self.table.len() {
            self.table.set(
                code,
                if enabled {
                    Handler::BuiltIn
                } else {
                    Handler::Absent
                },
            );
        }
    }

    /// Hands the code to the host: the machine pauses on it with the code
    /// as its pending request, and the host executes it. A table of fewer
    /// than 256 entries is left as it is.
    pub fn set_host_handler(&mut self, op: OpCode)
        ensures
            final(self)@ == if op.code() < old(self)@.len() {
                old(self)@.update(op.code() as int, Handler::Host)
            } else {
                old(self)@
            },
    {
        let code: usize = op.to_u8() as usize;
        if code < self.table.len() {
            self.table.set(code, Handler::Host);
        }
    }
}

/// The families of codes that pop a fixed number of operands, compute,
/// and push what they computed.
#[derive(Debug, Clone, Copy, PartialEq, Eq, Structural)]
pub enum Family {
    Numeric,
    Types,
    Splice,
    Compound,
    Push,
    Other,
}

/// The family of the code.
pub open spec fn family_of(op: OpCode) -> Family {
    if numeric_arity(op) is Some {
        Family::Numeric
    } else if types_arity(op) is Some {
        Family::Types
    } else if splice_arity(op) is Some {
        Family::Splice
    } else if compound_arity(op) is Some {
        Family::Compound
    } else if is_push(op) {
        Family::Push
    } else {
        Family::Other
    }
}

/// The number of operands that the code pops before it computes, for a code
/// of one of the families.
pub open spec fn arity(op: OpCode) -> Option<nat> {
    match family_of(op) {
        Family::Numeric => numeric_arity(op),
        Family::Types => types_arity(op),
        Family::Splice => splice_arity(op),
        Family::Compound => compound_arity(op),
        Family::Push => Some(0),
        Family::Other => None,
    }
}

/// What the code pushes for the operands `args`, which are in the order in
/// which they were popped, and the counter afterwards. There is no result
/// where the code faults.
pub open spec fn compute(
    op: OpCode,
    operand: Seq<u8>,
    args: Seq<ItemView>,
    heap: CounterView,
    limits: ExecutionEngineLimits,
) -> Option<(CounterView, Seq<ItemView>)> {
    match family_of(op) {
        Family::Numeric => match numeric_compute(op, args, heap, limits) {
            Some(r) => Some((heap, r)),
            None => None,
        },
        Family::Types => types_compute(op, operand, args, heap, limits),
        Family::Splice => splice_compute(op, args, heap, limits),
        Family::Compound => compound_compute(op, operand, args, heap, limits),
        Family::Push => push_compute(op, operand, heap, limits),
        Family::Other => None,
    }
}

/// The family of the code and the number of operands that it pops.
pub fn family(op: OpCode) -> (r: (Family, usize))
    ensures
        r.0 == family_of(op),
        r.0 != Family::Other ==> arity(op) == Some(r.1 as nat),
        r.1 <= 5,
{
    match op {
        OpCode::SIGN
        | OpCode::ABS
        | OpCode::NEGATE
        | OpCode::INC
        | OpCode::DEC
        | OpCode::SQRT
        | OpCode::INVERT
        | OpCode::NOT
        | OpCode::NZ => (Family::Numeric, 1),
        OpCode::ADD
        | OpCode::SUB
        | OpCode::MUL
        | OpCode::DIV
        | OpCode::MOD
        | OpCode::POW
        | OpCode::AND
        | OpCode::OR
        | OpCode::XOR
        | OpCode::MIN
        | OpCode::MAX
        | OpCode::SHL
        | OpCode::SHR
        | OpCode::BOOLAND
        | OpCode::BOOLOR
        | OpCode::NUMEQUAL
        | OpCode::NUMNOTEQUAL
        | OpCode::LT
        | OpCode::LE
        | OpCode::GT
        | OpCode::GE => (Family::Numeric, 2),
        OpCode::MODMUL | OpCode::MODPOW | OpCode::WITHIN => (Family::Numeric, 3),
        OpCode::ISNULL | OpCode::ISTYPE | OpCode::CONVERT => (Family::Types, 1),
        OpCode::EQUAL | OpCode::NOTEQUAL => (Family::Types, 2),
        OpCode::NEWBUFFER => (Family::Splice, 1),
        OpCode::CAT | OpCode::LEFT | OpCode::RIGHT => (Family::Splice, 2),
        OpCode::SUBSTR => (Family::Splice, 3),
        OpCode::MEMCPY => (Family::Splice, 5),
        OpCode::NEWARRAY0 | OpCode::NEWSTRUCT0 | OpCode::NEWMAP => (Family::Compound, 0),
        OpCode::NEWARRAY
        | OpCode::NEWARRAY_T
        | OpCode::NEWSTRUCT
        | OpCode::SIZE
        | OpCode::KEYS
        | OpCode::VALUES
        | OpCode::REVERSEITEMS
        | OpCode::CLEARITEMS
        | OpCode::POPITEM
        | OpCode::UNPACK => (Family::Compound, 1),
        OpCode::HASKEY | OpCode::PICKITEM | OpCode::APPEND | OpCode::REMOVE => (
            Family::Compound,
            2,
        ),
        OpCode::SETITEM => (Family::Compound, 3),
        OpCode::PUSHINT8
        | OpCode::PUSHINT16
        | OpCode::PUSHINT32
        | OpCode::PUSHINT64
        | OpCode::PUSHINT128
        | OpCode::PUSHINT256
        | OpCode::PUSHT
        | OpCode::PUSHF
        | OpCode::PUSHNULL
        | OpCode::PUSHDATA1
        | OpCode::PUSHDATA2
        | OpCode::PUSHDATA4
        | OpCode::PUSHM1
        | OpCode::PUSH0
        | OpCode::PUSH1
        | OpCode::PUSH2
        | OpCode::PUSH3
        | OpCode::PUSH4
        | OpCode::PUSH5
        | OpCode::PUSH6
        | OpCode::PUSH7
        | OpCode::PUSH8
        | OpCode::PUSH9
        | OpCode::PUSH10
        | OpCode::PUSH11
        | OpCode::PUSH12
        | OpCode::PUSH13
        | OpCode::PUSH14
        | OpCode::PUSH15
        | OpCode::PUSH16 => (Family::Push, 0),
        _ => (Family::Other, 0),
    }
}

/// Computes what the code pushes for the operands.
pub fn compute_op(
    op: OpCode,
    operand: &Vec<u8>,
    args: &Vec<StackItem>,
    heap: &mut ReferenceCounter,
    limits: &ExecutionEngineLimits,
) -> (r: Option<Vec<StackItem>>)
    ensures
        r is Some <==> compute(op, operand@, items_view(args@), old(heap)@, *limits) is Some,
        r is Some ==> (final(heap)@, items_view(r->Some_0@)) == compute(
            op,
            operand@,
            items_view(args@),
            old(heap)@,
            *limits,
        )->Some_0,
{
    match family(op).0 {
        Family::Numeric => numeric_op(op, args, heap, limits),
        Family::Types => types_op(op, operand, args, heap, limits),
        Family::Splice => splice_op(op, args, heap, limits),
        Family::Compound => compound_op(op, operand, args, heap, limits),
        Family::Push => push_op(op, operand, heap, limits),
        Family::Other => None,
    }
}

impl EngineView {
    /// The machine after a code of one of the families: its operands are
    /// popped from the current evaluation stack, top first, and what it
    /// computes is pushed.
    pub open spec fn computed(self, op: OpCode, operand: Seq<u8>) -> Option<EngineView> {
        if !self.ready() {
            None
        } else {
            match arity(op) {
                Some(k) => match self.operands().pop_n(k) {
                    Some((st, args)) => match compute(op, operand, args, st.heap, self.limits) {
                        Some((h, results)) => self.after_operands(
                            (StackState { stack: st.stack, heap: h }).push_all(results, 0),
                        ),
                        None => None,
                    },
                    None => None,
                },
                None => None,
            }
        }
    }
}

impl ExecutionEngine {
    /// Executes a code of one of the families.
    pub fn run_computed(&mut self, op: OpCode, operand: &Vec<u8>) -> (ok: bool)
        ensures
            ok <==> old(self)@.computed(op, operand@) is Some,
            ok ==> final(self)@ == old(self)@.computed(op, operand@)->Some_0,
    {
        if !self.ready() {
            return false;
        }
        let (kind, k) = family(op);
        if matches!(kind, Family::Other) {
            return false;
        }
        let index = self.frame_index();
        let args = match self.shared_states[index].evaluation_stack.pop_n(
            k,
            &mut self.reference_counter,
        ) {
            Some(args) => args,
            None => {
                return false;
            },
        };
        let limits = self.limits;
        let results = match compute_op(op, operand, &args, &mut self.reference_counter, &limits) {
            Some(r) => r,
            None => {
                return false;
            },
        };
        let ok = self.shared_states[index].evaluation_stack.push_all(
            results,
            &mut self.reference_counter,
        );
        if ok {
            assert(self@.shared =~= old(self)@.computed(op, operand@)->Some_0.shared);
            assert(self@.invocation =~= old(self)@.invocation);
        }
        ok
    }
}

/// Whether the code makes a byte string or a buffer of a new size: the
/// codes that push data, `NEWBUFFER`, `CAT`, `SUBSTR`, `LEFT` and `RIGHT`.
pub open spec fn makes_bytes(op: OpCode) -> bool {
    is_push_data(op) || op == OpCode::NEWBUFFER || op == OpCode::CAT || op == OpCode::SUBSTR || op
        == OpCode::LEFT || op == OpCode::RIGHT
}

/// No item is made larger than the item limit: where a code that makes a
/// byte string or a buffer succeeds, it pushes one item, and that item has
/// at most as many bytes as the limit allows.
pub proof fn lemma_item_size_bound(
    op: OpCode,
    operand: Seq<u8>,
    args: Seq<ItemView>,
    heap: CounterView,
    limits: ExecutionEngineLimits,
)
    requires
        heap.wf(),
        makes_bytes(op),
        compute(op, operand, args, heap, limits) is Some,
    ensures
        ({
            let made = compute(op, operand, args, heap, limits)->Some_0;
            &&& made.1.len() == 1
            &&& made.0.span_of(made.1[0]) is Some
            &&& made.0.span_of(made.1[0])->Some_0.len() <= limits.max_item_size
        }),
{
}

} // verus!
