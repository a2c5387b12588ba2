use crate::types::stack_item_type::StackItemType;
use crate::vm::encoding::{le_i32, signed8};
use crate::vm::instruction::{
    lemma_decode_bounds, spec_decode, Instruction, InstructionError, InstructionView,
};
use crate::vm::op_code::OpCode;
use vstd::prelude::*;

verus! {

/// Why a script, or a position in it, was refused.
#[derive(Debug, Clone, Copy, PartialEq, Eq, Structural)]
pub enum ScriptError {
    /// No instruction can be decoded at the position.
    InvalidInstructionPointer(usize),
    /// The position is not the start of an instruction of a strict script.
    InstructionNotFound(usize),
    /// The instruction at the position jumps to no instruction.
    InvalidJumpTarget(usize, OpCode),
    /// The `TRY` at the position names a handler that is no instruction.
    InvalidTryTarget(usize),
    /// The instruction at the position names the given byte as a type.
    InvalidStackItemType(usize, u8),
}

/// A script as a mathematical value: its bytes and its mode.
pub struct ScriptView {
    pub value: Seq<u8>,
    pub strict_mode: bool,
}

/// An immutable sequence of instruction bytes. A strict script was walked
/// from its first byte when it was made: all its instructions decode, and
/// all its jump targets and type operands are valid.
#[derive(Debug)]
pub struct Script {
    value: Vec<u8>,
    strict_mode: bool,
    boundaries: Vec<bool>,
}

/// Whether decoding instruction after instruction from `from` arrives
/// exactly at `target`.
pub open spec fn walk_reaches(script: Seq<u8>, from: int, target: int) -> bool
    decreases script.len() - from,
{
    if from == target {
        true
    } else if from < 0 || from > target || from >= script.len() {
        false
    } else {
        match spec_decode(script, from) {
            Ok(ins) => walk_reaches(script, from + ins.size(), target),
            Err(_) => false,
        }
    }
}

/// Whether `ip` is the start of an instruction on the walk from the first
/// byte of the script.
pub open spec fn is_boundary(script: Seq<u8>, ip: int) -> bool {
    0 <= ip < script.len() && walk_reaches(script, 0, ip)
}

/// The first position from `from` on at which the walk cannot decode an
/// instruction.
pub open spec fn walk_error(script: Seq<u8>, from: int) -> Option<ScriptError>
    decreases script.len() - from,
{
    if from < 0 || from >= script.len() {
        None
    } else {
        match spec_decode(script, from) {
            Ok(ins) => walk_error(script, from + ins.size()),
            Err(_) => Some(ScriptError::InvalidInstructionPointer(from as usize)),
        }
    }
}

/// Whether the code is a jump, a call or an `ENDTRY` with a one-byte offset.
pub open spec fn is_short_branch(op: OpCode) -> bool {
    op == OpCode::JMP || op == OpCode::JMPIF || op == OpCode::JMPIFNOT || op == OpCode::JMPEQ
        || op == OpCode::JMPNE || op == OpCode::JMPGT || op == OpCode::JMPGE || op
        == OpCode::JMPLT || op == OpCode::JMPLE || op == OpCode::CALL || op == OpCode::ENDTRY
}

/// Whether the code is `PUSHA`, or a jump, a call or an `ENDTRY` with a
/// four-byte offset.
pub open spec fn is_long_branch(op: OpCode) -> bool {
    op == OpCode::PUSHA || op == OpCode::JMP_L || op == OpCode::JMPIF_L || op
        == OpCode::JMPIFNOT_L || op == OpCode::JMPEQ_L || op == OpCode::JMPNE_L || op
        == OpCode::JMPGT_L || op == OpCode::JMPGE_L || op == OpCode::JMPLT_L || op
        == OpCode::JMPLE_L || op == OpCode::CALL_L || op == OpCode::ENDTRY_L
}

/// Whether the code takes a type as its operand.
pub open spec fn has_type_operand(op: OpCode) -> bool {
    op == OpCode::NEWARRAY_T || op == OpCode::ISTYPE || op == OpCode::CONVERT
}

/// What a strict script must not hold at `ip`, where `ins` is the
/// instruction there: a branch or a handler offset that leads to no
/// instruction, or a type operand that is no type (or is `Any`, except for
/// `NEWARRAY_T`).
pub open spec fn instruction_error(script: Seq<u8>, ip: int, ins: InstructionView) -> Option<
    ScriptError,
> {
    let op = ins.opcode;
    if is_short_branch(op) {
        if is_boundary(script, ip + signed8(ins.operand[0])) {
            None
        } else {
            Some(ScriptError::InvalidJumpTarget(ip as usize, op))
        }
    } else if is_long_branch(op) {
        if is_boundary(script, ip + le_i32(ins.operand)) {
            None
        } else {
            Some(ScriptError::InvalidJumpTarget(ip as usize, op))
        }
    } else if op == OpCode::TRY {
        if is_boundary(script, ip + signed8(ins.operand[0])) && is_boundary(
            script,
            ip + signed8(ins.operand[1]),
        ) {
            None
        } else {
            Some(ScriptError::InvalidTryTarget(ip as usize))
        }
    } else if op == OpCode::TRY_L {
        if is_boundary(script, ip + le_i32(ins.operand)) && is_boundary(
            script,
            ip + le_i32(ins.operand.skip(4)),
        ) {
            None
        } else {
            Some(ScriptError::InvalidTryTarget(ip as usize))
        }
    } else if has_type_operand(op) {
        match StackItemType::spec_from_u8(ins.operand[0]) {
            None => Some(ScriptError::InvalidStackItemType(ip as usize, ins.operand[0])),
            Some(t) => if op != OpCode::NEWARRAY_T && t == StackItemType::Any {
                Some(ScriptError::InvalidStackItemType(ip as usize, ins.operand[0]))
            } else {
                None
            },
        }
    } else {
        None
    }
}

/// The first instruction from `from` on, in the order of the walk, that a
/// strict script must not hold.
pub open spec fn check_error(script: Seq<u8>, from: int) -> Option<ScriptError>
    decreases script.len() - from,
{
    if from < 0 || from >= script.len() {
        None
    } else {
        match spec_decode(script, from) {
            Ok(ins) => match instruction_error(script, from, ins) {
                Some(e) => Some(e),
                None => check_error(script, from + ins.size()),
            },
            Err(_) => None,
        }
    }
}

/// The verdict on a script in strict mode: the first position that does not
/// decode, else the first instruction with an invalid target or type, else
/// success.
pub open spec fn spec_validate(script: Seq<u8>) -> Result<(), ScriptError> {
    match walk_error(script, 0) {
        Some(e) => Err(e),
        None => match check_error(script, 0) {
            Some(e) => Err(e),
            None => Ok(()),
        },
    }
}

/// What fetching the instruction at `ip` gives.
pub open spec fn spec_get_instruction(script: ScriptView, ip: int) -> Result<
    InstructionView,
    ScriptError,
> {
    if ip < 0 || ip >= script.value.len() {
        Err(ScriptError::InvalidInstructionPointer(ip as usize))
    } else if script.strict_mode && !is_boundary(script.value, ip) {
        Err(ScriptError::InstructionNotFound(ip as usize))
    } else {
        match spec_decode(script.value, ip) {
            Ok(ins) => Ok(ins),
            Err(_) => Err(ScriptError::InvalidInstructionPointer(ip as usize)),
        }
    }
}

/// Marks the start of every instruction on the walk from the first byte, or
/// reports the first position that does not decode.
fn mark_boundaries(value: &Vec<u8>) -> (r: Result<Vec<bool>, ScriptError>)
    ensures
        match r {
            Ok(b) => walk_error(value@, 0) is None && b@.len() == value@.len() && forall|j: int|
                0 <= j < value@.len() ==> b@[j] == walk_reaches(value@, 0, j),
            Err(e) => walk_error(value@, 0) == Some(e),
        },
{
    let len: usize = value.len();
    let mut marks: Vec<bool> = vec![false; len];
    let mut ip: usize = 0;
    while ip < len
        invariant
            len == value@.len(),
            marks@.len() == len,
            ip <= len,
            walk_error(value@, 0) == walk_error(value@, ip as int),
            forall|j: int|
                0 <= j < len ==> (walk_reaches(value@, 0, j) <==> if j < ip {
                    marks@[j]
                } else {
                    walk_reaches(value@, ip as int, j)
                }),
            forall|j: int| ip <= j < len ==> !marks@[j],
        decreases len - ip,
    {
        match Instruction::from_slice(value.as_slice(), ip) {
            Err(_) => {
                return Err(ScriptError::InvalidInstructionPointer(ip));
            },
            Ok(ins) => {
                proof {
                    lemma_decode_bounds(value@, ip as int);
                }
                let size: usize = ins.size();
                let ghost old_marks = marks@;
                marks.set(ip, true);
                let next: usize = ip + size;
                assert forall|j: int| 0 <= j < len implies (walk_reaches(value@, 0, j) <==> if j
                    < next {
                    marks@[j]
                } else {
                    walk_reaches(value@, next as int, j)
                }) by {
                    if j < ip {
                        assert(marks@[j] == old_marks[j]);
                    } else if j == ip {
                        assert(walk_reaches(value@, ip as int, j));
                        assert(marks@[j]);
                    } else {
                        assert(walk_reaches(value@, ip as int, j) == walk_reaches(
                            value@,
                            ip + ins@.size(),
                            j,
                        ));
                        if j < next {
                            assert(marks@[j] == old_marks[j]);
                            assert(!old_marks[j]);
                            assert(!walk_reaches(value@, next as int, j));
                        }
                    }
                }
                ip = next;
            },
        }
    }
    Ok(marks)
}

/// Checks the instruction at `ip` of a script whose instruction starts are
/// marked in `marks`.
fn check_instruction(value: &Vec<u8>, marks: &Vec<bool>, ip: usize, ins: &Instruction) -> (r:
    Option<ScriptError>)
    requires
        marks@.len() == value@.len(),
        forall|j: int| 0 <= j < value@.len() ==> marks@[j] == walk_reaches(value@, 0, j),
        ip < value@.len(),
        spec_decode(value@, ip as int) == Ok::<InstructionView, InstructionError>(ins@),
    ensures
        r == instruction_error(value@, ip as int, ins@),
{
    proof {
        lemma_decode_bounds(value@, ip as int);
    }
    match ins.opcode {
        OpCode::JMP
        | OpCode::JMPIF
        | OpCode::JMPIFNOT
        | OpCode::JMPEQ
        | OpCode::JMPNE
        | OpCode::JMPGT
        | OpCode::JMPGE
        | OpCode::JMPLT
        | OpCode::JMPLE
        | OpCode::CALL
        | OpCode::ENDTRY => {
            if marked(value, marks, ip, ins.token_i8() as i32) {
                None
            } else {
                Some(ScriptError::InvalidJumpTarget(ip, ins.opcode))
            }
        },
        OpCode::PUSHA
        | OpCode::JMP_L
        | OpCode::JMPIF_L
        | OpCode::JMPIFNOT_L
        | OpCode::JMPEQ_L
        | OpCode::JMPNE_L
        | OpCode::JMPGT_L
        | OpCode::JMPGE_L
        | OpCode::JMPLT_L
        | OpCode::JMPLE_L
        | OpCode::CALL_L
        | OpCode::ENDTRY_L => {
            if marked(value, marks, ip, ins.token_i32()) {
                None
            } else {
                Some(ScriptError::InvalidJumpTarget(ip, ins.opcode))
            }
        },
        OpCode::TRY => {
            if marked(value, marks, ip, ins.token_i8() as i32) && marked(
                value,
                marks,
                ip,
                ins.token_i8_1() as i32,
            ) {
                None
            } else {
                Some(ScriptError::InvalidTryTarget(ip))
            }
        },
        OpCode::TRY_L => {
            if marked(value, marks, ip, ins.token_i32()) && marked(
                value,
                marks,
                ip,
                ins.token_i32_1(),
            ) {
                None
            } else {
                Some(ScriptError::InvalidTryTarget(ip))
            }
        },
        OpCode::NEWARRAY_T | OpCode::ISTYPE | OpCode::CONVERT => {
            let code: u8 = ins.token_u8();
            match StackItemType::from_u8(code) {
                None => Some(ScriptError::InvalidStackItemType(ip, code)),
                Some(t) => {
                    let any: bool = matches!(t, StackItemType::Any);
                    let sized: bool = matches!(ins.opcode, OpCode::NEWARRAY_T);
                    if !sized && any {
                        Some(ScriptError::InvalidStackItemType(ip, code))
                    } else {
                        None
                    }
                },
            }
        },
        _ => None,
    }
}

/// Whether the position `ip + offset` is marked as the start of an
/// instruction.
fn marked(value: &Vec<u8>, marks: &Vec<bool>, ip: usize, offset: i32) -> (r: bool)
    requires
        marks@.len() == value@.len(),
        forall|j: int| 0 <= j < value@.len() ==> marks@[j] == walk_reaches(value@, 0, j),
    ensures
        r == is_boundary(value@, ip + offset),
{
    let target: i128 = ip as i128 + offset as i128;
    if target < 0 || target >= marks.len() as i128 {
        false
    } else {
        marks[target as usize]
    }
}

/// Checks every instruction on the walk from the first byte.
fn check_instructions(value: &Vec<u8>, marks: &Vec<bool>) -> (r: Option<ScriptError>)
    requires
        walk_error(value@, 0) is None,
        marks@.len() == value@.len(),
        forall|j: int| 0 <= j < value@.len() ==> marks@[j] == walk_reaches(value@, 0, j),
    ensures
        r == check_error(value@, 0),
{
    let len: usize = value.len();
    let mut ip: usize = 0;
    while ip < len
        invariant
            len == value@.len(),
            marks@.len() == len,
            forall|j: int| 0 <= j < len ==> marks@[j] == walk_reaches(value@, 0, j),
            ip <= len,
            walk_error(value@, ip as int) is None,
            check_error(value@, 0) == check_error(value@, ip as int),
        decreases len - ip,
    {
        match Instruction::from_slice(value.as_slice(), ip) {
            Err(_) => {
                return None;
            },
            Ok(ins) => {
                proof {
                    lemma_decode_bounds(value@, ip as int);
                }
                match check_instruction(value, marks, ip, &ins) {
                    Some(e) => {
                        return Some(e);
                    },
                    None => {
                        ip = ip + ins.size();
                    },
                }
            },
        }
    }
    None
}

impl View for Script {
    type V = ScriptView;

    closed spec fn view(&self) -> ScriptView {
        ScriptView { value: self.value@, strict_mode: self.strict_mode }
    }
}

impl Clone for Script {
    fn clone(&self) -> (r: Self)
        ensures
            r@ == self@,
    {
        proof {
            use_type_invariant(self);
        }
        let r = Script {
            value: self.value.clone(),
            strict_mode: self.strict_mode,
            boundaries: self.boundaries.clone(),
        };
        assert(r.value@ =~= self.value@);
        assert(r.boundaries@ =~= self.boundaries@);
        r
    }
}

impl Script {
    #[verifier::type_invariant]
    spec fn inv(self) -> bool {
        self.strict_mode ==> {
            &&& spec_validate(self.value@) is Ok
            &&& self.boundaries@.len() == self.value@.len()
            &&& forall|j: int|
                0 <= j < self.value@.len() ==> self.boundaries@[j] == walk_reaches(
                    self.value@,
                    0,
                    j,
                )
        }
    }

    /// A script in lazy mode: each instruction is validated when it is
    /// fetched.
    pub fn new(script: Vec<u8>) -> (r: Self)
        ensures
            r@.value == script@,
            !r@.strict_mode,
    {
        Script { value: script, strict_mode: false, boundaries: Vec::new() }
    }

    /// A script in the given mode. A strict script must be valid.
    pub fn new_with_mode(script: Vec<u8>, strict_mode: bool) -> (r: Self)
        requires
            strict_mode ==> spec_validate(script@) is Ok,
        ensures
            r@.value == script@,
            r@.strict_mode == strict_mode,
    {
        match Script::try_new_with_mode(script, strict_mode) {
            Ok(s) => s,
            Err(_) => Script { value: Vec::new(), strict_mode: false, boundaries: Vec::new() },
        }
    }

    /// A script in the given mode, or the reason why the bytes are no valid
    /// strict script.
    pub fn try_new_with_mode(script: Vec<u8>, strict_mode: bool) -> (r: Result<Self, ScriptError>)
        ensures
            match r {
                Ok(s) => s@.value == script@ && s@.strict_mode == strict_mode && (strict_mode
                    ==> spec_validate(script@) is Ok),
                Err(e) => strict_mode && spec_validate(script@) == Err::<(), ScriptError>(e),
            },
    {
        if !strict_mode {
            return Ok(Script::new(script));
        }
        let marks = match mark_boundaries(&script) {
            Ok(m) => m,
            Err(e) => {
                return Err(e);
            },
        };
        match check_instructions(&script, &marks) {
            Some(e) => Err(e),
            None => Ok(Script { value: script, strict_mode: true, boundaries: marks }),
        }
    }

    /// Walks the script as strict mode does and reports the first fault.
    pub fn validate_script(&self) -> (r: Result<(), ScriptError>)
        ensures
            r == spec_validate(self@.value),
    {
        let marks = match mark_boundaries(&self.value) {
            Ok(m) => m,
            Err(e) => {
                return Err(e);
            },
        };
        match check_instructions(&self.value, &marks) {
            Some(e) => Err(e),
            None => Ok(()),
        }
    }

    /// The number of bytes of the script.
    pub fn len(&self) -> (r: usize)
        ensures
            r == self@.value.len(),
    {
        self.value.len()
    }

    pub fn is_empty(&self) -> (r: bool)
        ensures
            r == (self@.value.len() == 0),
    {
        self.value.len() == 0
    }

    /// Whether the script is in strict mode.
    pub fn strict_mode(&self) -> (r: bool)
        ensures
            r == self@.strict_mode,
    {
        self.strict_mode
    }

    /// The bytes of the script.
    pub fn as_slice(&self) -> (r: &[u8])
        ensures
            r@ == self@.value,
    {
        self.value.as_slice()
    }

    /// The instruction code at `index`, if the byte there is one.
    pub fn get(&self, index: usize) -> (r: Option<OpCode>)
        ensures
            r == if index < self@.value.len() {
                OpCode::spec_from_u8(self@.value[index as int])
            } else {
                None
            },
    {
        if index < self.value.len() {
            OpCode::from_u8(self.value[index])
        } else {
            None
        }
    }

    /// The instruction at `ip`. It fails where `ip` lies outside the script,
    /// where a strict script has no instruction starting at `ip`, and where
    /// the bytes at `ip` do not decode.
    pub fn get_instruction(&self, ip: usize) -> (r: Result<Instruction, ScriptError>)
        ensures
            match r {
                Ok(ins) => spec_get_instruction(self@, ip as int) == Ok::<
                    InstructionView,
                    ScriptError,
                >(ins@),
                Err(e) => spec_get_instruction(self@, ip as int) == Err::<
                    InstructionView,
                    ScriptError,
                >(e),
            },
    {
        proof {
            use_type_invariant(self);
        }
        if ip >= self.value.len() {
            return Err(ScriptError::InvalidInstructionPointer(ip));
        }
        if self.strict_mode && !self.boundaries[ip] {
            return Err(ScriptError::InstructionNotFound(ip));
        }
        match Instruction::from_slice(self.value.as_slice(), ip) {
            Ok(ins) => Ok(ins),
            Err(_) => Err(ScriptError::InvalidInstructionPointer(ip)),
        }
    }
}

} // verus!
