use crate::utility::utf8_to_string;
use crate::vm::encoding::{
    le_i16, le_i32, le_i64, le_u16, le_u32, read_i16, read_i32, read_i64, read_i8, read_u16,
    read_u32, signed8,
};
use crate::vm::op_code::OpCode;
use vstd::prelude::*;
use vstd::utf8::{decode_utf8, valid_utf8};

verus! {

/// One decoded instruction: its code and the bytes of its operand, without
/// the length prefix.
#[derive(Debug, Clone)]
pub struct Instruction {
    pub opcode: OpCode,
    pub operand: Vec<u8>,
}

/// An instruction as a mathematical value.
pub struct InstructionView {
    pub opcode: OpCode,
    pub operand: Seq<u8>,
}

/// Why a position of a script holds no instruction.
#[derive(Debug, Clone, Copy, PartialEq, Eq, Structural)]
pub enum InstructionError {
    /// The byte at the position is no instruction code.
    InvalidOpcode,
    /// The position lies outside the script.
    InvalidOperandSize,
    /// The length prefix, of the given size, crosses the end of the script.
    InvalidPrefixSize(usize),
    /// The operand crosses the end of the script.
    OperandOutOfBounds { instruction_pointer: usize, operand_size: usize, script_length: usize },
}

impl View for Instruction {
    type V = InstructionView;

    open spec fn view(&self) -> InstructionView {
        InstructionView { opcode: self.opcode, operand: self.operand@ }
    }
}

impl InstructionView {
    /// The number of bytes that the instruction takes in a script: the code,
    /// the length prefix and the operand.
    pub open spec fn size(self) -> int {
        1 + self.opcode.spec_operand_prefix() + self.operand.len()
    }
}

/// The number of operand bytes that the length prefix at `ip + 1` declares.
pub open spec fn prefixed_operand_size(script: Seq<u8>, ip: int, prefix: int) -> int {
    if prefix == 1 {
        script[ip + 1] as int
    } else if prefix == 2 {
        le_u16(script.skip(ip + 1))
    } else {
        le_u32(script.skip(ip + 1))
    }
}

/// The instruction of `script` at position `ip`, or the reason why there is
/// none.
pub open spec fn spec_decode(script: Seq<u8>, ip: int) -> Result<InstructionView, InstructionError>
    recommends
        0 <= ip,
{
    if ip >= script.len() {
        Err(InstructionError::InvalidOperandSize)
    } else {
        match OpCode::spec_from_u8(script[ip]) {
            None => Err(InstructionError::InvalidOpcode),
            Some(opcode) => {
                let prefix = opcode.spec_operand_prefix() as int;
                if prefix > 0 {
                    if ip + 1 + prefix > script.len() {
                        Err(InstructionError::InvalidPrefixSize(prefix as usize))
                    } else {
                        let size = prefixed_operand_size(script, ip, prefix);
                        if ip + 1 + prefix + size > script.len() {
                            Err(
                                InstructionError::OperandOutOfBounds {
                                    instruction_pointer: ip as usize,
                                    operand_size: size as usize,
                                    script_length: script.len() as usize,
                                },
                            )
                        } else {
                            Ok(
                                InstructionView {
                                    opcode,
                                    operand: script.subrange(
                                        ip + 1 + prefix,
                                        ip + 1 + prefix + size,
                                    ),
                                },
                            )
                        }
                    }
                } else {
                    let size = opcode.spec_operand_size() as int;
                    if ip + 1 + size > script.len() {
                        Err(
                            InstructionError::OperandOutOfBounds {
                                instruction_pointer: ip as usize,
                                operand_size: size as usize,
                                script_length: script.len() as usize,
                            },
                        )
                    } else {
                        Ok(
                            InstructionView {
                                opcode,
                                operand: script.subrange(ip + 1, ip + 1 + size),
                            },
                        )
                    }
                }
            },
        }
    }
}

/// A decoded instruction lies inside the script, and an instruction without
/// a length prefix has the operand size of its code.
pub proof fn lemma_decode_bounds(script: Seq<u8>, ip: int)
    requires
        0 <= ip,
        spec_decode(script, ip) is Ok,
    ensures
        ip + spec_decode(script, ip)->Ok_0.size() <= script.len(),
        spec_decode(script, ip)->Ok_0.size() >= 1,
        spec_decode(script, ip)->Ok_0.opcode.spec_operand_prefix() == 0 ==> spec_decode(
            script,
            ip,
        )->Ok_0.operand.len() == spec_decode(script, ip)->Ok_0.opcode.spec_operand_size(),
        OpCode::spec_from_u8(script[ip]) == Some(spec_decode(script, ip)->Ok_0.opcode),
{
}

/// Copies `len` bytes of `bytes` from position `start`.
pub fn copy_range(bytes: &[u8], start: usize, len: usize) -> (r: Vec<u8>)
    requires
        start + len <= bytes@.len(),
    ensures
        r@ == bytes@.subrange(start as int, start + len),
{
    let total: usize = bytes.len();
    let mut out: Vec<u8> = Vec::new();
    let mut i: usize = 0;
    while i < len
        invariant
            i <= len,
            start + len <= bytes@.len() == total,
            out@ == bytes@.subrange(start as int, start + i),
        decreases len - i,
    {
        out.push(bytes[start + i]);
        i += 1;
        assert(out@ =~= bytes@.subrange(start as int, start + i));
    }
    out
}

/// Decodes the instruction of `script` at `ip`.
fn decode(script: &[u8], ip: usize) -> (r: Result<Instruction, InstructionError>)
    ensures
        match r {
            Ok(ins) => spec_decode(script@, ip as int) == Ok::<
                InstructionView,
                InstructionError,
            >(ins@),
            Err(e) => spec_decode(script@, ip as int) == Err::<InstructionView, InstructionError>(e),
        },
{
    let len: usize = script.len();
    if ip >= len {
        return Err(InstructionError::InvalidOperandSize);
    }
    let opcode = match OpCode::from_u8(script[ip]) {
        Some(op) => op,
        None => {
            return Err(InstructionError::InvalidOpcode);
        },
    };
    let rest: usize = len - ip - 1;
    let prefix: usize = opcode.operand_prefix() as usize;
    if prefix > 0 {
        if prefix > rest {
            return Err(InstructionError::InvalidPrefixSize(prefix));
        }
        let size: usize = if prefix == 1 {
            script[ip + 1] as usize
        } else if prefix == 2 {
            read_u16(script, ip + 1) as usize
        } else {
            read_u32(script, ip + 1) as usize
        };
        if size > rest - prefix {
            return Err(
                InstructionError::OperandOutOfBounds {
                    instruction_pointer: ip,
                    operand_size: size,
                    script_length: len,
                },
            );
        }
        let operand = copy_range(script, ip + 1 + prefix, size);
        Ok(Instruction { opcode, operand })
    } else {
        let size: usize = opcode.operand_size() as usize;
        if size > rest {
            return Err(
                InstructionError::OperandOutOfBounds {
                    instruction_pointer: ip,
                    operand_size: size,
                    script_length: len,
                },
            );
        }
        let operand = copy_range(script, ip + 1, size);
        Ok(Instruction { opcode, operand })
    }
}

impl Instruction {
    /// The instruction `RET` without operand.
    pub fn ret() -> (r: Self)
        ensures
            r@ == (InstructionView { opcode: OpCode::RET, operand: Seq::<u8>::empty() }),
    {
        Instruction { opcode: OpCode::RET, operand: Vec::new() }
    }

    /// The instruction of `script` at position `ip`. It fails where `ip` lies
    /// outside the script, where the byte there is no instruction code, and
    /// where the length prefix or the operand crosses the end of the script.
    pub fn new(script: Vec<u8>, ip: usize) -> (r: Result<Self, InstructionError>)
        ensures
            match r {
                Ok(ins) => spec_decode(script@, ip as int) == Ok::<
                    InstructionView,
                    InstructionError,
                >(ins@),
                Err(e) => spec_decode(script@, ip as int) == Err::<
                    InstructionView,
                    InstructionError,
                >(e),
            },
    {
        decode(script.as_slice(), ip)
    }

    /// The instruction of the bytes `script` at position `ip`, or the reason
    /// why there is none.
    pub fn from_slice(script: &[u8], ip: usize) -> (r: Result<Self, InstructionError>)
        ensures
            match r {
                Ok(ins) => spec_decode(script@, ip as int) == Ok::<
                    InstructionView,
                    InstructionError,
                >(ins@),
                Err(e) => spec_decode(script@, ip as int) == Err::<
                    InstructionView,
                    InstructionError,
                >(e),
            },
    {
        decode(script, ip)
    }

    /// The instruction of `script` at position `ip`, for a position that is
    /// known to hold one.
    pub fn from_script(script: &[u8], ip: usize) -> (r: Result<Self, InstructionError>)
        requires
            spec_decode(script@, ip as int) is Ok,
        ensures
            r is Ok,
            r->Ok_0@ == spec_decode(script@, ip as int)->Ok_0,
    {
        decode(script, ip)
    }

    /// The number of bytes that the instruction takes in a script.
    pub fn size(&self) -> (r: usize)
        requires
            self@.size() <= usize::MAX,
        ensures
            r == self@.size(),
    {
        1 + self.opcode.operand_prefix() as usize + self.operand.len()
    }

    /// The first operand byte as a signed number.
    pub fn token_i8(&self) -> (r: i8)
        requires
            self.operand@.len() >= 1,
        ensures
            r == signed8(self.operand@[0]),
    {
        read_i8(self.operand.as_slice(), 0)
    }

    /// The second operand byte as a signed number.
    pub fn token_i8_1(&self) -> (r: i8)
        requires
            self.operand@.len() >= 2,
        ensures
            r == signed8(self.operand@[1]),
    {
        read_i8(self.operand.as_slice(), 1)
    }

    /// The first two operand bytes as a signed number.
    pub fn token_i16(&self) -> (r: i16)
        requires
            self.operand@.len() >= 2,
        ensures
            r == le_i16(self.operand@),
    {
        assert(self.operand@.skip(0) =~= self.operand@);
        read_i16(self.operand.as_slice(), 0)
    }

    /// The first four operand bytes as a signed number.
    pub fn token_i32(&self) -> (r: i32)
        requires
            self.operand@.len() >= 4,
        ensures
            r == le_i32(self.operand@),
    {
        assert(self.operand@.skip(0) =~= self.operand@);
        read_i32(self.operand.as_slice(), 0)
    }

    /// The operand bytes 4 to 7 as a signed number.
    pub fn token_i32_1(&self) -> (r: i32)
        requires
            self.operand@.len() >= 8,
        ensures
            r == le_i32(self.operand@.skip(4)),
    {
        read_i32(self.operand.as_slice(), 4)
    }

    /// The first eight operand bytes as a signed number.
    pub fn token_i64(&self) -> (r: i64)
        requires
            self.operand@.len() >= 8,
        ensures
            r == le_i64(self.operand@),
    {
        assert(self.operand@.skip(0) =~= self.operand@);
        read_i64(self.operand.as_slice(), 0)
    }

    /// The first operand byte.
    pub fn token_u8(&self) -> (r: u8)
        requires
            self.operand@.len() >= 1,
        ensures
            r == self.operand@[0],
    {
        self.operand[0]
    }

    /// The second operand byte.
    pub fn token_u8_1(&self) -> (r: u8)
        requires
            self.operand@.len() >= 2,
        ensures
            r == self.operand@[1],
    {
        self.operand[1]
    }

    /// The first two operand bytes as an unsigned number.
    pub fn token_u16(&self) -> (r: u16)
        requires
            self.operand@.len() >= 2,
        ensures
            r == le_u16(self.operand@),
    {
        assert(self.operand@.skip(0) =~= self.operand@);
        read_u16(self.operand.as_slice(), 0)
    }

    /// The first four operand bytes as an unsigned number.
    pub fn token_u32(&self) -> (r: u32)
        requires
            self.operand@.len() >= 4,
        ensures
            r == le_u32(self.operand@),
    {
        assert(self.operand@.skip(0) =~= self.operand@);
        read_u32(self.operand.as_slice(), 0)
    }

    /// The first 32 operand bytes.
    pub fn token_i256(&self) -> (r: [u8; 32])
        requires
            self.operand@.len() >= 32,
        ensures
            r@ == self.operand@.subrange(0, 32),
    {
        let o = &self.operand;
        let r: [u8; 32] = [
            o[0], o[1], o[2], o[3], o[4], o[5], o[6], o[7],
            o[8], o[9], o[10], o[11], o[12], o[13], o[14], o[15],
            o[16], o[17], o[18], o[19], o[20], o[21], o[22], o[23],
            o[24], o[25], o[26], o[27], o[28], o[29], o[30], o[31],
        ];
        assert(r@ =~= self.operand@.subrange(0, 32));
        r
    }

    /// The operand as text, for an operand that is well-formed UTF-8.
    pub fn token_string(&self) -> (r: String)
        requires
            valid_utf8(self.operand@),
        ensures
            r@ == decode_utf8(self.operand@),
    {
        match utf8_to_string(self.operand.as_slice()) {
            Some(s) => s,
            None => String::new(),
        }
    }

    /// The operand as text, or `None` where it is no well-formed UTF-8.
    pub fn try_token_string(&self) -> (r: Option<String>)
        ensures
            r is Some <==> valid_utf8(self.operand@),
            r is Some ==> r->Some_0@ == decode_utf8(self.operand@),
    {
        utf8_to_string(self.operand.as_slice())
    }
}

} // verus!
