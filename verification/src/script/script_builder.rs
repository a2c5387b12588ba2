use crate::big_integer::{
    lemma_sign_extend, lemma_signed_round_trip, sign_extend, signed_le, signed_len, to_signed_le,
    BigInteger,
};
use crate::vm::encoding::{i32_le_bytes, push_i32_le, push_u16_le, push_u32_le, u16_le_bytes,
    u32_le_bytes};
use crate::vm::op_code::OpCode;
use crate::jump_table::operands::single;
use crate::jump_table::push::push_compute;
use crate::types::primitive_types::vm_integer::fits_integer;
use crate::types::stack_item::ItemView;
use crate::vm::execution_engine_limits::ExecutionEngineLimits;
use crate::vm::instruction::{spec_decode, InstructionError, InstructionView};
use crate::vm::reference_counter::CounterView;
use vstd::prelude::*;
use vstd::string::StringSliceAdditionalSpecFns;

verus! {

/// Writes instructions, one after the other, into a script.
#[derive(Debug, PartialEq, Eq, Hash)]
pub struct ScriptBuilder {
    output: Vec<u8>,
}

impl View for ScriptBuilder {
    type V = Seq<u8>;

    closed spec fn view(&self) -> Seq<u8> {
        self.output@
    }
}

/// The byte that encodes the offset `v` of a short jump in two's complement.
pub open spec fn i8_byte(v: int) -> u8
    recommends
        -128 <= v < 128,
{
    (if v < 0 {
        v + 256
    } else {
        v
    }) as u8
}

/// Whether `v` fits the one signed byte of a short jump.
pub open spec fn fits_i8(v: int) -> bool {
    -128 <= v <= 127
}

/// The bytes of a call to the instruction `offset` bytes away: the short
/// form where the offset fits one signed byte, else the long form.
pub open spec fn call_bytes(offset: i32) -> Seq<u8> {
    if fits_i8(offset as int) {
        seq![OpCode::CALL.code(), i8_byte(offset as int)]
    } else {
        seq![OpCode::CALL_L.code()] + i32_le_bytes(offset)
    }
}

/// Whether the code is one of the jumps, short or long.
pub open spec fn is_jump(opcode: OpCode) -> bool {
    OpCode::JMP.code() <= opcode.code() <= OpCode::JMPLE_L.code()
}

/// The bytes of a jump with the given code and offset. The short codes are
/// even and each long code is the short one plus 1; a short code with an
/// offset that does not fit one signed byte becomes its long code.
pub open spec fn jump_bytes(opcode: OpCode, offset: i32) -> Seq<u8>
    recommends
        is_jump(opcode),
{
    let code = opcode.code();
    if code % 2 == 0 && fits_i8(offset as int) {
        seq![code, i8_byte(offset as int)]
    } else if code % 2 == 0 {
        seq![(code + 1) as u8] + i32_le_bytes(offset)
    } else {
        seq![code] + i32_le_bytes(offset)
    }
}

/// The width of the `PUSHINT` operand that holds an encoding of `len` bytes:
/// the smallest of 1, 2, 4, 8, 16 and 32 that is at least `len`.
pub open spec fn push_int_width(len: nat) -> nat
    recommends
        1 <= len <= 32,
{
    if len <= 1 {
        1
    } else if len <= 2 {
        2
    } else if len <= 4 {
        4
    } else if len <= 8 {
        8
    } else if len <= 16 {
        16
    } else {
        32
    }
}

/// The `PUSHINT` code for an operand of the given width.
pub open spec fn push_int_opcode(width: nat) -> OpCode {
    if width == 1 {
        OpCode::PUSHINT8
    } else if width == 2 {
        OpCode::PUSHINT16
    } else if width == 4 {
        OpCode::PUSHINT32
    } else if width == 8 {
        OpCode::PUSHINT64
    } else if width == 16 {
        OpCode::PUSHINT128
    } else {
        OpCode::PUSHINT256
    }
}

/// The bytes that push the number `v`: a single code for -1 to 16, else the
/// `PUSHINT` code of the smallest width that holds `v`, followed by `v` in
/// two's complement, sign-extended to that width. There are none for a
/// number that does not fit 32 bytes.
pub open spec fn int_bytes(v: int) -> Option<Seq<u8>> {
    if v == -1 {
        Some(seq![OpCode::PUSHM1.code()])
    } else if 0 <= v <= 16 {
        Some(seq![(OpCode::PUSH0.code() + v) as u8])
    } else if signed_len(v) > 32 {
        None
    } else {
        let width = push_int_width(signed_len(v));
        Some(seq![push_int_opcode(width).code()] + sign_extend(to_signed_le(v), width))
    }
}

/// The bytes that push the data: the `PUSHDATA` code of the smallest length
/// prefix that holds the length, the length, and the data.
pub open spec fn data_bytes(data: Seq<u8>) -> Seq<u8>
    recommends
        data.len() <= u32::MAX,
{
    if data.len() < 0x100 {
        seq![OpCode::PUSHDATA1.code(), data.len() as u8] + data
    } else if data.len() < 0x10000 {
        seq![OpCode::PUSHDATA2.code()] + u16_le_bytes(data.len() as u16) + data
    } else {
        seq![OpCode::PUSHDATA4.code()] + u32_le_bytes(data.len() as u32) + data
    }
}

/// Appends all of `data` to `out`.
fn append_bytes(out: &mut Vec<u8>, data: &[u8])
    ensures
        final(out)@ == old(out)@ + data@,
{
    let n: usize = data.len();
    let mut i: usize = 0;
    while i < n
        invariant
            i <= n,
            n == data@.len(),
            out@ == old(out)@ + data@.subrange(0, i as int),
        decreases n - i,
    {
        out.push(data[i]);
        i += 1;
        assert(out@ =~= old(out)@ + data@.subrange(0, i as int));
    }
    assert(data@.subrange(0, n as int) =~= data@);
}

impl Clone for ScriptBuilder {
    fn clone(&self) -> (r: Self)
        ensures
            r@ == self@,
    {
        let output = self.output.clone();
        assert(output@ =~= self.output@);
        ScriptBuilder { output }
    }
}

impl ScriptBuilder {
    /// A builder with an empty script.
    pub fn new() -> (r: Self)
        ensures
            r@ == Seq::<u8>::empty(),
    {
        Self { output: Vec::new() }
    }

    /// The number of bytes written so far.
    pub fn len(&self) -> (r: usize)
        ensures
            r == self@.len(),
    {
        self.output.len()
    }

    /// Writes the code and then the operand as it is.
    pub fn emit(&mut self, opcode: OpCode, operand: Vec<u8>) -> (r: &ScriptBuilder)
        ensures
            final(self)@ == old(self)@ + seq![opcode.code()] + operand@,
            r@ == final(self)@,
    {
        self.output.push(opcode.to_u8());
        append_bytes(&mut self.output, operand.as_slice());
        assert(self.output@ =~= old(self)@ + seq![opcode.code()] + operand@);
        self
    }

    /// Writes a call to the instruction `offset` bytes away.
    pub fn emit_call(&mut self, offset: i32) -> (r: &ScriptBuilder)
        ensures
            final(self)@ == old(self)@ + call_bytes(offset),
            r@ == final(self)@,
    {
        if offset < -128 || offset > 127 {
            self.output.push(OpCode::CALL_L.to_u8());
            push_i32_le(&mut self.output, offset);
        } else {
            self.output.push(OpCode::CALL.to_u8());
            self.output.push(offset_byte(offset));
        }
        assert(self.output@ =~= old(self)@ + call_bytes(offset));
        self
    }

    /// Writes a jump with the given code to the instruction `offset` bytes
    /// away. It fails, and writes nothing, where the code is no jump.
    pub fn emit_jump(&mut self, opcode: OpCode, offset: i32) -> (r: Result<&ScriptBuilder, String>)
        ensures
            r is Ok <==> is_jump(opcode),
            match r {
                Ok(b) => final(self)@ == old(self)@ + jump_bytes(opcode, offset) && b@ == final(self)@,
                Err(e) => final(self)@ == old(self)@ && e@ == invalid_opcode_text(opcode.code()),
            },
    {
        let code: u8 = opcode.to_u8();
        if code < OpCode::JMP.to_u8() || code > OpCode::JMPLE_L.to_u8() {
            return Err(invalid_opcode_message(code));
        }
        if code % 2 == 0 && offset >= -128 && offset <= 127 {
            self.output.push(code);
            self.output.push(offset_byte(offset));
        } else if code % 2 == 0 {
            self.output.push(code + 1);
            push_i32_le(&mut self.output, offset);
        } else {
            self.output.push(code);
            push_i32_le(&mut self.output, offset);
        }
        assert(self.output@ =~= old(self)@ + jump_bytes(opcode, offset));
        Ok(self)
    }

    /// Writes the instruction that pushes the number. It fails, and writes
    /// nothing, where the number does not fit 32 bytes.
    pub fn emit_int(&mut self, value: BigInteger) -> (r: Result<&ScriptBuilder, String>)
        ensures
            r is Ok <==> int_bytes(value@) is Some,
            match r {
                Ok(b) => final(self)@ == old(self)@ + int_bytes(value@)->Some_0 && b@ == final(self)@,
                Err(e) => final(self)@ == old(self)@ && e@ == "Only 32 bytes of BigInt allowed"@,
            },
    {
        let small = value.to_i128();
        match small {
            Some(v) => {
                if v == -1 {
                    self.output.push(OpCode::PUSHM1.to_u8());
                    assert(self.output@ =~= old(self)@ + int_bytes(value@)->Some_0);
                    return Ok(self);
                }
                if v >= 0 && v <= 16 {
                    self.output.push(OpCode::PUSH0.to_u8() + v as u8);
                    assert(self.output@ =~= old(self)@ + int_bytes(value@)->Some_0);
                    return Ok(self);
                }
            },
            None => {},
        }
        let bytes = value.as_signed_bytes_le();
        let n: usize = bytes.len();
        proof {
            lemma_signed_round_trip(value@);
        }
        if n > 32 {
            return Err("Only 32 bytes of BigInt allowed".to_owned());
        }
        let (opcode, width): (OpCode, usize) = if n <= 1 {
            (OpCode::PUSHINT8, 1)
        } else if n <= 2 {
            (OpCode::PUSHINT16, 2)
        } else if n <= 4 {
            (OpCode::PUSHINT32, 4)
        } else if n <= 8 {
            (OpCode::PUSHINT64, 8)
        } else if n <= 16 {
            (OpCode::PUSHINT128, 16)
        } else {
            (OpCode::PUSHINT256, 32)
        };
        let sign_byte: u8 = if bytes[n - 1] >= 128 {
            255
        } else {
            0
        };
        self.output.push(opcode.to_u8());
        append_bytes(&mut self.output, bytes);
        let mut k: usize = n;
        while k < width
            invariant
                n <= k <= width,
                n == bytes@.len(),
                n >= 1,
                sign_byte == (if bytes@.last() >= 128 {
                    255u8
                } else {
                    0u8
                }),
                self.output@ == old(self)@ + seq![opcode.code()] + bytes@ + Seq::new(
                    (k - n) as nat,
                    |i: int| sign_byte,
                ),
            decreases width - k,
        {
            self.output.push(sign_byte);
            k += 1;
            assert(self.output@ =~= old(self)@ + seq![opcode.code()] + bytes@ + Seq::new(
                (k - n) as nat,
                |i: int| sign_byte,
            ));
        }
        assert(self.output@ =~= old(self)@ + int_bytes(value@)->Some_0);
        Ok(self)
    }

    /// Writes the instruction that pushes the truth value.
    pub fn emit_bool(&mut self, value: bool) -> (r: &ScriptBuilder)
        ensures
            final(self)@ == old(self)@.push(
                if value {
                    OpCode::PUSHT.code()
                } else {
                    OpCode::PUSHF.code()
                },
            ),
            r@ == final(self)@,
    {
        if value {
            self.output.push(OpCode::PUSHT.to_u8());
        } else {
            self.output.push(OpCode::PUSHF.to_u8());
        }
        self
    }

    /// Writes the instruction that pushes the data.
    pub fn emit_bytes(&mut self, data: Vec<u8>) -> (r: &ScriptBuilder)
        requires
            data@.len() <= u32::MAX,
        ensures
            final(self)@ == old(self)@ + data_bytes(data@),
            r@ == final(self)@,
    {
        self.push_data(data.as_slice());
        self
    }

    fn push_data(&mut self, data: &[u8])
        requires
            data@.len() <= u32::MAX,
        ensures
            final(self)@ == old(self)@ + data_bytes(data@),
    {
        let len: usize = data.len();
        if len < 0x100 {
            self.output.push(OpCode::PUSHDATA1.to_u8());
            self.output.push(len as u8);
        } else if len < 0x10000 {
            self.output.push(OpCode::PUSHDATA2.to_u8());
            push_u16_le(&mut self.output, len as u16);
        } else {
            self.output.push(OpCode::PUSHDATA4.to_u8());
            push_u32_le(&mut self.output, len as u32);
        }
        append_bytes(&mut self.output, data);
        assert(self.output@ =~= old(self)@ + data_bytes(data@));
    }

    /// Writes the instruction that pushes the bytes of the text.
    pub fn emit_string(&mut self, data: &str) -> (r: &ScriptBuilder)
        requires
            data.spec_bytes().len() <= u32::MAX,
        ensures
            final(self)@ == old(self)@ + data_bytes(data.spec_bytes()),
            r@ == final(self)@,
    {
        self.push_data(data.as_bytes());
        self
    }

    /// Writes the bytes as they are.
    pub fn emit_raw(&mut self, script: Vec<u8>) -> (r: &ScriptBuilder)
        ensures
            final(self)@ == old(self)@ + script@,
            r@ == final(self)@,
    {
        append_bytes(&mut self.output, script.as_slice());
        self
    }

    /// Writes a call of the host service with the given number.
    pub fn emit_syscall(&mut self, api: u32)
        ensures
            final(self)@ == old(self)@ + seq![OpCode::SYSCALL.code()] + u32_le_bytes(api),
    {
        self.output.push(OpCode::SYSCALL.to_u8());
        push_u32_le(&mut self.output, api);
        assert(self.output@ =~= old(self)@ + seq![OpCode::SYSCALL.code()] + u32_le_bytes(api));
    }

    /// The script that was written.
    pub fn to_bytes(self) -> (r: Vec<u8>)
        ensures
            r@ == self@,
    {
        self.output
    }
}

/// The byte of an offset that fits one signed byte.
fn offset_byte(offset: i32) -> (r: u8)
    requires
        fits_i8(offset as int),
    ensures
        r == i8_byte(offset as int),
{
    if offset < 0 {
        (offset + 256) as u8
    } else {
        offset as u8
    }
}

/// The text of one decimal digit.
pub open spec fn digit_text(d: int) -> Seq<char> {
    if d == 0 {
        "0"@
    } else if d == 1 {
        "1"@
    } else if d == 2 {
        "2"@
    } else if d == 3 {
        "3"@
    } else if d == 4 {
        "4"@
    } else if d == 5 {
        "5"@
    } else if d == 6 {
        "6"@
    } else if d == 7 {
        "7"@
    } else if d == 8 {
        "8"@
    } else {
        "9"@
    }
}

/// The decimal text of a number below 1000, without leading zeros.
pub open spec fn decimal_text(n: int) -> Seq<char>
    recommends
        0 <= n < 1000,
{
    if n < 10 {
        digit_text(n)
    } else if n < 100 {
        digit_text(n / 10) + digit_text(n % 10)
    } else {
        digit_text(n / 100) + digit_text(n / 10 % 10) + digit_text(n % 10)
    }
}

/// The text of the error for the code with the byte `code`, which is no
/// jump.
pub open spec fn invalid_opcode_text(code: u8) -> Seq<char> {
    "Invalid OpCode "@ + decimal_text(code as int)
}

/// The text of one decimal digit.
fn digit_str(d: u8) -> (r: &'static str)
    requires
        d < 10,
    ensures
        r@ == digit_text(d as int),
{
    match d {
        0 => "0",
        1 => "1",
        2 => "2",
        3 => "3",
        4 => "4",
        5 => "5",
        6 => "6",
        7 => "7",
        8 => "8",
        _ => "9",
    }
}

/// The text of the error for a code that is no jump.
fn invalid_opcode_message(code: u8) -> (r: String)
    ensures
        r@ == invalid_opcode_text(code),
{
    let mut text: String = "Invalid OpCode ".to_owned();
    if code >= 100 {
        text.append(digit_str(code / 100));
    }
    if code >= 10 {
        text.append(digit_str(code / 10 % 10));
    }
    text.append(digit_str(code % 10));
    assert(text@ =~= invalid_opcode_text(code));
    text
}

/// The operand that [`int_bytes`] gives a number decodes to that number, and
/// has the width that its code announces.
pub proof fn lemma_int_operand_decodes(v: int)
    requires
        signed_len(v) <= 32,
    ensures
        signed_le(sign_extend(to_signed_le(v), push_int_width(signed_len(v)))) == v,
        sign_extend(to_signed_le(v), push_int_width(signed_len(v))).len() == push_int_opcode(
            push_int_width(signed_len(v)),
        ).spec_operand_size(),
{
    lemma_signed_round_trip(v);
    lemma_sign_extend(to_signed_le(v), push_int_width(signed_len(v)));
}

/// What was written for data is read back as one instruction that holds
/// the data as its operand.
pub proof fn lemma_emitted_data_decodes(before: Seq<u8>, data: Seq<u8>)
    requires
        data.len() <= u32::MAX,
    ensures
        spec_decode(before + data_bytes(data), before.len() as int) == Ok::<
            InstructionView,
            InstructionError,
        >(
            InstructionView {
                opcode: if data.len() < 0x100 {
                    OpCode::PUSHDATA1
                } else if data.len() < 0x10000 {
                    OpCode::PUSHDATA2
                } else {
                    OpCode::PUSHDATA4
                },
                operand: data,
            },
        ),
{
    let script = before + data_bytes(data);
    let ip = before.len() as int;
    let n = data.len() as int;
    if n < 0x100 {
        assert(script[ip] == OpCode::PUSHDATA1.code());
        assert(script[ip + 1] == n as u8);
        assert(script.subrange(ip + 2, ip + 2 + n) =~= data);
    } else if n < 0x10000 {
        assert(script[ip] == OpCode::PUSHDATA2.code());
        let tail = script.skip(ip + 1);
        assert(tail[0] == (n as u16 % 256) as u8);
        assert(tail[1] == (n as u16 / 256) as u8);
        assert(script.subrange(ip + 3, ip + 3 + n) =~= data);
    } else {
        assert(script[ip] == OpCode::PUSHDATA4.code());
        let tail = script.skip(ip + 1);
        let v = n as u32;
        assert(tail[0] == (v % 256) as u8);
        assert(tail[1] == (v / 256 % 256) as u8);
        assert(tail[2] == (v / 65536 % 256) as u8);
        assert(tail[3] == (v / 16777216) as u8);
        assert(script.subrange(ip + 5, ip + 5 + n) =~= data);
    }
}

/// What was written for a number is read back as one instruction, and that
/// instruction pushes the number.
pub proof fn lemma_emitted_int_pushes(
    before: Seq<u8>,
    v: int,
    heap: CounterView,
    limits: ExecutionEngineLimits,
)
    requires
        int_bytes(v) is Some,
    ensures
        spec_decode(before + int_bytes(v)->Some_0, before.len() as int) is Ok,
        ({
            let ins = spec_decode(before + int_bytes(v)->Some_0, before.len() as int)->Ok_0;
            ins.size() == int_bytes(v)->Some_0.len() && push_compute(
                ins.opcode,
                ins.operand,
                heap,
                limits,
            ) == Some((heap, single(ItemView::Integer(v))))
        }),
{
    let bytes = int_bytes(v)->Some_0;
    let script = before + bytes;
    let ip = before.len() as int;
    assert(script[ip] == bytes[0]);
    if v == -1 {
        assert(script.subrange(ip + 1, ip + 1) =~= Seq::<u8>::empty());
    } else if 0 <= v <= 16 {
        assert(script.subrange(ip + 1, ip + 1) =~= Seq::<u8>::empty());
    } else {
        let width = push_int_width(signed_len(v));
        let operand = sign_extend(to_signed_le(v), width);
        lemma_int_operand_decodes(v);
        assert(script.subrange(ip + 1, ip + 1 + width) =~= operand);
        assert(fits_integer(v));
    }
}

} // verus!
