//! The instruction catalog and the byte-level encoding of programs.
//!
//! One instruction is stored as a *record*: a single opcode byte followed by
//! exactly `arity` machine words, each laid out as eight little-endian bytes,
//! with no padding. The opcode byte packs the arity in its high four bits and
//! a disambiguating suffix in its low four bits.

use vstd::prelude::*;

verus! {

/// Number of bytes one machine word occupies inside a bytecode image.
pub const WORD_SIZE: usize = 8;

/// The packed form of an opcode byte: the operand count in the high four
/// bits, a suffix telling opcodes of equal arity apart in the low four bits.
pub struct OpInfo {
    pub args: u8,
    pub suffix: u8,
}

/// The closed catalog of instructions.
#[derive(Debug, Clone, Copy, PartialEq, Eq, Structural)]
pub enum OpCode {
    /// Pop the top of the stack and discard it.
    TosDown,
    /// Pop two words and push their sum modulo the word width.
    WrapAddStack,
    /// Decrement the top of the stack in place, wrapping at zero.
    DecStack,
    /// Pop the top of the stack and emit its low byte as output.
    SysOut,
    /// Push the immediate operand word.
    PushConst,
    /// Push a copy of the stack slot named by the operand word.
    Load,
    /// Pop the top of the stack into the slot named by the operand word.
    Store,
    /// Set the program counter to the operand word.
    JmpTo,
    /// Pop the top of the stack; if it is nonzero, set the program counter
    /// to the operand word, otherwise fall through.
    IfNzJmp,
}

/// How many operand words an opcode carries in its record.
pub open spec fn arity(op: OpCode) -> nat {
    match op {
        OpCode::TosDown => 0,
        OpCode::WrapAddStack => 0,
        OpCode::DecStack => 0,
        OpCode::SysOut => 0,
        OpCode::PushConst => 1,
        OpCode::Load => 1,
        OpCode::Store => 1,
        OpCode::JmpTo => 1,
        OpCode::IfNzJmp => 1,
    }
}

/// The encoded byte of an opcode: `(arity << 4) | suffix`.
pub open spec fn op_byte(op: OpCode) -> u8 {
    match op {
        OpCode::TosDown => 0x00,
        OpCode::WrapAddStack => 0x01,
        OpCode::DecStack => 0x02,
        OpCode::SysOut => 0x03,
        OpCode::PushConst => 0x10,
        OpCode::Load => 0x11,
        OpCode::Store => 0x12,
        OpCode::JmpTo => 0x13,
        OpCode::IfNzJmp => 0x14,
    }
}

/// The validating decoder from a byte to an opcode: `None` on any byte
/// outside the catalog.
pub open spec fn decode_op(b: u8) -> Option<OpCode> {
    if b == 0x00 {
        Some(OpCode::TosDown)
    } else if b == 0x01 {
        Some(OpCode::WrapAddStack)
    } else if b == 0x02 {
        Some(OpCode::DecStack)
    } else if b == 0x03 {
        Some(OpCode::SysOut)
    } else if b == 0x10 {
        Some(OpCode::PushConst)
    } else if b == 0x11 {
        Some(OpCode::Load)
    } else if b == 0x12 {
        Some(OpCode::Store)
    } else if b == 0x13 {
        Some(OpCode::JmpTo)
    } else if b == 0x14 {
        Some(OpCode::IfNzJmp)
    } else {
        None
    }
}

/// The opcode byte mapping is collision-free within the catalog: decoding
/// an encoded opcode always gives that opcode back, so no two opcodes share
/// a byte.
pub proof fn lemma_decode_encode(op: OpCode)
    ensures
        decode_op(op_byte(op)) == Some(op),
{
}

/// Every decodable byte re-encodes to itself: the decoder accepts exactly
/// the catalog's bytes.
pub proof fn lemma_encode_decode(b: u8)
    ensures
        decode_op(b) matches Some(op) ==> op_byte(op) == b,
{
}

/// The eight little-endian bytes of one machine word.
pub open spec fn word_le_bytes(w: u64) -> Seq<u8> {
    Seq::new(8, |i: int| ((w >> ((8 * i) as u64)) & 0xff) as u8)
}

/// The machine word stored in eight little-endian bytes.
pub open spec fn word_of_le(b: Seq<u8>) -> u64
    recommends
        b.len() == 8,
{
    ((b[0] as u64) | ((b[1] as u64) << 8) | ((b[2] as u64) << 16) | ((b[3] as u64) << 24) | ((b[4]
        as u64) << 32) | ((b[5] as u64) << 40) | ((b[6] as u64) << 48) | ((b[7] as u64) << 56)) as u64
}

/// Serializing a word to little-endian bytes and reading them back yields
/// the same word.
pub proof fn lemma_word_round_trip(w: u64)
    ensures
        word_of_le(word_le_bytes(w)) == w,
{
    let b = word_le_bytes(w);
    assert(((((w >> 0) & 0xff) as u8 as u64) | ((((w >> 8) & 0xff) as u8 as u64) << 8) | ((((w
        >> 16) & 0xff) as u8 as u64) << 16) | ((((w >> 24) & 0xff) as u8 as u64) << 24) | ((((w
        >> 32) & 0xff) as u8 as u64) << 32) | ((((w >> 40) & 0xff) as u8 as u64) << 40) | ((((w
        >> 48) & 0xff) as u8 as u64) << 48) | ((((w >> 56) & 0xff) as u8 as u64) << 56)) == w)
        by (bit_vector);
    assert(b[0] == ((w >> 0) & 0xff) as u8);
    assert(b[1] == ((w >> 8) & 0xff) as u8);
    assert(b[2] == ((w >> 16) & 0xff) as u8);
    assert(b[3] == ((w >> 24) & 0xff) as u8);
    assert(b[4] == ((w >> 32) & 0xff) as u8);
    assert(b[5] == ((w >> 40) & 0xff) as u8);
    assert(b[6] == ((w >> 48) & 0xff) as u8);
    assert(b[7] == ((w >> 56) & 0xff) as u8);
}

/// The number of bytes one record of the given opcode occupies.
pub open spec fn record_len(op: OpCode) -> int {
    1 + arity(op) * (WORD_SIZE as int)
}

/// The full byte encoding of one instruction record.
pub open spec fn record_bytes(op: OpCode, arg: u64) -> Seq<u8> {
    if arity(op) == 1 {
        seq![op_byte(op)] + word_le_bytes(arg)
    } else {
        seq![op_byte(op)]
    }
}

impl OpInfo {
    /// Combine an arity and a suffix into one opcode byte.
    pub fn pack(self) -> (r: u8)
        requires
            self.args < 16,
            self.suffix < 16,
        ensures
            r == self.args * 16 + self.suffix,
    {
        proof {
            let a = self.args;
            let s = self.suffix;
            assert(a < 16 && s < 16 ==> ((a << 4) | s) == a * 16 + s) by (bit_vector);
        }
        (self.args << 4) | self.suffix
    }

    /// Split an opcode byte back into its arity and suffix fields.
    pub fn unpack(data: u8) -> (r: Self)
        ensures
            r.args == data / 16,
            r.suffix == data % 16,
    {
        proof {
            assert((data >> 4) == data / 16 && (data & 0b1111) == data % 16) by (bit_vector);
        }
        OpInfo { args: data >> 4, suffix: data & 0b1111 }
    }
}

impl OpCode {
    /// The byte this opcode is stored as.
    pub fn encode(self) -> (r: u8)
        ensures
            r == op_byte(self),
    {
        match self {
            OpCode::TosDown => 0x00,
            OpCode::WrapAddStack => 0x01,
            OpCode::DecStack => 0x02,
            OpCode::SysOut => 0x03,
            OpCode::PushConst => 0x10,
            OpCode::Load => 0x11,
            OpCode::Store => 0x12,
            OpCode::JmpTo => 0x13,
            OpCode::IfNzJmp => 0x14,
        }
    }

    /// The validating decoder: `None` on any byte outside the catalog.
    pub fn decode(b: u8) -> (r: Option<OpCode>)
        ensures
            r == decode_op(b),
    {
        if b == 0x00 {
            Some(OpCode::TosDown)
        } else if b == 0x01 {
            Some(OpCode::WrapAddStack)
        } else if b == 0x02 {
            Some(OpCode::DecStack)
        } else if b == 0x03 {
            Some(OpCode::SysOut)
        } else if b == 0x10 {
            Some(OpCode::PushConst)
        } else if b == 0x11 {
            Some(OpCode::Load)
        } else if b == 0x12 {
            Some(OpCode::Store)
        } else if b == 0x13 {
            Some(OpCode::JmpTo)
        } else if b == 0x14 {
            Some(OpCode::IfNzJmp)
        } else {
            None
        }
    }

    /// How many operand words this opcode's record carries, read out of the
    /// arity field of its encoded byte.
    pub fn word_args(self) -> (r: usize)
        ensures
            r == arity(self),
    {
        let info = OpInfo::unpack(self.encode());
        info.args as usize
    }
}

/// An append-only assembler for bytecode images. The caller fills `args`
/// with the operand words of the next instruction, then appends it; the
/// buffer grows by exactly one record per append.
#[derive(Debug)]
pub struct ByteCodeBufBuilder {
    /// The operand buffer the caller fills before each append: one slot per
    /// word of the largest currently supported arity.
    pub args: [u64; 1],
    /// The image being assembled.
    pub bcb: ByteCodeBuf,
}

/// A sealed, immutable bytecode image: a flat concatenation of instruction
/// records. Sealing performs no validation; a malformed buffer is detected
/// lazily, record by record, when the image is decoded.
#[derive(Debug)]
pub struct ByteCodeBuf {
    bytes: Vec<u8>,
}

/// A read-only, bounds-checked view over a sealed bytecode image.
#[derive(Debug)]
pub struct ByteCode<'a> {
    bytes: &'a Vec<u8>,
}

impl View for ByteCodeBuf {
    type V = Seq<u8>;

    closed spec fn view(&self) -> Seq<u8> {
        self.bytes@
    }
}

impl<'a> View for ByteCode<'a> {
    type V = Seq<u8>;

    closed spec fn view(&self) -> Seq<u8> {
        self.bytes@
    }
}

impl ByteCodeBuf {
    /// Seal an arbitrary byte buffer as an image. No validation happens
    /// here: decoding reports a malformed buffer when it reaches the flaw.
    pub fn from_bytes(bytes: Vec<u8>) -> (r: Self)
        ensures
            r@ == bytes@,
    {
        ByteCodeBuf { bytes }
    }

    /// Borrow the image as a read-only decoding view.
    pub fn as_bytecode(&self) -> (r: ByteCode<'_>)
        ensures
            r@ == self@,
    {
        ByteCode { bytes: &self.bytes }
    }
}

impl Default for ByteCodeBufBuilder {
    /// An empty builder: no records yet, operand buffer zeroed.
    fn default() -> (r: Self)
        ensures
            r.buffered() == Seq::<u8>::empty(),
            r.args[0] == 0,
    {
        ByteCodeBufBuilder { args: [0], bcb: ByteCodeBuf { bytes: Vec::new() } }
    }
}

impl ByteCodeBufBuilder {
    /// The bytes assembled so far.
    pub open spec fn buffered(self) -> Seq<u8> {
        self.bcb@
    }

    /// Append one word as eight little-endian bytes.
    fn push_word_bytes(bytes: &mut Vec<u8>, word: u64)
        ensures
            final(bytes)@ == old(bytes)@ + word_le_bytes(word),
    {
        bytes.push((word & 0xff) as u8);
        bytes.push(((word >> 8) & 0xff) as u8);
        bytes.push(((word >> 16) & 0xff) as u8);
        bytes.push(((word >> 24) & 0xff) as u8);
        bytes.push(((word >> 32) & 0xff) as u8);
        bytes.push(((word >> 40) & 0xff) as u8);
        bytes.push(((word >> 48) & 0xff) as u8);
        bytes.push(((word >> 56) & 0xff) as u8);
        proof {
            assert(word >> 0 == word) by (bit_vector);
            let w = word_le_bytes(word);
            assert(w[0] == ((word >> 0) & 0xff) as u8);
            assert(w[1] == ((word >> 8) & 0xff) as u8);
            assert(w[2] == ((word >> 16) & 0xff) as u8);
            assert(w[3] == ((word >> 24) & 0xff) as u8);
            assert(w[4] == ((word >> 32) & 0xff) as u8);
            assert(w[5] == ((word >> 40) & 0xff) as u8);
            assert(w[6] == ((word >> 48) & 0xff) as u8);
            assert(w[7] == ((word >> 56) & 0xff) as u8);
            assert(bytes@ =~= old(bytes)@ + w);
        }
    }

    /// Append one instruction record: the opcode's byte, then `arity`
    /// operand words taken from the front of `args`, in order.
    pub fn push_with_args(&mut self, op_code: OpCode)
        ensures
            final(self).buffered() == old(self).buffered() + record_bytes(
                op_code,
                old(self).args[0],
            ),
            final(self).args == old(self).args,
    {
        self.bcb.bytes.push(op_code.encode());
        if op_code.word_args() == 1 {
            Self::push_word_bytes(&mut self.bcb.bytes, self.args[0]);
        }
        proof {
            assert(self.bcb@ =~= old(self).bcb@ + record_bytes(op_code, old(self).args[0]));
        }
    }

    /// Consume the builder and seal its buffer as an immutable image.
    pub fn finish(self) -> (r: ByteCodeBuf)
        ensures
            r@ == self.buffered(),
    {
        self.bcb
    }
}

impl<'a> ByteCode<'a> {
    /// The image length in bytes.
    pub fn bytes_len(&self) -> (r: usize)
        ensures
            r == self@.len(),
    {
        self.bytes.len()
    }

    /// Decode the opcode byte at `offset`: `None` when the offset lies
    /// outside the image or the byte is not in the catalog.
    pub fn read_op_code_at(&self, offset: u64) -> (r: Option<OpCode>)
        ensures
            r == (if 0 <= offset < self@.len() {
                decode_op(self@[offset as int])
            } else {
                None
            }),
    {
        if offset < self.bytes.len() as u64 {
            OpCode::decode(self.bytes[offset as usize])
        } else {
            None
        }
    }

    /// Read the word stored as eight little-endian bytes starting at
    /// `offset`: `None` when fewer than eight bytes remain, so the read
    /// never reaches past the buffer.
    pub fn read_word_at(&self, offset: u64) -> (r: Option<u64>)
        ensures
            r == (if offset + WORD_SIZE <= self@.len() {
                Some(word_of_le(self@.subrange(offset as int, offset as int + WORD_SIZE)))
            } else {
                None
            }),
    {
        let n = self.bytes.len();
        if n >= WORD_SIZE && offset <= (n - WORD_SIZE) as u64 {
            let i = offset as usize;
            let w = (self.bytes[i] as u64) | ((self.bytes[i + 1] as u64) << 8) | ((self.bytes[i
                + 2] as u64) << 16) | ((self.bytes[i + 3] as u64) << 24) | ((self.bytes[i + 4]
                as u64) << 32) | ((self.bytes[i + 5] as u64) << 40) | ((self.bytes[i + 6] as u64)
                << 48) | ((self.bytes[i + 7] as u64) << 56);
            proof {
                let sub = self@.subrange(offset as int, offset as int + WORD_SIZE);
                assert(sub[0] == self@[offset as int]);
                assert(sub[1] == self@[offset as int + 1]);
                assert(sub[2] == self@[offset as int + 2]);
                assert(sub[3] == self@[offset as int + 3]);
                assert(sub[4] == self@[offset as int + 4]);
                assert(sub[5] == self@[offset as int + 5]);
                assert(sub[6] == self@[offset as int + 6]);
                assert(sub[7] == self@[offset as int + 7]);
            }
            Some(w)
        } else {
            None
        }
    }
}

} // verus!
