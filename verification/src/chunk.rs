//! Bytecode chunks: the opcode tag set and the append-only instruction
//! stream with its parallel line map and constant pool.

use vstd::prelude::*;

use crate::value::Value;
use crate::value::ValueArray;
use crate::value::value_at;

verus! {

/// The closed set of bytecode operations. Each variant has one reserved
/// byte value (`opcode_byte`), never reassigned once chosen, so that
/// persisted chunks stay decodable.
#[derive(Clone, Copy, Debug, PartialEq, Eq, Structural)]
pub enum OpCode {
    OpRETURN,
    OpCONSTANT,
}

/// The wire byte reserved for each operation.
pub open spec fn opcode_byte(op: OpCode) -> u8 {
    match op {
        OpCode::OpRETURN => 0,
        OpCode::OpCONSTANT => 1,
    }
}

/// The operation a byte stands for, or nothing for a byte outside the
/// defined set. Total over the whole byte domain.
pub open spec fn opcode_from_byte(byte: u8) -> Option<OpCode> {
    if byte == 0 {
        Some(OpCode::OpRETURN)
    } else if byte == 1 {
        Some(OpCode::OpCONSTANT)
    } else {
        None
    }
}

impl OpCode {
    /// Converts a byte value into an `OpCode` variant, or `None` when the
    /// byte does not correspond to any known operation.
    pub fn from_u8(byte: u8) -> (r: Option<OpCode>)
        ensures
            r == opcode_from_byte(byte),
    {
        match byte {
            0 => Some(OpCode::OpRETURN),
            1 => Some(OpCode::OpCONSTANT),
            _ => None,
        }
    }

    /// Encodes this operation as its reserved wire byte.
    pub fn to_u8(&self) -> (byte: u8)
        ensures
            byte == opcode_byte(*self),
    {
        match self {
            OpCode::OpRETURN => 0,
            OpCode::OpCONSTANT => 1,
        }
    }
}

/// Law: encoding is lossless. Decoding the byte reserved for a variant
/// yields that variant back, and any byte reserved for no variant decodes
/// to nothing.
pub proof fn lemma_opcode_round_trip()
    ensures
        forall|op: OpCode| #[trigger] opcode_from_byte(opcode_byte(op)) == Some(op),
        forall|byte: u8|
            byte != opcode_byte(OpCode::OpRETURN) && byte != opcode_byte(OpCode::OpCONSTANT)
                ==> #[trigger] opcode_from_byte(byte) == None::<OpCode>,
{
}

/// The mathematical content of a chunk: its byte stream, the source line
/// of each byte, and its constant pool.
pub struct ChunkView {
    pub code: Seq<u8>,
    pub lines: Seq<usize>,
    pub constants: Seq<Value>,
}

impl ChunkView {
    /// The length invariant every chunk keeps: one line entry per code
    /// byte, so debug output can cite a source line for any offset.
    pub open spec fn wf(self) -> bool {
        self.lines.len() == self.code.len()
    }
}

/// What a bounds-checked read of the byte stream returns.
pub open spec fn byte_at(code: Seq<u8>, offset: int) -> Option<u8> {
    if 0 <= offset < code.len() {
        Some(code[offset])
    } else {
        None
    }
}

/// What a bounds-checked read of the line map returns.
pub open spec fn line_at(lines: Seq<usize>, offset: int) -> Option<usize> {
    if 0 <= offset < lines.len() {
        Some(lines[offset])
    } else {
        None
    }
}

/// A unit of compiled bytecode: an append-only byte stream (`code`), one
/// source line per byte (`lines`), and the constant pool the stream's
/// operand bytes index into.
pub struct Chunk {
    code: Vec<u8>,
    lines: Vec<usize>,
    constants: ValueArray,
}

impl View for Chunk {
    type V = ChunkView;

    closed spec fn view(&self) -> ChunkView {
        ChunkView { code: self.code@, lines: self.lines@, constants: self.constants@ }
    }
}

impl Chunk {
    /// Creates a new, empty chunk.
    pub fn new() -> (c: Chunk)
        ensures
            c@.code == Seq::<u8>::empty(),
            c@.lines == Seq::<usize>::empty(),
            c@.constants == Seq::<Value>::empty(),
            c@.wf(),
    {
        Chunk { code: Vec::new(), lines: Vec::new(), constants: ValueArray::new() }
    }

    /// Appends one raw byte to the stream together with its originating
    /// source line; both side tables grow by exactly one entry, so the
    /// length invariant is preserved.
    pub fn write_chunk(&mut self, byte: u8, line: usize)
        ensures
            final(self)@.code == old(self)@.code.push(byte),
            final(self)@.lines == old(self)@.lines.push(line),
            final(self)@.constants == old(self)@.constants,
            old(self)@.wf() ==> final(self)@.wf(),
    {
        self.code.push(byte);
        self.lines.push(line);
    }

    /// Appends a value to the constant pool and returns its newly assigned
    /// index: the pool's length before the append, so successive calls
    /// hand out 0, 1, 2, ... and never reuse an index.
    pub fn add_constant(&mut self, value: Value) -> (index: usize)
        ensures
            final(self)@.constants == old(self)@.constants.push(value),
            index == old(self)@.constants.len(),
            value_at(final(self)@.constants, index as int) == Some(value),
            final(self)@.code == old(self)@.code,
            final(self)@.lines == old(self)@.lines,
            old(self)@.wf() ==> final(self)@.wf(),
    {
        self.constants.write_value_array(value);
        self.constants.len() - 1
    }

    /// The byte length of the code stream: the valid domain of offsets.
    pub fn len(&self) -> (n: usize)
        ensures
            n == self@.code.len(),
    {
        self.code.len()
    }

    /// Whether no byte has been written yet.
    pub fn is_empty(&self) -> (e: bool)
        ensures
            e == (self@.code.len() == 0),
    {
        self.code.len() == 0
    }

    /// Bounds-checked read of the line map.
    pub fn get_line(&self, offset: usize) -> (r: Option<usize>)
        ensures
            r == line_at(self@.lines, offset as int),
    {
        if offset < self.lines.len() {
            Some(self.lines[offset])
        } else {
            None
        }
    }

    /// Bounds-checked read of the byte stream.
    pub fn get_code(&self, offset: usize) -> (r: Option<u8>)
        ensures
            r == byte_at(self@.code, offset as int),
    {
        if offset < self.code.len() {
            Some(self.code[offset])
        } else {
            None
        }
    }

    /// Bounds-checked read of the constant pool.
    pub fn get_constant(&self, index: usize) -> (r: Option<Value>)
        ensures
            r == value_at(self@.constants, index as int),
    {
        self.constants.get(index)
    }
}

/// Law: a chunk whose stream holds exactly the bytes of `b` — as one built
/// by appending them in order does — reads each byte back at its offset,
/// and reads nothing at the offset one past the end.
pub proof fn lemma_builder_reads(c: Chunk, b: Seq<u8>)
    requires
        c@.code == b,
    ensures
        forall|i: int| 0 <= i < b.len() ==> #[trigger] byte_at(c@.code, i) == Some(b[i]),
        byte_at(c@.code, b.len() as int) == None::<u8>,
{
}

/// Law: the constant pool is append-only and index-stable. Appending `v`
/// to a pool holding `cs` assigns it index `cs.len()` — one more than the
/// previous append, so indices grow strictly from 0 — and any pool that
/// extends the result still reads `v` at that index, forever.
pub proof fn lemma_constant_pool_stable(cs: Seq<Value>, v: Value, later: Seq<Value>)
    requires
        cs.push(v).is_prefix_of(later),
    ensures
        value_at(cs.push(v), cs.len() as int) == Some(v),
        value_at(later, cs.len() as int) == Some(v),
{
    assert(cs.push(v)[cs.len() as int] == v);
    assert(later[cs.len() as int] == cs.push(v)[cs.len() as int]);
}

} // verus!
