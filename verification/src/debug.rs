//! The disassembler: the reference decoder for a chunk's instruction
//! stream. It walks the stream with a single cursor, decodes one
//! instruction per step, always advances by at least one byte, and reports
//! every anomaly (unknown opcode, truncated operand, out-of-range constant
//! index) inline instead of aborting the walk.

use vstd::prelude::*;
use vstd::string::StringExecFns;

use crate::chunk::Chunk;
use crate::chunk::ChunkView;
use crate::chunk::OpCode;
use crate::chunk::byte_at;
use crate::chunk::opcode_from_byte;
use crate::text::append_dec;
use crate::text::append_dec_spaces;
use crate::text::append_dec_zeros;
use crate::text::append_str_padded;
use crate::text::dec_spec;
use crate::text::pad_left;
use crate::text::pad_right;
use crate::value::Value;

verus! {

/// The line annotation printed in front of an instruction: the source line
/// when it differs from the previous byte's line (or at the start of the
/// stream), a placeholder when it repeats it, nothing when the line map
/// has no entry for the offset.
#[derive(Clone, Copy, Debug, PartialEq, Eq, Structural)]
pub enum LineMark {
    Shown(usize),
    Elided,
    Missing,
}

/// The decoded content of one disassembly step.
#[derive(Clone, Copy, Debug, PartialEq, Eq, Structural)]
pub enum InstrKind {
    /// A well-formed instruction with no operand bytes.
    Simple(OpCode),
    /// A well-formed constant instruction: the operand byte and the pool
    /// value it indexes.
    Constant { index: u8, value: Value },
    /// A constant instruction whose operand indexes outside the pool.
    UnknownConstant { index: u8 },
    /// A constant instruction whose operand byte lies past the end of the
    /// stream.
    TruncatedConstant,
    /// A byte at an instruction-start position that is no defined opcode
    /// (or a read past the end of the stream).
    Invalid,
}

/// One disassembly step: where it started, its line annotation, and what
/// was decoded there.
#[derive(Clone, Copy, Debug, PartialEq, Eq, Structural)]
pub struct InstrEvent {
    pub offset: usize,
    pub line: LineMark,
    pub kind: InstrKind,
}

/// The line annotation for the instruction at `offset`: shown
/// unconditionally at the start of the stream, elided when it repeats the
/// previous byte's line, missing when the line map has no entry.
pub open spec fn spec_line_mark(cv: ChunkView, offset: int) -> LineMark {
    if offset == 0 {
        if cv.lines.len() > 0 {
            LineMark::Shown(cv.lines[0])
        } else {
            LineMark::Missing
        }
    } else if 0 < offset < cv.lines.len() {
        if cv.lines[offset] == cv.lines[offset - 1] {
            LineMark::Elided
        } else {
            LineMark::Shown(cv.lines[offset])
        }
    } else {
        LineMark::Missing
    }
}

/// What decoding at `offset` yields, over the whole offset domain.
pub open spec fn spec_instr_kind(cv: ChunkView, offset: int) -> InstrKind {
    match byte_at(cv.code, offset) {
        Some(byte) => match opcode_from_byte(byte) {
            Some(OpCode::OpCONSTANT) => match byte_at(cv.code, offset + 1) {
                Some(index) => if (index as int) < cv.constants.len() {
                    InstrKind::Constant { index, value: cv.constants[index as int] }
                } else {
                    InstrKind::UnknownConstant { index }
                },
                None => InstrKind::TruncatedConstant,
            },
            Some(OpCode::OpRETURN) => InstrKind::Simple(OpCode::OpRETURN),
            None => InstrKind::Invalid,
        },
        None => InstrKind::Invalid,
    }
}

/// Where the cursor stands after the step at `offset`: two bytes further
/// when an operand byte was consumed, one byte further otherwise.
pub open spec fn spec_next_offset(cv: ChunkView, offset: int) -> int {
    match spec_instr_kind(cv, offset) {
        InstrKind::Constant { .. } => offset + 2,
        InstrKind::UnknownConstant { .. } => offset + 2,
        _ => offset + 1,
    }
}

/// The full event for the step at `offset`.
pub open spec fn spec_instr_event(cv: ChunkView, offset: usize) -> InstrEvent {
    InstrEvent {
        offset,
        line: spec_line_mark(cv, offset as int),
        kind: spec_instr_kind(cv, offset as int),
    }
}

/// Law: the walk always makes progress. Every step advances the cursor by
/// at least one byte, and never past the end of the stream when it starts
/// inside it — so a whole-chunk walk terminates on any input, well-formed
/// or corrupt.
pub proof fn lemma_walk_progress(cv: ChunkView, offset: int)
    requires
        0 <= offset < cv.code.len(),
    ensures
        offset < spec_next_offset(cv, offset) <= cv.code.len(),
{
}

/// Decodes the single-operand constant instruction whose opcode byte sits
/// at `offset`: reads the operand byte at `offset + 1` and resolves it in
/// the constant pool, reporting an out-of-range index or a truncated
/// stream instead of failing. Returns the decoded kind and the next
/// cursor position.
pub fn constant_instruction(chunk: &Chunk, offset: usize) -> (r: (InstrKind, usize))
    requires
        offset < usize::MAX,
        byte_at(chunk@.code, offset as int) matches Some(byte)
            && opcode_from_byte(byte) == Some(OpCode::OpCONSTANT),
    ensures
        r.0 == spec_instr_kind(chunk@, offset as int),
        r.1 as int == spec_next_offset(chunk@, offset as int),
{
    let n: usize = chunk.len();
    if let Some(index) = chunk.get_code(offset + 1) {
        let kind = if let Some(value) = chunk.get_constant(index as usize) {
            InstrKind::Constant { index, value }
        } else {
            InstrKind::UnknownConstant { index }
        };
        assert(offset + 2 <= n);
        (kind, offset + 2)
    } else {
        (InstrKind::TruncatedConstant, offset + 1)
    }
}

/// Handles an instruction with no operand bytes: the cursor moves exactly
/// one byte.
pub fn simple_instructon(op: OpCode, offset: usize) -> (r: (InstrKind, usize))
    requires
        offset < usize::MAX,
    ensures
        r.0 == InstrKind::Simple(op),
        r.1 == offset + 1,
{
    (InstrKind::Simple(op), offset + 1)
}

/// Decodes the single instruction at `offset` and computes its line
/// annotation. Total over the whole offset domain: a read past the end of
/// the stream, like an undefined opcode byte, yields an invalid-instruction
/// event and advances the cursor by one byte.
pub fn disassemble_instruction(chunk: &Chunk, offset: usize) -> (r: (InstrEvent, usize))
    requires
        offset < usize::MAX,
    ensures
        r.0 == spec_instr_event(chunk@, offset),
        r.1 as int == spec_next_offset(chunk@, offset as int),
{
    let line = if offset > 0 {
        match (chunk.get_line(offset), chunk.get_line(offset - 1)) {
            (Some(current_line), Some(prev_line)) => if current_line == prev_line {
                LineMark::Elided
            } else {
                LineMark::Shown(current_line)
            },
            _ => LineMark::Missing,
        }
    } else {
        match chunk.get_line(offset) {
            Some(l) => LineMark::Shown(l),
            None => LineMark::Missing,
        }
    };

    let byte = chunk.get_code(offset);
    let op = match byte {
        Some(b) => OpCode::from_u8(b),
        None => None,
    };
    let (kind, next) = match op {
        Some(OpCode::OpCONSTANT) => constant_instruction(chunk, offset),
        Some(OpCode::OpRETURN) => simple_instructon(OpCode::OpRETURN, offset),
        None => (InstrKind::Invalid, offset + 1),
    };
    (InstrEvent { offset, line, kind }, next)
}

/// The sequence of events a whole-chunk walk starting at `offset`
/// produces: one event per step until the cursor reaches the end of the
/// stream.
pub open spec fn spec_disassemble_from(cv: ChunkView, offset: int) -> Seq<InstrEvent>
    decreases cv.code.len() - offset,
{
    if 0 <= offset < cv.code.len() {
        seq![spec_instr_event(cv, offset as usize)] + spec_disassemble_from(
            cv,
            spec_next_offset(cv, offset),
        )
    } else {
        Seq::empty()
    }
}

/// Walks the whole chunk from offset 0 and returns one event per decoded
/// instruction (or per anomaly), in stream order. Terminates on any
/// input: every step consumes at least one byte.
pub fn disassemble_events(chunk: &Chunk) -> (events: Vec<InstrEvent>)
    ensures
        events@ == spec_disassemble_from(chunk@, 0),
{
    let mut events: Vec<InstrEvent> = Vec::new();
    let mut offset: usize = 0;
    let n: usize = chunk.len();
    while offset < n
        invariant
            n == chunk@.code.len(),
            0 <= offset,
            events@ + spec_disassemble_from(chunk@, offset as int) == spec_disassemble_from(
                chunk@,
                0,
            ),
        decreases chunk@.code.len() - offset,
    {
        let (event, next) = disassemble_instruction(chunk, offset);
        proof {
            lemma_walk_progress(chunk@, offset as int);
            assert(events@.push(event) + spec_disassemble_from(chunk@, spec_next_offset(chunk@, offset as int))
                =~= events@ + spec_disassemble_from(chunk@, offset as int));
        }
        events.push(event);
        offset = next;
    }
    events
}

/// The printed name of an operation.
pub open spec fn opcode_name(op: OpCode) -> Seq<char> {
    match op {
        OpCode::OpRETURN => "OpRETURN"@,
        OpCode::OpCONSTANT => "OpCONSTANT"@,
    }
}

/// The text of a line annotation: the line number right-aligned in four
/// characters, a pipe placeholder for a repeated line, nothing for a
/// missing line entry.
pub open spec fn spec_line_mark_text(mark: LineMark) -> Seq<char> {
    match mark {
        LineMark::Shown(l) => pad_left(' ', 4, dec_spec(l as int)) + " "@,
        LineMark::Elided => "   | "@,
        LineMark::Missing => Seq::<char>::empty(),
    }
}

/// The text of the decoded part of a step: the instruction name (padded
/// to sixteen characters when an operand follows), the operand index, the
/// rendered constant between quotes, or the inline diagnostic for an
/// anomaly.
pub open spec fn spec_kind_text(offset: usize, kind: InstrKind, value_text: Seq<char>) -> Seq<
    char,
> {
    match kind {
        InstrKind::Simple(op) => opcode_name(op) + "\n"@,
        InstrKind::Constant { index, value } => pad_right(' ', 16, opcode_name(OpCode::OpCONSTANT))
            + " "@ + pad_left(' ', 4, dec_spec(index as int)) + " '"@ + value_text + "'\n"@,
        InstrKind::UnknownConstant { index } => pad_right(' ', 16, opcode_name(OpCode::OpCONSTANT))
            + " "@ + pad_left(' ', 4, dec_spec(index as int)) + " '"@
            + "Unknown constant index "@ + dec_spec(index as int) + "\n"@,
        InstrKind::TruncatedConstant => "Truncated constant instruction at offset "@ + dec_spec(
            offset as int,
        ) + "\n"@,
        InstrKind::Invalid => "Invalid instruction offset\n"@,
    }
}

/// The full output line for one step: the offset zero-padded to four
/// characters, the line annotation, then the decoded part. `value_text`
/// is the rendered form of the step's constant, used only by an in-range
/// constant instruction.
pub open spec fn spec_render_instruction(e: InstrEvent, value_text: Seq<char>) -> Seq<char> {
    pad_left('0', 4, dec_spec(e.offset as int)) + " "@ + spec_line_mark_text(e.line)
        + spec_kind_text(e.offset, e.kind, value_text)
}

/// Renders one disassembly step as its output line. `value_text` is the
/// rendered form of the constant the step resolved; it is ignored unless
/// the step decoded an in-range constant instruction.
pub fn render_instruction(e: &InstrEvent, value_text: &str) -> (r: String)
    ensures
        r@ == spec_render_instruction(*e, value_text@),
{
    let ghost prefix: Seq<char> = pad_left('0', 4, dec_spec(e.offset as int)) + " "@
        + spec_line_mark_text(e.line);
    let mut out = String::new();
    append_dec_zeros(&mut out, e.offset as u64, 4);
    out.append(" ");
    match e.line {
        LineMark::Shown(l) => {
            append_dec_spaces(&mut out, l as u64, 4);
            out.append(" ");
            proof {
                assert(out@ =~= prefix);
            }
        },
        LineMark::Elided => {
            out.append("   | ");
            proof {
                assert(out@ =~= prefix);
            }
        },
        LineMark::Missing => {
            proof {
                assert(out@ =~= prefix);
            }
        },
    }
    match e.kind {
        InstrKind::Simple(op) => {
            match op {
                OpCode::OpRETURN => out.append("OpRETURN"),
                OpCode::OpCONSTANT => out.append("OpCONSTANT"),
            }
            out.append("\n");
            proof {
                assert(out@ =~= prefix + spec_kind_text(e.offset, e.kind, value_text@));
            }
        },
        InstrKind::Constant { index, value: _ } => {
            append_str_padded(&mut out, "OpCONSTANT", 16);
            out.append(" ");
            append_dec_spaces(&mut out, index as u64, 4);
            out.append(" '");
            out.append(value_text);
            out.append("'\n");
            proof {
                assert(out@ =~= prefix + spec_kind_text(e.offset, e.kind, value_text@));
            }
        },
        InstrKind::UnknownConstant { index } => {
            append_str_padded(&mut out, "OpCONSTANT", 16);
            out.append(" ");
            append_dec_spaces(&mut out, index as u64, 4);
            out.append(" '");
            out.append("Unknown constant index ");
            append_dec(&mut out, index as u64);
            out.append("\n");
            proof {
                assert(out@ =~= prefix + spec_kind_text(e.offset, e.kind, value_text@));
            }
        },
        InstrKind::TruncatedConstant => {
            out.append("Truncated constant instruction at offset ");
            append_dec(&mut out, e.offset as u64);
            out.append("\n");
            proof {
                assert(out@ =~= prefix + spec_kind_text(e.offset, e.kind, value_text@));
            }
        },
        InstrKind::Invalid => {
            out.append("Invalid instruction offset\n");
            proof {
                assert(out@ =~= prefix + spec_kind_text(e.offset, e.kind, value_text@));
            }
        },
    }
    proof {
        assert(out@ =~= spec_render_instruction(*e, value_text@));
    }
    out
}

/// The header line a whole-chunk disassembly starts with.
pub fn chunk_header(name: &str) -> (r: String)
    ensures
        r@ == "== "@ + name@ + " ==\n"@,
{
    let mut out = String::new();
    out.append("== ");
    out.append(name);
    out.append(" ==\n");
    proof {
        assert(out@ =~= "== "@ + name@ + " ==\n"@);
    }
    out
}

/// The rendered constant a step uses: the text at the operand's index for
/// an in-range constant instruction, nothing for every other step.
pub open spec fn spec_value_text(texts: Seq<Seq<char>>, kind: InstrKind) -> Seq<char> {
    match kind {
        InstrKind::Constant { index, value: _ } => if 0 <= index < texts.len() {
            texts[index as int]
        } else {
            Seq::<char>::empty()
        },
        _ => Seq::<char>::empty(),
    }
}

/// The text a whole-chunk walk starting at `offset` prints: one output
/// line per step, in stream order.
pub open spec fn spec_render_walk(cv: ChunkView, offset: int, texts: Seq<Seq<char>>) -> Seq<char>
    decreases cv.code.len() - offset,
{
    if 0 <= offset < cv.code.len() {
        spec_render_instruction(
            spec_instr_event(cv, offset as usize),
            spec_value_text(texts, spec_instr_kind(cv, offset)),
        ) + spec_render_walk(cv, spec_next_offset(cv, offset), texts)
    } else {
        Seq::<char>::empty()
    }
}

/// Disassembles a whole chunk into its textual trace: a header line
/// bearing `name`, then one output line per instruction (or per anomaly).
/// `value_texts` holds the rendered form of each pool constant, one entry
/// per constant in pool order; only this library's caller interprets a
/// value's payload, so the rendering is handed in rather than computed
/// here. The walk terminates on any input, well-formed or corrupt.
pub fn disassemble_chunk(chunk: &Chunk, name: &str, value_texts: &Vec<String>) -> (r: String)
    requires
        value_texts@.len() == chunk@.constants.len(),
    ensures
        r@ == "== "@ + name@ + " ==\n"@ + spec_render_walk(chunk@, 0, value_texts.deep_view()),
{
    let ghost texts: Seq<Seq<char>> = value_texts.deep_view();
    let mut out = chunk_header(name);
    let ghost header: Seq<char> = out@;
    let mut offset: usize = 0;
    let n: usize = chunk.len();
    while offset < n
        invariant
            n == chunk@.code.len(),
            value_texts@.len() == chunk@.constants.len(),
            texts == value_texts.deep_view(),
            out@ + spec_render_walk(chunk@, offset as int, texts) == header + spec_render_walk(
                chunk@,
                0,
                texts,
            ),
        decreases chunk@.code.len() - offset,
    {
        let (event, next) = disassemble_instruction(chunk, offset);
        let value_text: &str = match event.kind {
            InstrKind::Constant { index, value: _ } => value_texts[index as usize].as_str(),
            _ => "",
        };
        proof {
            reveal_strlit("");
            assert(""@ =~= Seq::<char>::empty());
            if let InstrKind::Constant { index, value } = event.kind {
                assert(texts[index as int] == value_texts@[index as int].deep_view());
            }
            assert(value_text@ == spec_value_text(texts, spec_instr_kind(chunk@, offset as int)));
        }
        let rendered = render_instruction(&event, value_text);
        out.append(rendered.as_str());
        proof {
            lemma_walk_progress(chunk@, offset as int);
            assert(out@ + spec_render_walk(chunk@, spec_next_offset(chunk@, offset as int), texts)
                =~= header + spec_render_walk(chunk@, 0, texts));
        }
        offset = next;
    }
    proof {
        assert(out@ =~= "== "@ + name@ + " ==\n"@ + spec_render_walk(chunk@, 0, texts));
    }
    out
}

} // verus!
