use rlox::Chunk;
use rlox::OpCode;
use rlox::Value;
use rlox::debug::InstrEvent;
use rlox::debug::InstrKind;
use rlox::debug::LineMark;
use rlox::debug::chunk_header;
use rlox::debug::constant_instruction;
use rlox::debug::disassemble_chunk;
use rlox::debug::disassemble_events;
use rlox::debug::disassemble_instruction;
use rlox::debug::render_instruction;
use rlox::debug::simple_instructon;

fn number(x: f64) -> Value {
    Value::from_bits(x.to_bits())
}

#[test]
fn test_single_simple_instruction_advances_by_one() {
    let mut chunk = Chunk::new();
    chunk.write_chunk(OpCode::OpRETURN.to_u8(), 1);
    let (event, next) = disassemble_instruction(&chunk, 0);
    assert_eq!(event.kind, InstrKind::Simple(OpCode::OpRETURN));
    assert_eq!(event.line, LineMark::Shown(1));
    assert_eq!(next, 1);
    let events = disassemble_events(&chunk);
    assert_eq!(events.len(), 1);
    assert_eq!(events[0], event);
}

#[test]
fn test_constant_then_simple_instruction() {
    let mut chunk = Chunk::new();
    let constant = chunk.add_constant(number(1.5));
    assert_eq!(constant, 0);
    chunk.write_chunk(OpCode::OpCONSTANT.to_u8(), 123);
    chunk.write_chunk(constant as u8, 123);
    chunk.write_chunk(OpCode::OpRETURN.to_u8(), 124);

    let events = disassemble_events(&chunk);
    assert_eq!(events.len(), 2);
    assert_eq!(
        events[0],
        InstrEvent {
            offset: 0,
            line: LineMark::Shown(123),
            kind: InstrKind::Constant { index: 0, value: number(1.5) },
        }
    );
    assert_eq!(
        events[1],
        InstrEvent { offset: 2, line: LineMark::Shown(124), kind: InstrKind::Simple(OpCode::OpRETURN) }
    );

    let texts = vec![format!("{}", 1.5f64)];
    let trace = disassemble_chunk(&chunk, "test chunk", &texts);
    assert_eq!(
        trace,
        "== test chunk ==\n\
         0000  123 OpCONSTANT          0 '1.5'\n\
         0002  124 OpRETURN\n"
    );
}

#[test]
fn test_truncated_constant_instruction_terminates() {
    let mut chunk = Chunk::new();
    chunk.write_chunk(OpCode::OpCONSTANT.to_u8(), 1);
    let (event, next) = disassemble_instruction(&chunk, 0);
    assert_eq!(event.kind, InstrKind::TruncatedConstant);
    assert_eq!(next, 1);
    let events = disassemble_events(&chunk);
    assert_eq!(events.len(), 1);
    assert_eq!(events[0].kind, InstrKind::TruncatedConstant);
    let trace = disassemble_chunk(&chunk, "bad", &Vec::new());
    assert_eq!(trace, "== bad ==\n0000    1 Truncated constant instruction at offset 0\n");
}

#[test]
fn test_unknown_opcode_advances_by_one() {
    let mut chunk = Chunk::new();
    chunk.write_chunk(9, 1);
    chunk.write_chunk(OpCode::OpRETURN.to_u8(), 1);
    let (event, next) = disassemble_instruction(&chunk, 0);
    assert_eq!(event.kind, InstrKind::Invalid);
    assert_eq!(next, 1);
    let events = disassemble_events(&chunk);
    assert_eq!(events.len(), 2);
    assert_eq!(events[0].kind, InstrKind::Invalid);
    assert_eq!(events[1].kind, InstrKind::Simple(OpCode::OpRETURN));
    let trace = disassemble_chunk(&chunk, "bad", &Vec::new());
    assert_eq!(
        trace,
        "== bad ==\n0000    1 Invalid instruction offset\n0001    | OpRETURN\n"
    );
}

#[test]
fn test_out_of_range_constant_index_is_reported() {
    let mut chunk = Chunk::new();
    chunk.write_chunk(OpCode::OpCONSTANT.to_u8(), 1);
    chunk.write_chunk(5, 1);
    let (kind, next) = constant_instruction(&chunk, 0);
    assert_eq!(kind, InstrKind::UnknownConstant { index: 5 });
    assert_eq!(next, 2);
    let trace = disassemble_chunk(&chunk, "bad", &Vec::new());
    assert_eq!(
        trace,
        "== bad ==\n0000    1 OpCONSTANT          5 'Unknown constant index 5\n"
    );
}

#[test]
fn test_repeated_line_is_elided() {
    let mut chunk = Chunk::new();
    chunk.write_chunk(OpCode::OpRETURN.to_u8(), 7);
    chunk.write_chunk(OpCode::OpRETURN.to_u8(), 7);
    let events = disassemble_events(&chunk);
    assert_eq!(events.len(), 2);
    assert_eq!(events[0].line, LineMark::Shown(7));
    assert_eq!(events[1].line, LineMark::Elided);
    let trace = disassemble_chunk(&chunk, "two", &Vec::new());
    assert_eq!(trace, "== two ==\n0000    7 OpRETURN\n0001    | OpRETURN\n");
}

#[test]
fn test_simple_instructon_steps_one_byte() {
    let (kind, next) = simple_instructon(OpCode::OpRETURN, 41);
    assert_eq!(kind, InstrKind::Simple(OpCode::OpRETURN));
    assert_eq!(next, 42);
}

#[test]
fn test_chunk_header() {
    assert_eq!(chunk_header("test chunk"), "== test chunk ==\n");
}

#[test]
fn test_render_wide_fields_are_not_padded() {
    let event = InstrEvent {
        offset: 123456,
        line: LineMark::Shown(98765),
        kind: InstrKind::Simple(OpCode::OpRETURN),
    };
    assert_eq!(render_instruction(&event, ""), "123456 98765 OpRETURN\n");
}

#[test]
fn test_render_missing_line_mark() {
    let event = InstrEvent { offset: 3, line: LineMark::Missing, kind: InstrKind::Invalid };
    assert_eq!(render_instruction(&event, ""), "0003 Invalid instruction offset\n");
}

#[test]
fn test_disassemble_past_the_end_is_invalid() {
    let mut chunk = Chunk::new();
    chunk.write_chunk(OpCode::OpRETURN.to_u8(), 1);
    let (event, next) = disassemble_instruction(&chunk, 10);
    assert_eq!(event.kind, InstrKind::Invalid);
    assert_eq!(event.line, LineMark::Missing);
    assert_eq!(next, 11);
}

#[test]
fn test_empty_chunk_disassembles_to_header_only() {
    let chunk = Chunk::new();
    let events = disassemble_events(&chunk);
    assert!(events.is_empty());
    assert_eq!(disassemble_chunk(&chunk, "empty", &Vec::new()), "== empty ==\n");
}
