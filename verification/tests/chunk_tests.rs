use rlox::Chunk;
use rlox::OpCode;
use rlox::Value;
use rlox::ValueArray;

#[test]
fn test_opcode_round_trip() {
    assert_eq!(OpCode::from_u8(0), Some(OpCode::OpRETURN));
    assert_eq!(OpCode::from_u8(1), Some(OpCode::OpCONSTANT));
    assert_eq!(OpCode::OpRETURN.to_u8(), 0);
    assert_eq!(OpCode::OpCONSTANT.to_u8(), 1);
    assert_eq!(OpCode::from_u8(OpCode::OpRETURN.to_u8()), Some(OpCode::OpRETURN));
    assert_eq!(OpCode::from_u8(OpCode::OpCONSTANT.to_u8()), Some(OpCode::OpCONSTANT));
}

#[test]
fn test_opcode_undefined_bytes() {
    assert_eq!(OpCode::from_u8(2), None);
    assert_eq!(OpCode::from_u8(37), None);
    assert_eq!(OpCode::from_u8(255), None);
    for byte in 2..=255u8 {
        assert_eq!(OpCode::from_u8(byte), None);
    }
}

#[test]
fn test_new_chunk_is_empty() {
    let chunk = Chunk::new();
    assert!(chunk.is_empty());
    assert_eq!(chunk.len(), 0);
    assert_eq!(chunk.get_code(0), None);
    assert_eq!(chunk.get_line(0), None);
    assert_eq!(chunk.get_constant(0), None);
}

#[test]
fn test_builder_reads_back_bytes_in_order() {
    let bytes = [7u8, 1, 0, 255, 42];
    let mut chunk = Chunk::new();
    for (i, byte) in bytes.iter().enumerate() {
        chunk.write_chunk(*byte, i + 10);
    }
    assert_eq!(chunk.len(), bytes.len());
    assert!(!chunk.is_empty());
    for (i, byte) in bytes.iter().enumerate() {
        assert_eq!(chunk.get_code(i), Some(*byte));
    }
    assert_eq!(chunk.get_code(bytes.len()), None);
}

#[test]
fn test_lines_stay_in_lockstep_with_code() {
    let mut chunk = Chunk::new();
    chunk.write_chunk(1, 123);
    chunk.write_chunk(0, 123);
    chunk.write_chunk(0, 124);
    assert_eq!(chunk.get_line(0), Some(123));
    assert_eq!(chunk.get_line(1), Some(123));
    assert_eq!(chunk.get_line(2), Some(124));
    assert_eq!(chunk.get_line(3), None);
}

#[test]
fn test_add_constant_hands_out_increasing_indices() {
    let mut chunk = Chunk::new();
    let a = Value::from_bits(1.5f64.to_bits());
    let b = Value::from_bits(2.5f64.to_bits());
    let c = Value::from_bits(0.0f64.to_bits());
    assert_eq!(chunk.add_constant(a), 0);
    assert_eq!(chunk.add_constant(b), 1);
    assert_eq!(chunk.add_constant(c), 2);
    assert_eq!(chunk.get_constant(0), Some(a));
    assert_eq!(chunk.get_constant(1), Some(b));
    assert_eq!(chunk.get_constant(2), Some(c));
    assert_eq!(chunk.get_constant(3), None);
}

#[test]
fn test_constant_pool_is_index_stable() {
    let mut chunk = Chunk::new();
    let first = Value::from_bits(1.5f64.to_bits());
    let index = chunk.add_constant(first);
    for i in 0..50u64 {
        chunk.add_constant(Value::from_bits(i));
        chunk.write_chunk(1, 1);
    }
    assert_eq!(chunk.get_constant(index), Some(first));
}

#[test]
fn test_value_round_trips_float_bits() {
    let v = Value::from_bits(1.5f64.to_bits());
    assert_eq!(f64::from_bits(v.to_bits()), 1.5);
}

#[test]
fn test_value_array_append_and_get() {
    let mut array = ValueArray::new();
    assert!(array.is_empty());
    assert_eq!(array.len(), 0);
    assert_eq!(array.get(0), None);
    let v = Value::from_bits(9);
    array.write_value_array(v);
    assert!(!array.is_empty());
    assert_eq!(array.len(), 1);
    assert_eq!(array.get(0), Some(v));
    assert_eq!(array.get(1), None);
}
