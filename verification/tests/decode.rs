//! Tests of the binary decoder: LEB128 integers, the primitive reads, and
//! whole-module decoding.

use wasm_vm::reader::{decode_var_int, decode_var_uint, DecodeError, WasmReader};

#[test]
fn test_decode_var_uint() {
    let data = vec![
        0b1_0111111,
        0b1_0011111,
        0b1_0001111,
        0b1_0000111,
        0b1_0000011,
        0b0_0000001,
    ];
    assert_eq!(decode_var_uint(&data[5..]).unwrap(), (0b0000001, 1));
    assert_eq!(decode_var_uint(&data[4..]).unwrap(), (0b1_0000011, 2));
    assert_eq!(decode_var_uint(&data[3..]).unwrap(), (0b1_0000011_0000111, 3));
    assert_eq!(
        decode_var_uint(&data[2..]).unwrap(),
        (0b1_0000011_0000111_0001111, 4)
    );
    assert_eq!(
        decode_var_uint(&data[1..]).unwrap(),
        (0b1_0000011_0000111_0001111_0011111, 5)
    );
}

#[test]
fn test_decode_var_int() {
    let data = vec![0b1_1000000, 0b1_0111011, 0b0_1111000];
    assert_eq!(decode_var_int(&data[..], 32).unwrap(), (-123456, 3));
}

#[test]
fn test_reader() {
    let data = vec![
        0x01, 0x02, 0x03, 0x04, 0x05, 0x00, 0x00, 0xc0, 0x3f, 0x00, 0x00, 0x00, 0x00, 0x00, 0x00,
        0xf8, 0x3f, 0xE5, 0x8E, 0x26, 0xC0, 0xBB, 0x78, 0xC0, 0xBB, 0x78, 0x03, 0x01, 0x02, 0x03,
        0x03, 0x66, 0x6f, 0x6f,
    ];
    let mut reader = WasmReader::new(&data);
    assert_eq!(reader.read_byte().unwrap(), 0x01);
    assert_eq!(reader.read_u32().unwrap(), 0x05040302);
    assert_eq!(f32::from_bits(reader.read_f32_bits().unwrap()), 1.5);
    assert_eq!(f64::from_bits(reader.read_f64_bits().unwrap()), 1.5);
    assert_eq!(reader.read_var_u32().unwrap(), 624485);
    assert_eq!(reader.read_var_i32().unwrap(), -123456);
    assert_eq!(reader.read_var_i64().unwrap(), -123456);
    assert_eq!(reader.read_bytes().unwrap(), [0x01, 0x02, 0x03]);
    assert_eq!(reader.read_name().unwrap(), "foo");
    assert_eq!(reader.remaining(), 0);
}

#[test]
fn test_decode_truncated_stream() {
    let data = vec![0x80, 0x80];
    assert_eq!(decode_var_uint(&data), Err(DecodeError::UnexpectedEnd));
}

#[test]
fn test_decode_header_only_module() {
    let data = vec![0x00, 0x61, 0x73, 0x6D, 0x01, 0x00, 0x00, 0x00];
    let m = WasmReader::decode(&data).unwrap();
    assert_eq!(m.magic, 0x6d736100);
    assert_eq!(m.version, 1);
    assert_eq!(m.type_sec.len(), 0);
    assert_eq!(m.code_sec.len(), 0);
}

#[test]
fn test_decode_bad_magic() {
    let data = vec![0x00, 0x61, 0x73, 0x6E, 0x01, 0x00, 0x00, 0x00];
    assert!(matches!(
        WasmReader::decode(&data),
        Err(DecodeError::InvalidMagic)
    ));
}

#[test]
fn test_decode_section_out_of_order() {
    // a memory section (5) followed by a table section (4)
    let data = vec![
        0x00, 0x61, 0x73, 0x6D, 0x01, 0x00, 0x00, 0x00, // header
        0x05, 0x03, 0x01, 0x00, 0x01, // memory section: one memory, min 1
        0x04, 0x04, 0x01, 0x70, 0x00, 0x02, // table section: funcref, min 2
    ];
    assert!(matches!(
        WasmReader::decode(&data),
        Err(DecodeError::InvalidSectionId)
    ));
}

#[test]
fn test_decode_small_module() {
    // one type () -> (), one function of that type, whose body is
    // `i32.const 42; drop`
    let data = vec![
        0x00, 0x61, 0x73, 0x6D, 0x01, 0x00, 0x00, 0x00, // header
        0x01, 0x04, 0x01, 0x60, 0x00, 0x00, // type section
        0x03, 0x02, 0x01, 0x00, // function section
        0x0A, 0x07, 0x01, 0x05, 0x00, 0x41, 0x2A, 0x1A, 0x0B, // code section
    ];
    let m = WasmReader::decode(&data).unwrap();
    assert_eq!(m.type_sec.len(), 1);
    assert_eq!(m.func_sec, vec![0]);
    assert_eq!(m.code_sec.len(), 1);
    assert_eq!(m.code_sec[0].expr.len(), 2);
    assert_eq!(m.code_sec[0].get_local_count(), 0);
}

/// A module with the default header, one `() -> ()` type, one function of
/// that type, and `body` as its code.
fn module_with_body(body: &[u8]) -> Vec<u8> {
    let mut d = vec![0x00, 0x61, 0x73, 0x6D, 0x01, 0x00, 0x00, 0x00];
    d.extend([0x01, 0x04, 0x01, 0x60, 0x00, 0x00]); // type section
    d.extend([0x03, 0x02, 0x01, 0x00]); // function section
    let mut entry = vec![0x00u8]; // no locals
    entry.extend_from_slice(body);
    let mut code = vec![0x01u8, entry.len() as u8];
    code.extend(entry);
    d.push(0x0A);
    d.push(code.len() as u8);
    d.extend(code);
    d
}

#[test]
fn test_decode_overlong_integer() {
    let data = vec![0x80; 11];
    assert_eq!(decode_var_uint(&data), Err(DecodeError::IntegerTooLong));
}

#[test]
fn test_decode_bad_version() {
    let data = vec![0x00, 0x61, 0x73, 0x6D, 0x02, 0x00, 0x00, 0x00];
    assert!(matches!(
        WasmReader::decode(&data),
        Err(DecodeError::InvalidVersion)
    ));
}

#[test]
fn test_decode_bad_val_type() {
    let mut data = vec![0x00, 0x61, 0x73, 0x6D, 0x01, 0x00, 0x00, 0x00];
    data.extend([0x01, 0x05, 0x01, 0x60, 0x01, 0x50, 0x00]);
    assert!(matches!(
        WasmReader::decode(&data),
        Err(DecodeError::InvalidValType)
    ));
}

#[test]
fn test_decode_bad_func_type_tag() {
    let mut data = vec![0x00, 0x61, 0x73, 0x6D, 0x01, 0x00, 0x00, 0x00];
    data.extend([0x01, 0x04, 0x01, 0x61, 0x00, 0x00]);
    assert!(matches!(
        WasmReader::decode(&data),
        Err(DecodeError::InvalidFuncTypeTag)
    ));
}

#[test]
fn test_decode_bad_import_tag() {
    let mut data = vec![0x00, 0x61, 0x73, 0x6D, 0x01, 0x00, 0x00, 0x00];
    data.extend([0x02, 0x06, 0x01, 0x01, 0x61, 0x01, 0x62, 0x09]);
    assert!(matches!(
        WasmReader::decode(&data),
        Err(DecodeError::InvalidImportTag)
    ));
}

#[test]
fn test_decode_bad_export_tag() {
    let mut data = vec![0x00, 0x61, 0x73, 0x6D, 0x01, 0x00, 0x00, 0x00];
    data.extend([0x07, 0x05, 0x01, 0x01, 0x61, 0x09, 0x00]);
    assert!(matches!(
        WasmReader::decode(&data),
        Err(DecodeError::InvalidExportTag)
    ));
}

#[test]
fn test_decode_bad_table_elem_type() {
    let mut data = vec![0x00, 0x61, 0x73, 0x6D, 0x01, 0x00, 0x00, 0x00];
    data.extend([0x04, 0x04, 0x01, 0x7F, 0x00, 0x01]);
    assert!(matches!(
        WasmReader::decode(&data),
        Err(DecodeError::InvalidTableElemType)
    ));
}

#[test]
fn test_decode_bad_import_name_bytes() {
    let mut data = vec![0x00, 0x61, 0x73, 0x6D, 0x01, 0x00, 0x00, 0x00];
    data.extend([0x02, 0x07, 0x01, 0x01, 0xFF, 0x01, 0x62, 0x00, 0x00]);
    assert!(matches!(
        WasmReader::decode(&data),
        Err(DecodeError::InvalidUtf8)
    ));
}

#[test]
fn test_decode_unknown_opcode() {
    let data = module_with_body(&[0x25, 0x0B]);
    assert!(matches!(
        WasmReader::decode(&data),
        Err(DecodeError::UnknownOpcode)
    ));
}

#[test]
fn test_decode_bad_block_end() {
    let data = module_with_body(&[0x05]);
    assert!(matches!(
        WasmReader::decode(&data),
        Err(DecodeError::InvalidBlockEnd)
    ));
}

#[test]
fn test_decode_bad_block_type() {
    let data = module_with_body(&[0x02, 0x7B, 0x0B, 0x0B]);
    assert!(matches!(
        WasmReader::decode(&data),
        Err(DecodeError::InvalidBlockType)
    ));
}

#[test]
fn test_decode_nonzero_flag() {
    let data = module_with_body(&[0x3F, 0x01, 0x0B]);
    assert!(matches!(
        WasmReader::decode(&data),
        Err(DecodeError::ZeroFlagExpected)
    ));
}

#[test]
fn test_decode_local_count_overflow() {
    let mut data = vec![0x00, 0x61, 0x73, 0x6D, 0x01, 0x00, 0x00, 0x00];
    data.extend([0x01, 0x04, 0x01, 0x60, 0x00, 0x00]); // type section
    data.extend([0x03, 0x02, 0x01, 0x00]); // function section
    let entry: Vec<u8> = vec![
        0x02, // two local runs
        0xFF, 0xFF, 0xFF, 0xFF, 0x0F, 0x7F, // u32::MAX locals of i32
        0xFF, 0xFF, 0xFF, 0xFF, 0x0F, 0x7F, // and again
        0x0B,
    ];
    let mut code = vec![0x01u8, entry.len() as u8];
    code.extend(entry);
    data.push(0x0A);
    data.push(code.len() as u8);
    data.extend(code);
    assert!(matches!(
        WasmReader::decode(&data),
        Err(DecodeError::LocalCountOverflow)
    ));
}

#[test]
fn test_decode_section_length_mismatch() {
    let data = vec![
        0x00, 0x61, 0x73, 0x6D, 0x01, 0x00, 0x00, 0x00, // header
        0x01, 0x05, 0x01, 0x60, 0x00, 0x00, // type section claiming 5 bytes
    ];
    assert!(matches!(
        WasmReader::decode(&data),
        Err(DecodeError::SectionLengthMismatch)
    ));
}

#[test]
fn test_decode_unknown_saturating_selector() {
    let data = module_with_body(&[0xFC, 0x08, 0x0B]);
    assert!(matches!(
        WasmReader::decode(&data),
        Err(DecodeError::UnknownOpcode)
    ));
}
