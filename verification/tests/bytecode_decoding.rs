use compute_engine::Engine;
use compute_engine::EngineError;

#[test]
fn spirv_rejects_unaligned_length() {
    let mut e = Engine::new(false);
    assert_eq!(e.spirv(&[0x03, 0x02, 0x23]), Err(EngineError::DecodeError));
    assert_eq!(e.spirv(&[0x03, 0x02, 0x23, 0x07, 0x01]), Err(EngineError::DecodeError));
}

#[test]
fn spirv_rejects_empty_stream() {
    let mut e = Engine::new(false);
    assert_eq!(e.spirv(&[]), Err(EngineError::DecodeError));
}

#[test]
fn spirv_rejects_wrong_magic() {
    let mut e = Engine::new(false);
    assert_eq!(e.spirv(&[0x00, 0x01, 0x02, 0x03]), Err(EngineError::DecodeError));
}

#[test]
fn spirv_decodes_little_endian_stream() {
    let mut e = Engine::new(false);
    // magic then 0x04030201, least significant byte first
    let s = e.spirv(&[0x03, 0x02, 0x23, 0x07, 0x01, 0x02, 0x03, 0x04]).unwrap();
    assert_eq!(e.kernel_code(s).unwrap(), &vec![0x07230203u32, 0x04030201]);
}

#[test]
fn spirv_byte_swaps_big_endian_stream() {
    let mut e = Engine::new(false);
    // the same stream written most significant byte first
    let s = e.spirv(&[0x07, 0x23, 0x02, 0x03, 0xaa, 0xbb, 0xcc, 0xdd]).unwrap();
    assert_eq!(e.kernel_code(s).unwrap(), &vec![0x07230203u32, 0xaabbccdd]);
}

#[test]
fn spirv_magic_alone_is_a_valid_module_header() {
    let mut e = Engine::new(false);
    let s = e.spirv(&[0x03, 0x02, 0x23, 0x07]).unwrap();
    assert_eq!(e.kernel_code(s).unwrap(), &vec![0x07230203u32]);
}
