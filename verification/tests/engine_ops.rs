use compute_engine::Buffer;
use compute_engine::Engine;
use compute_engine::EngineError;
use compute_engine::MAX_PUSH_CONSTANT_BYTES;

/// A minimal valid bytecode stream: the magic word followed by `extra`
/// little-endian words.
fn bytecode(extra: &[u32]) -> Vec<u8> {
    let mut bytes = vec![0x03u8, 0x02, 0x23, 0x07];
    for w in extra {
        bytes.push((w & 0xff) as u8);
        bytes.push(((w >> 8) & 0xff) as u8);
        bytes.push(((w >> 16) & 0xff) as u8);
        bytes.push(((w >> 24) & 0xff) as u8);
    }
    bytes
}

#[test]
fn write_read_round_trip() {
    let mut e = Engine::new(false);
    let b = e.buffer(4, 1).unwrap();
    let data = vec![1u8, 2, 3, 4];
    e.write(b, &data).unwrap();
    let mut out = vec![0u8; 4];
    e.read(b, &mut out).unwrap();
    assert_eq!(out, data);
}

#[test]
fn write_read_round_trip_element_sized() {
    let mut e = Engine::new(false);
    // 800 elements of 4 bytes each
    let b = e.buffer(800, 4).unwrap();
    let mut data = Vec::new();
    for i in 0..800u32 {
        data.extend_from_slice(&[(i & 0xff) as u8, ((i >> 8) & 0xff) as u8, 0, 0]);
    }
    e.write(b, &data).unwrap();
    let mut out = vec![0u8; 3200];
    e.read(b, &mut out).unwrap();
    assert_eq!(out, data);
}

#[test]
fn fresh_buffer_staging_is_zeroed() {
    let mut e = Engine::new(false);
    let b = e.buffer(3, 2).unwrap();
    let mut out = vec![0xffu8; 6];
    e.read(b, &mut out).unwrap();
    assert_eq!(out, vec![0u8; 6]);
}

#[test]
fn write_rejects_size_mismatch() {
    let mut e = Engine::new(false);
    let b = e.buffer(4, 1).unwrap();
    assert_eq!(e.write(b, &[]), Err(EngineError::SizeMismatch));
    assert_eq!(e.write(b, &[1, 2, 3]), Err(EngineError::SizeMismatch));
    assert_eq!(e.write(b, &[1, 2, 3, 4, 5]), Err(EngineError::SizeMismatch));
}

#[test]
fn read_rejects_size_mismatch() {
    let mut e = Engine::new(false);
    let b = e.buffer(4, 1).unwrap();
    let mut empty: Vec<u8> = Vec::new();
    assert_eq!(e.read(b, &mut empty), Err(EngineError::SizeMismatch));
    let mut long = vec![0u8; 5];
    assert_eq!(e.read(b, &mut long), Err(EngineError::SizeMismatch));
}

#[test]
fn zero_size_buffer_rejected() {
    let mut e = Engine::new(false);
    assert_eq!(e.buffer(0, 4), Err(EngineError::InvalidArgument));
    assert_eq!(e.buffer(4, 0), Err(EngineError::InvalidArgument));
    assert_eq!(e.buffer(usize::MAX, 2), Err(EngineError::InvalidArgument));
}

#[test]
fn zero_grid_rejected() {
    let mut e = Engine::new(false);
    let b = e.buffer(4, 1).unwrap();
    let s = e.spirv(&bytecode(&[1])).unwrap();
    assert_eq!(e.run(s, b, b, 0, 1, 1, &[]), Err(EngineError::InvalidArgument));
    assert_eq!(e.run(s, b, b, 1, 0, 1, &[]), Err(EngineError::InvalidArgument));
    assert_eq!(e.run(s, b, b, 1, 1, 0, &[]), Err(EngineError::InvalidArgument));
}

#[test]
fn oversized_push_constants_rejected() {
    let mut e = Engine::new(false);
    let b = e.buffer(4, 1).unwrap();
    let s = e.spirv(&bytecode(&[1])).unwrap();
    let too_big = vec![0u8; MAX_PUSH_CONSTANT_BYTES + 1];
    assert_eq!(e.run(s, b, b, 1, 1, 1, &too_big), Err(EngineError::InvalidArgument));
    let just_fits = vec![0u8; MAX_PUSH_CONSTANT_BYTES];
    assert_eq!(e.run(s, b, b, 1, 1, 1, &just_fits), Ok(()));
}

#[test]
fn run_accepts_valid_dispatch() {
    let mut e = Engine::new(false);
    let input = e.buffer(16, 4).unwrap();
    let output = e.buffer(16, 4).unwrap();
    let s = e.spirv(&bytecode(&[1, 2, 3])).unwrap();
    assert_eq!(e.run(s, input, output, 16, 50, 1, &[5, 0, 0, 0]), Ok(()));
}

#[test]
fn run_rejects_stale_handles() {
    let mut e = Engine::new(false);
    let b = e.buffer(4, 1).unwrap();
    let s = e.spirv(&bytecode(&[1])).unwrap();
    e.release_kernel(s).unwrap();
    assert_eq!(e.run(s, b, b, 1, 1, 1, &[]), Err(EngineError::NotFound));
    e.release_buffer(b).unwrap();
    assert_eq!(e.run(s, b, b, 1, 1, 1, &[]), Err(EngineError::NotFound));
}

#[test]
fn stale_buffer_handle_rejected_after_reuse() {
    let mut e = Engine::new(false);
    let stale = e.buffer(4, 1).unwrap();
    e.release_buffer(stale).unwrap();
    // the pool reuses the vacated slot under a new generation
    let fresh = e.buffer(4, 1).unwrap();
    assert_eq!(fresh.0.index, stale.0.index);
    assert_ne!(fresh.0.generation, stale.0.generation);
    assert_eq!(e.write(stale, &[1, 2, 3, 4]), Err(EngineError::NotFound));
    assert_eq!(e.read(stale, &mut vec![0u8; 4]), Err(EngineError::NotFound));
    // the new occupant is untouched and fully usable
    e.write(fresh, &[9, 8, 7, 6]).unwrap();
    let mut out = vec![0u8; 4];
    e.read(fresh, &mut out).unwrap();
    assert_eq!(out, vec![9, 8, 7, 6]);
}

#[test]
fn stale_kernel_handle_rejected_after_reuse() {
    let mut e = Engine::new(false);
    let stale = e.spirv(&bytecode(&[1])).unwrap();
    e.release_kernel(stale).unwrap();
    let fresh = e.spirv(&bytecode(&[2])).unwrap();
    assert_eq!(fresh.0.index, stale.0.index);
    assert_ne!(fresh.0.generation, stale.0.generation);
    assert!(e.kernel_code(stale).is_none());
    assert_eq!(e.kernel_code(fresh).unwrap(), &vec![0x07230203u32, 2]);
}

#[test]
fn release_rejects_unknown_handle() {
    let mut e = Engine::new(false);
    let b = e.buffer(4, 1).unwrap();
    e.release_buffer(b).unwrap();
    assert_eq!(e.release_buffer(b), Err(EngineError::NotFound));
}

#[test]
fn sync_staging_feeds_read() {
    let mut e = Engine::new(false);
    let b = e.buffer(4, 1).unwrap();
    // the adapter deposits what the device transfer left in staging
    e.sync_staging(b, &[10, 20, 30, 40]).unwrap();
    let mut out = vec![0u8; 4];
    e.read(b, &mut out).unwrap();
    assert_eq!(out, vec![10, 20, 30, 40]);
    assert_eq!(e.sync_staging(b, &[1]), Err(EngineError::SizeMismatch));
}

#[test]
fn teardown_invalidates_handle_space() {
    let mut e = Engine::new(false);
    let b = e.buffer(4, 1).unwrap();
    let s = e.spirv(&bytecode(&[1])).unwrap();
    assert!(e.is_live());
    e.teardown();
    assert!(!e.is_live());
    assert!(e.buffer_len(b).is_none());
    assert!(e.staging_bytes(b).is_none());
    assert!(e.kernel_code(s).is_none());
}

#[test]
fn buffer_len_and_staging_getters() {
    let mut e = Engine::new(false);
    let b = e.buffer(5, 3).unwrap();
    assert_eq!(e.buffer_len(b), Some(15));
    e.write(b, &[1u8; 15]).unwrap();
    assert_eq!(e.staging_bytes(b).unwrap(), &vec![1u8; 15]);
    let other = Buffer(compute_engine::Handle { index: 99, generation: 0 });
    assert_eq!(e.buffer_len(other), None);
}

#[test]
fn padded_push_constants_pads_only_empty() {
    assert_eq!(compute_engine::padded_push_constants(&[]), vec![0u8, 0, 0, 0]);
    assert_eq!(compute_engine::padded_push_constants(&[7]), vec![7u8]);
    assert_eq!(
        compute_engine::padded_push_constants(&[1, 2, 3, 4, 5]),
        vec![1u8, 2, 3, 4, 5]
    );
}

#[test]
fn validation_toggle_recorded() {
    let e = Engine::new(true);
    assert!(e.validation);
    let e2 = Engine::new(false);
    assert!(!e2.validation);
}
