//! Remote-memory reader tests: both read paths, the sticky bulk downgrade,
//! C-string and counted reads with their partial-prefix semantics, and the
//! little-endian byte decoders.

use tracer_syscalls::bytes::{i32_at, i64_at, u16_at, u32_at, u64_at};
use tracer_syscalls::mem::{BulkFailMem, TraceeMem, VecMem, EFAULT};
use tracer_syscalls::outcome::InspectError;
use tracer_syscalls::reader::MemReader;

fn image(base: u64, bytes: &[u8]) -> VecMem {
    VecMem { base, bytes: bytes.to_vec() }
}

#[test]
fn le_decoders() {
    let v = vec![0x01u8, 0x02, 0x03, 0x04, 0x05, 0x06, 0x07, 0x88];
    assert_eq!(u16_at(&v, 0), 0x0201);
    assert_eq!(u32_at(&v, 0), 0x04030201);
    assert_eq!(u64_at(&v, 0), 0x8807060504030201);
    assert_eq!(u32_at(&v, 4), 0x88070605);
}

#[test]
fn le_decoders_signed() {
    let v = vec![0xffu8, 0xff, 0xff, 0xff, 0xfe, 0xff, 0xff, 0xff, 0xff, 0xff, 0xff, 0xff];
    assert_eq!(i32_at(&v, 0), -1);
    assert_eq!(i32_at(&v, 4), -2);
    assert_eq!(i64_at(&v, 4), -2);
}

#[test]
fn peek_word_assembles_little_endian() {
    let m = image(0x1000, &[1, 2, 3, 4, 5, 6, 7, 8]);
    assert_eq!(m.peek_word(0x1000), Ok(0x0807060504030201));
    assert_eq!(m.peek_word(0x1001), Err(EFAULT));
    assert_eq!(m.peek_word(0x0fff), Err(EFAULT));
}

#[test]
fn read_memory_word_path() {
    let bytes: Vec<u8> = (0u8..32).collect();
    let mut rd = MemReader::new(image(0x1000, &bytes), 4096);
    // short requests take the word path unconditionally
    let got = rd.read_memory(0x1003, 8).unwrap();
    assert_eq!(got, (3u8..11).collect::<Vec<u8>>());
    // a misaligned start is served from the covering aligned words
    let got = rd.read_memory(0x1006, 5).unwrap();
    assert_eq!(got, (6u8..11).collect::<Vec<u8>>());
}

#[test]
fn read_memory_bulk_path_matches_word_path() {
    let bytes: Vec<u8> = (0u8..64).map(|x| x.wrapping_mul(37)).collect();
    let mut bulk = MemReader::new(image(0x2000, &bytes), 4096);
    let mut word = MemReader::new(BulkFailMem { inner: image(0x2000, &bytes) }, 4096);
    let a = bulk.read_memory(0x2005, 40).unwrap();
    let b = word.read_memory(0x2005, 40).unwrap();
    // dual-path equivalence: the decoded bytes do not depend on the path
    assert_eq!(a, b);
    assert!(!bulk.bulk_disabled);
    // the failed bulk attempt downgraded the second reader for good
    assert!(word.bulk_disabled);
    // and later reads still succeed via the word path, with the latch held
    let c = word.read_memory(0x2000, 64).unwrap();
    assert_eq!(c, bytes);
    assert!(word.bulk_disabled);
}

#[test]
fn bulk_read_stops_at_unreadable_byte() {
    let m = image(0x3000, &[9u8; 24]);
    let got = m.bulk_read(0x3010, 100).unwrap();
    assert_eq!(got, vec![9u8; 8]);
    assert_eq!(m.bulk_read(0x4000, 4), Err(EFAULT));
}

#[test]
fn read_memory_fails_outside_image() {
    let mut rd = MemReader::new(image(0x1000, &[0u8; 16]), 4096);
    assert!(rd.read_memory(0x1010, 1).is_err());
    assert!(rd.read_memory(0x0ff8, 4).is_err());
    // a request overlapping the end of the image fails as a whole
    assert!(rd.read_memory(0x1008, 16).is_err());
}

#[test]
fn c_string_read_to_zero_byte() {
    let mut img = b"hello\0__".to_vec();
    img.extend_from_slice(&[1u8; 8]);
    let mut rd = MemReader::new(image(0x5000, &img), 4096);
    let got = rd.read_c_string(0x5000).unwrap();
    assert_eq!(got, b"hello".to_vec());
}

#[test]
fn c_string_zero_in_later_chunk() {
    let mut img = vec![b'a'; 13];
    img.push(0);
    img.extend_from_slice(&[7u8; 2]);
    let mut rd = MemReader::new(image(0x5000, &img), 4096);
    let got = rd.read_c_string(0x5000).unwrap();
    assert_eq!(got, vec![b'a'; 13]);
}

#[test]
fn c_string_partial_prefix_is_exact() {
    // bytes 0..16 readable and free of zero bytes, byte 16 unreadable:
    // the failure preserves exactly those 16 bytes
    let img = vec![b'x'; 16];
    let mut rd = MemReader::new(image(0x6000, &img), 4096);
    match rd.read_c_string(0x6000) {
        Err(InspectError::ReadFailure { errno, incomplete: Some(p) }) => {
            assert_eq!(errno, EFAULT);
            assert_eq!(p, vec![b'x'; 16]);
        }
        other => panic!("expected a partial read failure, got {:?}", other),
    }
}

#[test]
fn c_string_unreadable_start() {
    let mut rd = MemReader::new(image(0x6000, &[0u8; 8]), 4096);
    match rd.read_c_string(0x7000) {
        Err(InspectError::ReadFailure { errno: _, incomplete: Some(p) }) => {
            assert_eq!(p, Vec::<u8>::new());
        }
        other => panic!("expected a failure with an empty prefix, got {:?}", other),
    }
}

#[test]
fn counted_read_full_and_partial() {
    let bytes: Vec<u8> = (1u8..=8).collect();
    let mut rd = MemReader::new(image(0x8000, &bytes), 4096);
    let got = rd.read_counted_bytes(0x8000, 8).unwrap();
    assert_eq!(got, bytes);
    match rd.read_counted_bytes(0x8000, 16) {
        Err(InspectError::ReadFailure { errno: _, incomplete: Some(p) }) => {
            assert_eq!(p, bytes);
        }
        other => panic!("expected a partial counted read, got {:?}", other),
    }
}

#[test]
fn ptr_array_reads_until_null_slot() {
    // two pointers to strings, then a null slot
    let base: u64 = 0x9000;
    let mut img = vec![0u8; 0x40];
    img[0x00..0x03].copy_from_slice(b"ab\0");
    img[0x08..0x0c].copy_from_slice(b"cde\0");
    img[0x10..0x18].copy_from_slice(&(base + 0x00).to_le_bytes());
    img[0x18..0x20].copy_from_slice(&(base + 0x08).to_le_bytes());
    // slots at 0x20 stay zero: the terminator
    let mut rd = MemReader::new(image(base, &img), 4096);
    let got = rd.read_ptr_array(base + 0x10).unwrap();
    assert_eq!(got, vec![b"ab".to_vec(), b"cde".to_vec()]);
}

#[test]
fn ptr_array_keeps_elements_before_bad_pointer() {
    let base: u64 = 0xa000;
    let mut img = vec![0u8; 0x40];
    img[0x00..0x03].copy_from_slice(b"ok\0");
    img[0x10..0x18].copy_from_slice(&base.to_le_bytes());
    img[0x18..0x20].copy_from_slice(&0xdead0000u64.to_le_bytes());
    let mut rd = MemReader::new(image(base, &img), 4096);
    match rd.read_ptr_array(base + 0x10) {
        Err(InspectError::ReadFailure { errno, incomplete: Some(p) }) => {
            assert_eq!(errno, EFAULT);
            assert_eq!(p, vec![b"ok".to_vec()]);
        }
        other => panic!("expected a partial pointer-array read, got {:?}", other),
    }
}

#[test]
fn map_ptrace_failure_keeps_kind_and_converts_prefix() {
    let e: InspectError<Vec<u8>> = InspectError::ReadFailure {
        errno: EFAULT,
        incomplete: Some(b"ab".to_vec()),
    };
    match e.map_ptrace_failure(Some) {
        InspectError::ReadFailure { errno, incomplete: Some(Some(p)) } => {
            assert_eq!(errno, EFAULT);
            assert_eq!(p, b"ab".to_vec());
        }
        other => panic!("unexpected mapping result: {:?}", other),
    }
    let e: InspectError<Vec<u8>> = InspectError::SyscallFailure;
    assert_eq!(e.map_ptrace_failure(Some), InspectError::SyscallFailure);
}
