//! Behaviour of buffer descriptors and mappings.

use std::collections::hash_map::DefaultHasher;
use std::hash::{Hash, Hasher};

use drm::buffer::{Buffer, Handle, PixelFormat};
use drm::control::dumbbuffer::{request_mapping, DumbBuffer, DumbMapping};
use drm::result::SystemError;

fn hash_of(b: &DumbBuffer) -> u64 {
    let mut h = DefaultHasher::new();
    b.hash(&mut h);
    h.finish()
}

fn sample() -> DumbBuffer {
    DumbBuffer::new((1920, 1080), 8294400, PixelFormat::XRGB8888, 7680, Handle(42))
}

#[test]
fn descriptor_equality_is_structural() {
    let a = sample();
    let b = sample();
    assert_eq!(a, b);
    assert_eq!(hash_of(&a), hash_of(&b));

    let mut c = sample();
    c.size = (1280, 1080);
    assert_ne!(a, c);
    let mut c = sample();
    c.size = (1920, 720);
    assert_ne!(a, c);
    let mut c = sample();
    c.length = 8294401;
    assert_ne!(a, c);
    let mut c = sample();
    c.format = PixelFormat::ARGB8888;
    assert_ne!(a, c);
    let mut c = sample();
    c.pitch = 7684;
    assert_ne!(a, c);
    let mut c = sample();
    c.handle = Handle(43);
    assert_ne!(a, c);
}

fn describe<B: Buffer>(b: &B) -> ((u32, u32), PixelFormat, u32, Handle) {
    (b.size(), b.format(), b.pitch(), b.handle())
}

#[test]
fn capability_accessors_report_the_stored_metadata() {
    let b = sample();
    let (size, format, pitch, handle) = describe(&b);
    assert_eq!(size, (1920, 1080));
    assert_eq!(format, PixelFormat::XRGB8888);
    assert_eq!(pitch, 7680);
    assert_eq!(handle, Handle(42));
    assert_eq!(b.length(), 8294400);
}

#[test]
fn full_hd_allocation_reports_32_bits_and_wide_enough_pitch() {
    // As the kernel would answer a 1920 x 1080 x 32 allocation request:
    // the pitch covers at least width * 4 bytes per scanline.
    let b = sample();
    assert_eq!(b.format().bits_per_pixel(), 32);
    assert!(b.pitch() >= 1920 * 4);
}

#[test]
fn mapping_exposes_every_byte_of_the_allocation() {
    let length = 64usize;
    let mut backing = vec![0u8; length];
    let mut mapping = DumbMapping::new(&mut backing[..]);
    assert_eq!(mapping.len(), length);

    let bytes = mapping.as_mut();
    assert_eq!(bytes.len(), length);
    for i in 0..length {
        assert_eq!(bytes[i], 0);
        bytes[i] = i as u8;
    }
    for i in 0..length {
        assert_eq!(bytes[i], i as u8);
    }
    drop(mapping);
    for i in 0..length {
        assert_eq!(backing[i], i as u8);
    }
}

#[test]
fn successful_map_outcome_is_wrapped_whole() {
    let mut backing = vec![7u8; 16];
    let outcome: Result<&mut [u8], i32> = Ok(&mut backing[..]);
    let mut mapping = match request_mapping(outcome) {
        Ok(m) => m,
        Err(e) => panic!("mapping should have been acquired, got {:?}", e),
    };
    assert_eq!(mapping.len(), 16);
    mapping.as_mut()[3] = 1;
    drop(mapping);
    assert_eq!(backing[3], 1);
    assert_eq!(backing[0], 7);
}

#[test]
fn failed_map_outcome_is_reported_not_fatal() {
    // An invalid handle makes the raw map call fail with an
    // invalid-argument code; the failure must come back as a value.
    let outcome: Result<&mut [u8], i32> = Err(22);
    match request_mapping(outcome) {
        Err(SystemError::InvalidArgument) => {}
        Err(other) => panic!("expected InvalidArgument, got {:?}", other),
        Ok(_) => panic!("the raw map failure must not be swallowed"),
    }

    let outcome: Result<&mut [u8], i32> = Err(13);
    match request_mapping(outcome) {
        Err(SystemError::PermissionDenied) => {}
        Err(other) => panic!("expected PermissionDenied, got {:?}", other),
        Ok(_) => panic!("the raw map failure must not be swallowed"),
    }

    let outcome: Result<&mut [u8], i32> = Err(9999);
    match request_mapping(outcome) {
        Err(SystemError::Unknown { code: 9999 }) => {}
        Err(other) => panic!("expected Unknown {{ 9999 }}, got {:?}", other),
        Ok(_) => panic!("the raw map failure must not be swallowed"),
    }
}
