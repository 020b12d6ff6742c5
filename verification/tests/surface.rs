use rustmade::error::PlatformError;
use rustmade::surface::{pack_pixel, PixelSurface};

#[test]
fn allocate_sets_geometry_and_length() {
    let s = PixelSurface::allocate(1280, 720).unwrap();
    assert_eq!(s.width(), 1280);
    assert_eq!(s.height(), 720);
    assert_eq!(s.stride(), 1280 * 4);
    assert_eq!(s.byte_len(), 1280 * 720 * 4);
}

#[test]
fn allocate_smallest_surface() {
    let s = PixelSurface::allocate(1, 1).unwrap();
    assert_eq!(s.stride(), 4);
    assert_eq!(s.byte_len(), 4);
    assert_eq!(s.read_pixel(0, 0), (0, 0, 0, 0));
}

#[test]
fn allocate_starts_zeroed() {
    let s = PixelSurface::allocate(8, 8).unwrap();
    let bytes = s.bytes();
    assert_eq!(bytes.len(), 8 * 8 * 4);
    assert!(bytes.iter().all(|&b| b == 0));
}

#[test]
fn allocate_unaddressable_fails() {
    let result = PixelSurface::allocate(0x7fff_ffff, 0x7fff_ffff);
    assert_eq!(result.err(), Some(PlatformError::AllocationError));
}

#[test]
fn resize_1280x720_to_640x480() {
    let mut s = PixelSurface::allocate(1280, 720).unwrap();
    s.resize(640, 480).unwrap();
    assert_eq!(s.width(), 640);
    assert_eq!(s.height(), 480);
    assert_eq!(s.stride(), 2560);
    assert_eq!(s.byte_len(), 1_228_800);
}

#[test]
fn resize_failure_keeps_prior_state() {
    let mut s = PixelSurface::allocate(16, 16).unwrap();
    s.write_pixel(3, 3, 1, 2, 3, 4);
    let result = s.resize(0x7fff_ffff, 0x7fff_ffff);
    assert_eq!(result.err(), Some(PlatformError::AllocationError));
    assert_eq!(s.width(), 16);
    assert_eq!(s.height(), 16);
    assert_eq!(s.stride(), 64);
    assert_eq!(s.byte_len(), 16 * 16 * 4);
    assert_eq!(s.read_pixel(3, 3), (1, 2, 3, 4));
}

#[test]
fn release_twice_is_a_no_op() {
    let mut s = PixelSurface::allocate(32, 32).unwrap();
    s.release();
    assert_eq!(s.byte_len(), 0);
    assert_eq!(s.width(), 0);
    assert_eq!(s.height(), 0);
    assert_eq!(s.stride(), 0);
    s.release();
    assert_eq!(s.byte_len(), 0);
    assert_eq!(s.width(), 0);
}

#[test]
fn pixel_round_trip() {
    let mut s = PixelSurface::allocate(7, 5).unwrap();
    s.write_pixel(6, 4, 0x11, 0x22, 0x33, 0x44);
    assert_eq!(s.read_pixel(6, 4), (0x11, 0x22, 0x33, 0x44));
}

#[test]
fn pixel_bytes_land_at_offset_formula() {
    let mut s = PixelSurface::allocate(7, 5).unwrap();
    s.write_pixel(2, 3, 10, 20, 30, 40);
    let stride = s.stride();
    let off = 3 * stride + 2 * 4;
    let bytes = s.bytes();
    assert_eq!(bytes[off], 10); // blue, lowest address
    assert_eq!(bytes[off + 1], 20); // green
    assert_eq!(bytes[off + 2], 30); // red
    assert_eq!(bytes[off + 3], 40); // alpha
}

#[test]
fn gradient_follows_coordinates_and_offsets() {
    let mut s = PixelSurface::allocate(4, 3).unwrap();
    s.render_gradient(5, 7);
    assert_eq!(s.read_pixel(2, 1), (7, 8, 0, 255));
    assert_eq!(s.read_pixel(0, 0), (5, 7, 0, 255));
    assert_eq!(s.read_pixel(3, 2), (8, 9, 0, 255));
}

#[test]
fn gradient_channel_wraps_at_256() {
    let mut s = PixelSurface::allocate(4, 2).unwrap();
    s.render_gradient(255, 4_294_967_295);
    assert_eq!(s.read_pixel(0, 0), (255, 255, 0, 255));
    assert_eq!(s.read_pixel(2, 1), (1, 0, 0, 255));
}

#[test]
fn present_request_describes_topdown_32bpp_source() {
    let s = PixelSurface::allocate(640, 360).unwrap();
    let req = s.present_request(800, 600);
    assert_eq!(req.descriptor.header_size, 40);
    assert_eq!(req.descriptor.width, 640);
    assert_eq!(req.descriptor.height, -360);
    assert_eq!(req.descriptor.planes, 1);
    assert_eq!(req.descriptor.bit_count, 32);
    assert_eq!(req.src_width, 640);
    assert_eq!(req.src_height, 360);
    assert_eq!(req.stride, 2560);
    assert_eq!(req.target_width, 800);
    assert_eq!(req.target_height, 600);
}

#[test]
fn packed_word_is_aarrggbb() {
    assert_eq!(pack_pixel(0x78, 0x56, 0x34, 0x12), 0x12345678);
    assert_eq!(pack_pixel(0xFF, 0, 0, 0xFF), 0xFF0000FF);
    assert_eq!(pack_pixel(0, 0, 0, 0), 0);
}
