use noisetex::noisetex::{Noisetex, NoisetexInfo, PixelType, R8, Rg8, Rgb8, Rgba8};
use noisetex::vecs::UVec3;

#[test]
fn new_fills_with_defaults() {
    let tex: Noisetex<Rgba8> = Noisetex::new(2, 2, 2);
    assert_eq!(tex.pixels().len(), 8);
    for p in tex.pixels().iter() {
        assert_eq!((p.r, p.g, p.b, p.a), (0, 0, 0, 255));
    }
    let tex: Noisetex<R8> = Noisetex::new(3, 1, 1);
    assert_eq!(tex.pixels().len(), 3);
    for p in tex.pixels().iter() {
        assert_eq!(p.r, 0);
    }
}

#[test]
fn info_size_reports_the_shape() {
    let tex: Noisetex<Rgb8> = Noisetex::new(4, 3, 2);
    let size = tex.info().size();
    assert_eq!((size.x, size.y, size.z), (4, 3, 2));
}

// Filling a 4x3x2 grid with each voxel's linear index recovers 0..24 in
// the buffer, exactly once each, and decoding each index round-trips to
// the coordinate used during the write.
#[test]
fn fill_covers_every_voxel_exactly_once() {
    let mut tex: Noisetex<R8> = Noisetex::new(4, 3, 2);
    tex.fill(|info: NoisetexInfo, xyz: UVec3| R8 {
        r: (xyz.x + xyz.y * info.width + xyz.z * info.width * info.height) as u8,
    });
    let pixels = tex.pixels();
    assert_eq!(pixels.len(), 24);
    for (i, p) in pixels.iter().enumerate() {
        assert_eq!(p.r as usize, i);
    }
    for i in 0u32..24 {
        let (x, y, z) = Noisetex::<R8>::index_to_coord(i, 4, 3);
        assert!(x < 4 && y < 3 && z < 2);
        assert_eq!(x + y * 4 + z * 12, i);
    }
}

#[test]
fn fill_passes_decoded_coordinates() {
    let mut tex: Noisetex<Rgb8> = Noisetex::new(3, 2, 2);
    tex.fill(|_info: NoisetexInfo, xyz: UVec3| Rgb8 {
        r: xyz.x as u8,
        g: xyz.y as u8,
        b: xyz.z as u8,
    });
    let pixels = tex.pixels();
    for (i, p) in pixels.iter().enumerate() {
        let (x, y, z) = Noisetex::<Rgb8>::index_to_coord(i as u32, 3, 2);
        assert_eq!((p.r as u32, p.g as u32, p.b as u32), (x, y, z));
    }
}

#[test]
fn fill_twice_is_identical() {
    let kernel = |info: NoisetexInfo, xyz: UVec3| R8 {
        r: (xyz.x ^ xyz.y.wrapping_mul(3) ^ xyz.z.wrapping_mul(7) ^ info.width) as u8,
    };
    let mut a: Noisetex<R8> = Noisetex::new(4, 4, 4);
    let mut b: Noisetex<R8> = Noisetex::new(4, 4, 4);
    a.fill(kernel);
    b.fill(kernel);
    assert_eq!(a.pixels().len(), b.pixels().len());
    for (pa, pb) in a.pixels().iter().zip(b.pixels().iter()) {
        assert_eq!(pa.r, pb.r);
    }
}

#[test]
fn to_buffer_serializes_in_linear_order() {
    let mut tex: Noisetex<R8> = Noisetex::new(4, 3, 2);
    tex.fill(|info: NoisetexInfo, xyz: UVec3| R8 {
        r: (xyz.x + xyz.y * info.width + xyz.z * info.width * info.height) as u8,
    });
    let buffer = tex.to_buffer();
    let expected: Vec<u8> = (0u8..24).collect();
    assert_eq!(buffer, expected);
}

#[test]
fn pixel_channel_serialization() {
    let mut buffer = Vec::new();
    Rgba8 { r: 1, g: 2, b: 3, a: 4 }.write_to_buffer(&mut buffer);
    Rgb8 { r: 5, g: 6, b: 7 }.write_to_buffer(&mut buffer);
    // The two-channel pixel serializes only its first channel.
    Rg8 { r: 8, g: 9 }.write_to_buffer(&mut buffer);
    R8 { r: 10 }.write_to_buffer(&mut buffer);
    assert_eq!(buffer, vec![1, 2, 3, 4, 5, 6, 7, 8, 10]);
}

#[test]
fn to_buffer_is_byte_count_per_voxel() {
    let tex: Noisetex<Rgba8> = Noisetex::new(4, 3, 2);
    assert_eq!(tex.to_buffer().len(), 24 * 4);
    let tex: Noisetex<Rgb8> = Noisetex::new(4, 3, 2);
    assert_eq!(tex.to_buffer().len(), 24 * 3);
    let tex: Noisetex<Rg8> = Noisetex::new(4, 3, 2);
    assert_eq!(tex.to_buffer().len(), 24);
    let tex: Noisetex<R8> = Noisetex::new(4, 3, 2);
    assert_eq!(tex.to_buffer().len(), 24);
}

#[test]
fn pixel_defaults() {
    let p = Rgba8::default();
    assert_eq!((p.r, p.g, p.b, p.a), (0, 0, 0, 255));
    let p = Rgb8::default();
    assert_eq!((p.r, p.g, p.b), (0, 0, 0));
    let p = Rg8::default();
    assert_eq!((p.r, p.g), (0, 0));
    let p = R8::default();
    assert_eq!(p.r, 0);
}

#[test]
fn set_pixels_replaces_the_buffer() {
    let mut tex: Noisetex<R8> = Noisetex::new(2, 2, 1);
    let replacement = vec![R8 { r: 9 }, R8 { r: 8 }, R8 { r: 7 }, R8 { r: 6 }];
    tex.set_pixels(replacement);
    let got: Vec<u8> = tex.pixels().iter().map(|p| p.r).collect();
    assert_eq!(got, vec![9, 8, 7, 6]);
}

#[test]
fn empty_grid_fill_is_a_no_op() {
    let mut tex: Noisetex<R8> = Noisetex::new(0, 5, 5);
    tex.fill(|_info: NoisetexInfo, _xyz: UVec3| R8 { r: 1 });
    assert_eq!(tex.pixels().len(), 0);
    assert_eq!(tex.to_buffer(), Vec::<u8>::new());
}
