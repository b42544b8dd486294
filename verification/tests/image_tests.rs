use noisetex::image::pixel::{Pixel, PixelRgba8};
use noisetex::image::{index_to_xyz, Image};

#[test]
fn index_to_xyz_round_trips() {
    for i in 0usize..24 {
        let (x, y, z) = index_to_xyz(i, 4, 3);
        assert!(x < 4 && y < 3 && z < 2);
        assert_eq!(x + y * 4 + z * 12, i);
    }
    assert_eq!(index_to_xyz(0, 7, 5), (0, 0, 0));
    assert_eq!(index_to_xyz(6, 7, 5), (6, 0, 0));
    assert_eq!(index_to_xyz(7, 7, 5), (0, 1, 0));
    assert_eq!(index_to_xyz(35, 7, 5), (0, 0, 1));
}

#[test]
fn image_new_is_default_initialized() {
    let img: Image<PixelRgba8> = Image::new(2, 3, 1);
    assert_eq!(img.pixels().len(), 6);
    for p in img.pixels().iter() {
        assert_eq!((p.r, p.g, p.b, p.a), (0, 0, 0, 0));
    }
}

#[test]
fn image_fill_passes_decoded_coordinates() {
    let mut img: Image<PixelRgba8> = Image::new(4, 3, 2);
    img.fill(|x: usize, y: usize, z: usize| PixelRgba8 {
        r: x as u8,
        g: y as u8,
        b: z as u8,
        a: 255,
    });
    for (i, p) in img.pixels().iter().enumerate() {
        let (x, y, z) = index_to_xyz(i, 4, 3);
        assert_eq!((p.r as usize, p.g as usize, p.b as usize), (x, y, z));
        assert_eq!(p.a, 255);
    }
}

#[test]
fn image_to_buffer_interleaves_channels() {
    let mut img: Image<PixelRgba8> = Image::new(2, 1, 1);
    img.fill(|x: usize, _y: usize, _z: usize| PixelRgba8 {
        r: 10 + x as u8,
        g: 20 + x as u8,
        b: 30 + x as u8,
        a: 40 + x as u8,
    });
    assert_eq!(img.to_buffer(), vec![10, 20, 30, 40, 11, 21, 31, 41]);
}

#[test]
fn pixel_rgba8_writes_four_bytes() {
    let mut buffer = Vec::new();
    PixelRgba8 { r: 9, g: 8, b: 7, a: 6 }.write_to_buffer(&mut buffer);
    assert_eq!(buffer, vec![9, 8, 7, 6]);
}
