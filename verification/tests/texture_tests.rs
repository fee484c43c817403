use rastr::fx::FX_ONE;
use rastr::math::{Float2, Float3};
use rastr::texture::{byte_unit, texture_from_indexed, Texture};

#[test]
fn new_filled_and_fill() {
    let mut t: Texture<i64> = Texture::new_filled(4, 3, 7);
    assert_eq!(t.width, 4);
    assert_eq!(t.height, 3);
    assert_eq!(t.image.len(), 12);
    assert!(t.image.iter().all(|v| *v == 7));
    t.fill(FX_ONE);
    assert!(t.image.iter().all(|v| *v == FX_ONE));
}

#[test]
fn new_uses_default_pixel() {
    let t: Texture<Float3> = Texture::new(2, 2);
    assert_eq!(t.image.len(), 4);
    assert_eq!(t.image[0], Float3::zeros());
}

#[test]
fn sample_flips_v_and_clamps() {
    // two rows: top row red-ish, bottom row blue-ish
    let top = Float3::new(FX_ONE, 0, 0);
    let bottom = Float3::new(0, 0, FX_ONE);
    let t = Texture { width: 2, height: 2, image: vec![top, top, bottom, bottom] };
    // texture space starts at the bottom left, storage at the top left
    assert_eq!(t.sample(Float2::new(0, 0)), bottom);
    assert_eq!(t.sample(Float2::new(0, FX_ONE)), top);
    // out-of-range coordinates clamp instead of failing
    assert_eq!(t.sample(Float2::new(-5 * FX_ONE, -5 * FX_ONE)), bottom);
    assert_eq!(t.sample(Float2::new(5 * FX_ONE, 5 * FX_ONE)), top);
}

#[test]
fn byte_unit_rescales() {
    assert_eq!(byte_unit(0), 0);
    assert_eq!(byte_unit(255), FX_ONE);
    assert_eq!(byte_unit(128), 32896);
}

#[test]
fn indexed_texture_maps_palette() {
    let palette = vec![255u8, 0, 0, 0, 255, 0];
    let pixels = vec![0u8, 1, 1, 0];
    let t = texture_from_indexed(2, 2, &pixels, &palette).unwrap();
    assert_eq!(t.image[0], Float3::new(FX_ONE, 0, 0));
    assert_eq!(t.image[1], Float3::new(0, FX_ONE, 0));
    assert_eq!(t.image[3], Float3::new(FX_ONE, 0, 0));
}

#[test]
fn indexed_texture_rejects_bad_input() {
    let palette = vec![255u8, 0, 0];
    // an index beyond the palette
    assert!(texture_from_indexed(1, 1, &vec![1u8], &palette).is_none());
    // a pixel count that does not match the dimensions
    assert!(texture_from_indexed(2, 2, &vec![0u8; 3], &palette).is_none());
    // an empty texture
    assert!(texture_from_indexed(0, 1, &vec![], &palette).is_none());
}

#[test]
fn png_round_trip_through_decoder() {
    // encode a two-by-one palette-indexed image and decode it back
    let palette = [10u8, 20, 30, 200, 150, 100];
    let mut bytes: Vec<u8> = Vec::new();
    {
        let mut encoder = png::Encoder::new(&mut bytes, 2, 1);
        encoder.set_color(png::ColorType::Indexed);
        encoder.set_depth(png::BitDepth::Eight);
        encoder.set_palette(&palette[..]);
        let mut writer = encoder.write_header().unwrap();
        writer.write_image_data(&[0u8, 1]).unwrap();
    }
    let t = Texture::from_png(&bytes).unwrap();
    assert_eq!(t.width, 2);
    assert_eq!(t.height, 1);
    assert_eq!(t.image[0], Float3::new(byte_unit(10), byte_unit(20), byte_unit(30)));
    assert_eq!(t.image[1], Float3::new(byte_unit(200), byte_unit(150), byte_unit(100)));
}

#[test]
fn from_png_rejects_garbage() {
    assert!(Texture::from_png(&vec![1u8, 2, 3, 4]).is_none());
}
