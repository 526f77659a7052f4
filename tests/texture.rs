use glyph_sprites::debug::ShowSprite;
use glyph_sprites::raster::{LoadError, Raster};
use glyph_sprites::sobel::grayscale_transform;
use glyph_sprites::texture::{
    glyph_index, lightness, ramp_char, EdgePiece, Rgb, Texture, TexturePixel, LIGHTNESS_MAX, RAMP_LEN,
};

fn raster_from(width: u32, height: u32, px: impl Fn(u32, u32) -> [u8; 4]) -> Raster {
    let mut bytes = Vec::new();
    for y in 0..height {
        for x in 0..width {
            bytes.extend_from_slice(&px(x, y));
        }
    }
    Raster::new(width, height, bytes).unwrap()
}

fn edge_at(t: &Texture<Rgb>, x: u32, y: u32) -> Option<(EdgePiece, char)> {
    t.edge_texture[(y * t.width + x) as usize].0
}

#[test]
fn glyph_index_ends_of_the_ramp() {
    assert_eq!(glyph_index(0), 0);
    assert_eq!(glyph_index(LIGHTNESS_MAX), RAMP_LEN - 1);
}

#[test]
fn glyph_index_never_decreases() {
    let mut last = 0;
    for l in 0..=LIGHTNESS_MAX {
        let i = glyph_index(l);
        assert!(i >= last);
        assert!(i < RAMP_LEN);
        last = i;
    }
}

#[test]
fn glyph_index_exact_values() {
    assert_eq!(glyph_index(50), 0);
    assert_eq!(glyph_index(51), 1);
    assert_eq!(glyph_index(256), 5);
    assert_eq!(glyph_index(509), 9);
}

#[test]
fn lightness_is_max_plus_min() {
    assert_eq!(lightness(0, 0, 0), 0);
    assert_eq!(lightness(255, 255, 255), 510);
    assert_eq!(lightness(10, 200, 30), 210);
}

#[test]
fn glyph_index_matches_hsl_lightness() {
    for r in (0..=255u32).step_by(17) {
        for g in (0..=255u32).step_by(51) {
            for b in (0..=255u32).step_by(85) {
                let hsl: colorsys::Hsl = colorsys::Rgb::from(&(r as u8, g as u8, b as u8)).into();
                let scaled = RAMP_LEN as f64 * hsl.lightness() / 100.0;
                if (scaled - scaled.round()).abs() < 1e-9 {
                    continue;
                }
                let expected = (scaled.floor() as usize).min(RAMP_LEN - 1);
                assert_eq!(glyph_index(lightness(r as u8, g as u8, b as u8)), expected);
            }
        }
    }
}

#[test]
fn luminance_pixels() {
    assert!(TexturePixel::new((10, 20, 30, 254)).0.is_none());
    assert_eq!(TexturePixel::new((0, 0, 0, 255)).0, Some((Rgb { r: 0, g: 0, b: 0 }, '.')));
    assert_eq!(TexturePixel::new((255, 255, 255, 255)).0, Some((Rgb { r: 255, g: 255, b: 255 }, '@')));
    assert_eq!(TexturePixel::new((128, 128, 128, 255)).0, Some((Rgb { r: 128, g: 128, b: 128 }, 'O')));
    assert_eq!(ramp_char(3), 'o');
}

#[test]
fn grayscale_weights() {
    let p = TexturePixel::new_tuple(Rgb { r: 10, g: 20, b: 30 }, 'x');
    assert_eq!(grayscale_transform(&p).0, Some((18150, 'x')));
    let white = TexturePixel::new_tuple(Rgb { r: 255, g: 255, b: 255 }, '@');
    assert_eq!(grayscale_transform(&white).0, Some((255000, '@')));
    assert!(grayscale_transform(&TexturePixel::<Rgb>::empty()).0.is_none());
}

#[test]
fn pixel_or_defaults() {
    let p = TexturePixel::new_tuple(7u32, 'k');
    assert_eq!(p.color_or(0), 7);
    assert_eq!(p.char_or('z'), 'k');
    let e = TexturePixel::<u32>::empty();
    assert_eq!(e.color_or(3), 3);
    assert_eq!(e.char_or('z'), 'z');
}

#[test]
fn raster_rejects_wrong_buffer_size() {
    assert!(matches!(Raster::new(2, 2, vec![0; 15]), Err(LoadError::BufferSize)));
    assert!(Raster::new(2, 2, vec![0; 16]).is_ok());
}

#[test]
fn frame_slicing_is_row_major_per_frame() {
    // Two frames of 2x2; the red channel records the sheet column.
    let sheet = raster_from(4, 2, |x, _y| [x as u8 * 60, 0, 0, 255]);
    let t = Texture::from_image(&sheet, 1, 2);
    assert_eq!(t.width, 2);
    assert_eq!(t.height, 2);
    assert_eq!(t.get(0, 1).0.unwrap().0.r, 120);
    assert_eq!(t.get(1, 0).0.unwrap().0.r, 180);
    assert_eq!(t.position(3), (1, 1));
    assert_eq!(t.position(2), (0, 1));
}

#[test]
fn uniform_frame_has_no_interior_edges() {
    let sheet = raster_from(5, 5, |_, _| [90, 140, 200, 255]);
    let t = Texture::from_image(&sheet, 0, 1);
    for y in 1..4 {
        for x in 1..4 {
            assert!(edge_at(&t, x, y).is_none());
        }
    }
    // Zero padding makes the border of a non-black frame an edge.
    assert!(edge_at(&t, 0, 2).is_some());
}

#[test]
fn uniform_black_or_transparent_frame_has_no_edges() {
    for px in [[0, 0, 0, 255], [200, 10, 10, 0]] {
        let sheet = raster_from(4, 3, move |_, _| px);
        let t = Texture::from_image(&sheet, 0, 1);
        assert!(t.edge_texture.iter().all(|p| p.0.is_none()));
    }
}

#[test]
fn vertical_step_is_horizontal_edge() {
    let sheet = raster_from(6, 4, |x, _| if x < 3 { [0, 0, 0, 255] } else { [255, 255, 255, 255] });
    let t = Texture::from_image(&sheet, 0, 1);
    for y in 1..3 {
        assert_eq!(edge_at(&t, 2, y), Some((EdgePiece::Horizontal, '-')));
        assert_eq!(edge_at(&t, 3, y), Some((EdgePiece::Horizontal, '-')));
        assert!(edge_at(&t, 0, y).is_none());
        assert!(edge_at(&t, 5, y).is_some());
    }
}

#[test]
fn horizontal_step_is_vertical_edge() {
    let sheet = raster_from(4, 6, |_, y| if y < 3 { [0, 0, 0, 255] } else { [255, 255, 255, 255] });
    let t = Texture::from_image(&sheet, 0, 1);
    for x in 1..3 {
        assert_eq!(edge_at(&t, x, 2), Some((EdgePiece::Vertical, '|')));
        assert_eq!(edge_at(&t, x, 3), Some((EdgePiece::Vertical, '|')));
    }
}

#[test]
fn diagonal_gradients_are_dashes() {
    // A single bright pixel in the centre of a dark 3x3 frame.
    let sheet = raster_from(3, 3, |x, y| if x == 1 && y == 1 { [255, 255, 255, 255] } else { [0, 0, 0, 255] });
    let t = Texture::from_image(&sheet, 0, 1);
    // Top-left neighbour: gx = -W, gy = -W, angle -3pi/4.
    assert_eq!(edge_at(&t, 0, 0), Some((EdgePiece::DashRight, '/')));
    // Top-right neighbour: gx = W, gy = -W, angle -pi/4.
    assert_eq!(edge_at(&t, 2, 0), Some((EdgePiece::DashLeft, '\\')));
    // Bottom-left: gx = -W, gy = W, angle 3pi/4.
    assert_eq!(edge_at(&t, 0, 2), Some((EdgePiece::DashLeft, '\\')));
    // Bottom-right: gx = W, gy = W, angle pi/4.
    assert_eq!(edge_at(&t, 2, 2), Some((EdgePiece::DashRight, '/')));
    // The centre: all gradients cancel.
    assert!(edge_at(&t, 1, 1).is_none());
}

#[test]
fn draw_pixel_modes() {
    let sheet = raster_from(6, 4, |x, _| if x < 3 { [0, 0, 0, 255] } else { [255, 255, 255, 255] });
    let t = Texture::from_image(&sheet, 0, 1);
    assert_eq!(t.get_draw_pixel(3, 1, ShowSprite::Final).0, Some((Rgb { r: 255, g: 255, b: 255 }, '@')));
    assert_eq!(t.get_draw_pixel(2, 1, ShowSprite::Final).0, Some((Rgb { r: 0, g: 0, b: 0 }, '.')));
    assert_eq!(t.get_draw_pixel(2, 1, ShowSprite::Sobel).0, Some((Rgb { r: 255, g: 255, b: 255 }, '-')));
    assert!(t.get_draw_pixel(0, 1, ShowSprite::Sobel).0.is_none());
}
