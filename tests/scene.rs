use glyph_sprites::animation::Interpolator;
use glyph_sprites::debug::{Binding, ShowSprite};
use glyph_sprites::framevec::FrameVec;
use glyph_sprites::position::Position;
use glyph_sprites::raster::{LoadError, Raster};
use glyph_sprites::sprite::Sprite;
use glyph_sprites::state::{DrawOp, State};
use glyph_sprites::texture::Rgb;

fn sheet(width: u32, height: u32, px: impl Fn(u32, u32) -> [u8; 4]) -> Raster {
    let mut bytes = Vec::new();
    for y in 0..height {
        for x in 0..width {
            bytes.extend_from_slice(&px(x, y));
        }
    }
    Raster::new(width, height, bytes).unwrap()
}

fn white_sprite(width: u32, height: u32) -> Sprite {
    let fv = FrameVec::from_image(&sheet(width, height, |_, _| [255, 255, 255, 255]), 1).unwrap();
    Sprite::new(fv)
}

#[test]
fn next_frame_cycles_over_three() {
    let img = sheet(6, 1, |x, _| [x as u8 * 40, 0, 0, 255]);
    let mut fv = FrameVec::from_image(&img, 3).unwrap();
    let mut seen = Vec::new();
    for _ in 0..7 {
        seen.push(fv.current_frame);
        fv.next_frame();
    }
    assert_eq!(seen, vec![0, 1, 2, 0, 1, 2, 0]);
    // Seven advances leave frame 1, which starts at sheet column 2.
    assert_eq!(fv.get_frame().get(0, 0).0.unwrap().0.r, 80);
}

#[test]
fn next_frame_stays_on_a_single_frame() {
    let mut fv = FrameVec::from_image(&sheet(2, 2, |_, _| [1, 2, 3, 255]), 1).unwrap();
    for _ in 0..5 {
        fv.next_frame();
        assert_eq!(fv.current_frame, 0);
    }
}

#[test]
fn frame_sizes() {
    let fv = FrameVec::from_image(&sheet(8, 3, |_, _| [0, 0, 0, 255]), 4).unwrap();
    assert_eq!(fv.frames.len(), 4);
    assert_eq!(fv.frame_width(), 2);
    assert_eq!(fv.frame_height(), 3);
}

#[test]
fn frame_count_errors() {
    let img = sheet(5, 2, |_, _| [0, 0, 0, 255]);
    assert!(matches!(FrameVec::from_image(&img, 0), Err(LoadError::ZeroFrameCount)));
    assert!(matches!(FrameVec::from_image(&img, 2), Err(LoadError::UnevenFrames)));
    assert!(FrameVec::from_image(&img, 5).is_ok());
}

#[test]
fn sprite_takes_frame_size() {
    let s = white_sprite(3, 2).set_pos(Position::new(4, 5)).resize(10, 10);
    assert_eq!((s.width, s.height), (3, 2));
    assert_eq!(s.position.property, Position::new(4, 5));
    assert_eq!(s.pixel_at(2, 1, ShowSprite::Final).0, Some((Rgb { r: 255, g: 255, b: 255 }, '@')));
}

#[test]
fn draw_places_cells_at_truncated_position() {
    let s = white_sprite(2, 1).set_pos(Position::new(3, 4));
    let state = State::new(vec![s]);
    let ops = state.draw_frame((80, 24), ShowSprite::Final);
    let white = Rgb { r: 255, g: 255, b: 255 };
    assert_eq!(
        ops,
        vec![DrawOp { x: 3, y: 4, color: white, glyph: '@' }, DrawOp { x: 4, y: 4, color: white, glyph: '@' }]
    );
}

#[test]
fn sprite_fully_outside_draws_nothing() {
    for pos in [Position::new(-5, 0), Position::new(80, 0), Position::new(0, -3), Position::new(0, 24)] {
        let state = State::new(vec![white_sprite(5, 3).set_pos(pos)]);
        assert!(state.draw_frame((80, 24), ShowSprite::Final).is_empty());
        assert!(state.draw_frame((80, 24), ShowSprite::Sobel).is_empty());
    }
}

#[test]
fn partly_visible_sprite_is_clipped() {
    let state = State::new(vec![white_sprite(3, 2).set_pos(Position::new(-2, 23))]);
    let ops = state.draw_frame((80, 24), ShowSprite::Final);
    assert_eq!(ops.len(), 1);
    assert_eq!((ops[0].x, ops[0].y), (0, 23));
}

#[test]
fn later_sprites_are_drawn_after_earlier_ones() {
    let a = white_sprite(1, 1).set_pos(Position::new(1, 1));
    let b = Sprite::new(FrameVec::from_image(&sheet(1, 1, |_, _| [0, 0, 0, 255]), 1).unwrap())
        .set_pos(Position::new(1, 1));
    let ops = State::new(vec![a, b]).draw_frame((10, 10), ShowSprite::Final);
    assert_eq!(ops.len(), 2);
    assert_eq!(ops[0].glyph, '@');
    assert_eq!(ops[1].glyph, '.');
}

#[test]
fn scene_update_moves_animated_sprites_only() {
    let mut state = State::new(vec![white_sprite(1, 1), white_sprite(1, 1).set_pos(Position::new(2, 2))]);
    state
        .get_sprite_mut(0)
        .position
        .set_animation(1000, Interpolator::linear(Position::zero(), Position::new(20, 0)));
    state.update(500);
    assert_eq!(state.sprites[0].position.property, Position::new(10, 0));
    assert_eq!(state.sprites[1].position.property, Position::new(2, 2));
}

#[test]
fn keys_switch_the_binding() {
    let mut b = Binding { is_animation_running: true, sprite_show_layer: ShowSprite::Sobel };
    assert!(!b.apply_key('s'));
    assert!(!b.is_animation_running);
    assert!(!b.apply_key('1'));
    assert_eq!(b.sprite_show_layer, ShowSprite::Final);
    assert!(!b.apply_key('2'));
    assert_eq!(b.sprite_show_layer, ShowSprite::Sobel);
    assert!(!b.apply_key('x'));
    assert_eq!(b, Binding { is_animation_running: false, sprite_show_layer: ShowSprite::Sobel });
    assert!(b.apply_key('q'));
}
