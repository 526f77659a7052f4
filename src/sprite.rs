use vstd::prelude::*;
use crate::animation::AnimateProperty;
use crate::debug::ShowSprite;
use crate::framevec::FrameVec;
use crate::position::Position;
use crate::texture::{Rgb, TexturePixel};

verus! {

/// A frame sequence placed at an animatable position.
pub struct Sprite {
    pub width: u32,
    pub height: u32,
    pub position: AnimateProperty<Position>,
    pub frame_vec: FrameVec,
}

impl Sprite {
    /// The frames are well formed and the sprite has their size.
    pub open spec fn wf(&self) -> bool {
        &&& self.frame_vec.wf()
        &&& self.width == self.frame_vec.frames@[0].width
        &&& self.height == self.frame_vec.frames@[0].height
    }

    /// The pixel of the current frame at local `(x, y)` in a render mode.
    pub open spec fn spec_pixel_at(&self, x: int, y: int, layer: ShowSprite) -> TexturePixel<Rgb> {
        self.frame_vec.frames@[self.frame_vec.current_frame as int].spec_draw_pixel(x, y, layer)
    }

    /// A sprite at the origin, with no animation.
    pub fn new(frame_vec: FrameVec) -> (r: Sprite)
        requires
            frame_vec.wf(),
        ensures
            r.wf(),
            r.frame_vec == frame_vec,
            r.position.property == Position::spec_zero(),
            r.position.animation.is_none(),
    {
        let width = frame_vec.frame_width();
        let height = frame_vec.frame_height();
        Sprite { position: AnimateProperty::new(Position::zero()), width, height, frame_vec }
    }

    pub fn set_pos(self, pos: Position) -> (r: Sprite)
        ensures
            r == (Sprite { position: AnimateProperty { property: pos, ..self.position }, ..self }),
    {
        let mut s = self;
        s.position.property = pos;
        s
    }

    /// Keeps the sprite as it is: frames are drawn at their own size.
    pub fn resize(self, width: u32, height: u32) -> (r: Sprite)
        ensures
            r == self,
    {
        self
    }

    pub fn pixel_at(&self, x: u32, y: u32, sprite_show_layer: ShowSprite) -> (r: TexturePixel<Rgb>)
        requires
            self.wf(),
            x < self.width,
            y < self.height,
        ensures
            r == self.spec_pixel_at(x as int, y as int, sprite_show_layer),
    {
        self.frame_vec.get_frame().get_draw_pixel(x, y, sprite_show_layer)
    }

    /// The sprite after its position is updated by `dt` milliseconds.
    pub open spec fn spec_updated(self, dt: u64) -> Sprite {
        Sprite { position: self.position.spec_updated(dt), ..self }
    }

    pub fn update(&mut self, dt: u64)
        ensures
            *final(self) == old(self).spec_updated(dt),
    {
        self.position.update(dt);
    }
}

} // verus!
