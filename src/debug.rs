use vstd::prelude::*;

verus! {

/// Which glyph grid a sprite is drawn from.
#[derive(Clone, Copy, Debug, PartialEq, Eq, Structural)]
pub enum ShowSprite {
    /// The luminance ramp grid.
    Final,
    /// The Sobel edge grid.
    Sobel,
}

/// The runtime switches: whether animations advance, and the render mode.
#[derive(Clone, Copy, Debug, PartialEq, Eq, Structural)]
pub struct Binding {
    pub is_animation_running: bool,
    pub sprite_show_layer: ShowSprite,
}

impl Binding {
    /// The switches after key `key`, and whether it asks to quit: `q` quits,
    /// `s` pauses or resumes animation, `1` selects the luminance grid and
    /// `2` the edge grid; other keys change nothing.
    pub open spec fn spec_apply_key(self, key: char) -> (Binding, bool) {
        if key == 'q' {
            (self, true)
        } else if key == 's' {
            (Binding { is_animation_running: !self.is_animation_running, ..self }, false)
        } else if key == '1' {
            (Binding { sprite_show_layer: ShowSprite::Final, ..self }, false)
        } else if key == '2' {
            (Binding { sprite_show_layer: ShowSprite::Sobel, ..self }, false)
        } else {
            (self, false)
        }
    }

    /// Applies a key press; returns whether it asks to quit.
    pub fn apply_key(&mut self, key: char) -> (quit: bool)
        ensures
            (*final(self), quit) == old(self).spec_apply_key(key),
    {
        if key == 'q' {
            true
        } else if key == 's' {
            self.is_animation_running = !self.is_animation_running;
            false
        } else if key == '1' {
            self.sprite_show_layer = ShowSprite::Final;
            false
        } else if key == '2' {
            self.sprite_show_layer = ShowSprite::Sobel;
            false
        } else {
            false
        }
    }
}

} // verus!
