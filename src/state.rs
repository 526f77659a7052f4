use vstd::prelude::*;
use crate::debug::ShowSprite;
use crate::sprite::Sprite;
use crate::texture::Rgb;

verus! {

/// One glyph to draw: move to `(x, y)`, set the colour, print the glyph.
#[derive(Clone, Copy, Debug, PartialEq, Eq, Structural)]
pub struct DrawOp {
    pub x: u16,
    pub y: u16,
    pub color: Rgb,
    pub glyph: char,
}

/// The draw operation for local pixel `(w, h)` of a sprite on a surface of
/// `size` columns and rows: none when the cell falls outside the surface or
/// the pixel is transparent.
pub open spec fn spec_cell_op(s: Sprite, size: (u16, u16), layer: ShowSprite, w: int, h: int) -> Option<DrawOp> {
    let cx = s.position.property.cell_x() + w;
    let cy = s.position.property.cell_y() + h;
    if cx < 0 || cx >= size.0 || cy < 0 || cy >= size.1 {
        None
    } else {
        match s.spec_pixel_at(w, h, layer).0 {
            Some((c, g)) => Some(DrawOp { x: cx as u16, y: cy as u16, color: c, glyph: g }),
            None => None,
        }
    }
}

pub open spec fn spec_cell_ops(s: Sprite, size: (u16, u16), layer: ShowSprite, w: int, h: int) -> Seq<DrawOp> {
    match spec_cell_op(s, size, layer, w, h) {
        Some(op) => seq![op],
        None => Seq::empty(),
    }
}

/// The operations for rows `0..rows` of column `w`.
pub open spec fn spec_column_ops(s: Sprite, size: (u16, u16), layer: ShowSprite, w: int, rows: int) -> Seq<DrawOp>
    decreases rows,
{
    if rows <= 0 {
        Seq::empty()
    } else {
        spec_column_ops(s, size, layer, w, rows - 1) + spec_cell_ops(s, size, layer, w, rows - 1)
    }
}

/// The operations for columns `0..cols` of a sprite, column by column.
pub open spec fn spec_columns_ops(s: Sprite, size: (u16, u16), layer: ShowSprite, cols: int) -> Seq<DrawOp>
    decreases cols,
{
    if cols <= 0 {
        Seq::empty()
    } else {
        spec_columns_ops(s, size, layer, cols - 1) + spec_column_ops(s, size, layer, cols - 1, s.height as int)
    }
}

/// Every operation of a sprite.
pub open spec fn spec_sprite_ops(s: Sprite, size: (u16, u16), layer: ShowSprite) -> Seq<DrawOp> {
    spec_columns_ops(s, size, layer, s.width as int)
}

/// Every operation of a scene: the sprites in order, later ones drawn over
/// earlier ones.
pub open spec fn spec_scene_ops(sprites: Seq<Sprite>, size: (u16, u16), layer: ShowSprite) -> Seq<DrawOp>
    decreases sprites.len(),
{
    if sprites.len() == 0 {
        Seq::empty()
    } else {
        spec_scene_ops(sprites.drop_last(), size, layer) + spec_sprite_ops(sprites.last(), size, layer)
    }
}

/// All sprites of the scene, in drawing order.
pub struct State {
    pub sprites: Vec<Sprite>,
}

impl State {
    pub open spec fn wf(&self) -> bool {
        forall|i: int| 0 <= i < self.sprites@.len() ==> (#[trigger] self.sprites@[i]).wf()
    }

    pub fn new(sprites: Vec<Sprite>) -> (r: State)
        ensures
            r.sprites == sprites,
    {
        State { sprites }
    }

    /// Advances every sprite's animation by `dt` milliseconds.
    pub fn update(&mut self, dt: u64)
        ensures
            final(self).sprites@.len() == old(self).sprites@.len(),
            forall|i: int|
                0 <= i < old(self).sprites@.len() ==> #[trigger] final(self).sprites@[i]
                    == old(self).sprites@[i].spec_updated(dt),
    {
        let n = self.sprites.len();
        let mut i: usize = 0;
        while i < n
            invariant
                n == old(self).sprites@.len(),
                self.sprites@.len() == n,
                i <= n,
                forall|j: int| 0 <= j < i ==> #[trigger] self.sprites@[j] == old(self).sprites@[j].spec_updated(dt),
                forall|j: int| i <= j < n ==> #[trigger] self.sprites@[j] == old(self).sprites@[j],
            decreases n - i,
        {
            self.sprites[i].update(dt);
            i += 1;
        }
    }

    /// The cells of one frame: for each sprite in order, each local pixel
    /// column by column, the visible non-transparent ones.
    pub fn draw_frame(&self, terminal_size: (u16, u16), sprite_show_layer: ShowSprite) -> (r: Vec<DrawOp>)
        requires
            self.wf(),
        ensures
            r@ == spec_scene_ops(self.sprites@, terminal_size, sprite_show_layer),
    {
        let mut ops: Vec<DrawOp> = Vec::new();
        let mut i: usize = 0;
        while i < self.sprites.len()
            invariant
                self.wf(),
                i <= self.sprites@.len(),
                ops@ == spec_scene_ops(self.sprites@.subrange(0, i as int), terminal_size, sprite_show_layer),
            decreases self.sprites@.len() - i,
        {
            self.draw_sprite(&mut ops, terminal_size, i, sprite_show_layer);
            proof {
                let next = self.sprites@.subrange(0, i + 1);
                assert(next.drop_last() =~= self.sprites@.subrange(0, i as int));
            }
            i += 1;
        }
        assert(self.sprites@.subrange(0, i as int) =~= self.sprites@);
        ops
    }

    fn draw_sprite(&self, ops: &mut Vec<DrawOp>, terminal_size: (u16, u16), sprite_id: usize, sprite_show_layer: ShowSprite)
        requires
            self.wf(),
            sprite_id < self.sprites@.len(),
        ensures
            final(ops)@ == old(ops)@ + spec_sprite_ops(self.sprites@[sprite_id as int], terminal_size, sprite_show_layer),
    {
        let sprite = &self.sprites[sprite_id];
        let ghost s = *sprite;
        let px = sprite.position.property.x_i32() as i64;
        let py = sprite.position.property.y_i32() as i64;
        let ghost start = ops@;
        let mut w: u32 = 0;
        while w < sprite.width
            invariant
                sprite.wf(),
                s == *sprite,
                px == s.position.property.cell_x(),
                py == s.position.property.cell_y(),
                w <= s.width,
                ops@ == start + spec_columns_ops(s, terminal_size, sprite_show_layer, w as int),
            decreases s.width - w,
        {
            let ghost col_start = ops@;
            let mut h: u32 = 0;
            while h < sprite.height
                invariant
                    sprite.wf(),
                    s == *sprite,
                    px == s.position.property.cell_x(),
                    py == s.position.property.cell_y(),
                    w < s.width,
                    h <= s.height,
                    ops@ == col_start + spec_column_ops(s, terminal_size, sprite_show_layer, w as int, h as int),
                decreases s.height - h,
            {
                let ghost before = ops@;
                let cx = px + w as i64;
                let cy = py + h as i64;
                if !(cx < 0 || cx >= terminal_size.0 as i64 || cy < 0 || cy >= terminal_size.1 as i64) {
                    let p = sprite.pixel_at(w, h, sprite_show_layer);
                    if let Some((color, c)) = p.0 {
                        let op = DrawOp { x: cx as u16, y: cy as u16, color, glyph: c };
                        assert(spec_cell_op(s, terminal_size, sprite_show_layer, w as int, h as int) == Some(op));
                        ops.push(op);
                    }
                }
                proof {
                    assert(ops@ =~= before + spec_cell_ops(s, terminal_size, sprite_show_layer, w as int, h as int));
                    assert(spec_column_ops(s, terminal_size, sprite_show_layer, w as int, h + 1)
                        == spec_column_ops(s, terminal_size, sprite_show_layer, w as int, h as int)
                        + spec_cell_ops(s, terminal_size, sprite_show_layer, w as int, h as int));
                    assert(ops@ =~= col_start + spec_column_ops(s, terminal_size, sprite_show_layer, w as int, h + 1));
                }
                h += 1;
            }
            assert(ops@ =~= start + spec_columns_ops(s, terminal_size, sprite_show_layer, w + 1));
            w += 1;
        }
    }

    pub fn get_sprite_mut(&mut self, id: usize) -> (r: &mut Sprite)
        requires
            id < old(self).sprites@.len(),
        ensures
            *r == old(self).sprites@[id as int],
            final(self).sprites@ == old(self).sprites@.update(id as int, *final(r)),
    {
        &mut self.sprites[id]
    }
}


/// No cell of the sprite lands on a surface of `size` columns and rows.
pub open spec fn spec_fully_outside(s: Sprite, size: (u16, u16)) -> bool {
    let x = s.position.property.cell_x();
    let y = s.position.property.cell_y();
    x + s.width <= 0 || x >= size.0 || y + s.height <= 0 || y >= size.1
}

proof fn lemma_column_outside(s: Sprite, size: (u16, u16), layer: ShowSprite, w: int, rows: int)
    requires
        spec_fully_outside(s, size),
        0 <= w < s.width,
        rows <= s.height,
    ensures
        spec_column_ops(s, size, layer, w, rows) == Seq::<DrawOp>::empty(),
    decreases rows,
{
    if rows > 0 {
        lemma_column_outside(s, size, layer, w, rows - 1);
        assert(spec_column_ops(s, size, layer, w, rows) =~= Seq::<DrawOp>::empty());
    }
}

proof fn lemma_columns_outside(s: Sprite, size: (u16, u16), layer: ShowSprite, cols: int)
    requires
        spec_fully_outside(s, size),
        cols <= s.width,
    ensures
        spec_columns_ops(s, size, layer, cols) == Seq::<DrawOp>::empty(),
    decreases cols,
{
    if cols > 0 {
        lemma_columns_outside(s, size, layer, cols - 1);
        lemma_column_outside(s, size, layer, cols - 1, s.height as int);
        assert(spec_columns_ops(s, size, layer, cols) =~= Seq::<DrawOp>::empty());
    }
}

/// A sprite that lies wholly off the surface yields no draw operation.
pub proof fn lemma_sprite_outside_draws_nothing(s: Sprite, size: (u16, u16), layer: ShowSprite)
    requires
        spec_fully_outside(s, size),
    ensures
        spec_sprite_ops(s, size, layer) == Seq::<DrawOp>::empty(),
{
    lemma_columns_outside(s, size, layer, s.width as int);
}

/// Sprites wholly off the surface add nothing to a frame: a scene draws
/// exactly what it draws without them.
pub proof fn lemma_scene_skips_outside_sprites(sprites: Seq<Sprite>, size: (u16, u16), layer: ShowSprite)
    ensures
        spec_scene_ops(sprites, size, layer) == spec_scene_ops(
            sprites.filter(|s: Sprite| !spec_fully_outside(s, size)),
            size,
            layer,
        ),
    decreases sprites.len(),
{
    let keep = |s: Sprite| !spec_fully_outside(s, size);
    reveal(Seq::filter);
    if sprites.len() == 0 {
        assert(sprites.filter(keep) == sprites);
    } else {
        let init = sprites.drop_last();
        lemma_scene_skips_outside_sprites(init, size, layer);
        if spec_fully_outside(sprites.last(), size) {
            lemma_sprite_outside_draws_nothing(sprites.last(), size, layer);
            assert(spec_scene_ops(sprites, size, layer) =~= spec_scene_ops(init, size, layer));
            assert(sprites.filter(keep) == init.filter(keep));
        } else {
            let kept = sprites.filter(keep);
            assert(kept == init.filter(keep).push(sprites.last()));
            assert(kept.drop_last() =~= init.filter(keep));
        }
    }
}

} // verus!
