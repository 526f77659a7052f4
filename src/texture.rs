use vstd::prelude::*;
use crate::debug::ShowSprite;
use crate::raster::{grid_index, lemma_grid_index_bound, Raster};
use crate::sobel::{sobel, spec_sobel};

verus! {

/// A foreground colour.
#[derive(Clone, Copy, Debug, PartialEq, Eq, Structural)]
pub struct Rgb {
    pub r: u8,
    pub g: u8,
    pub b: u8,
}

/// The colour given to edge glyphs, which carry none of their own: white.
pub open spec fn spec_edge_color() -> Rgb {
    Rgb { r: 255, g: 255, b: 255 }
}

pub fn edge_color() -> (c: Rgb)
    ensures
        c == spec_edge_color(),
{
    Rgb { r: 255, g: 255, b: 255 }
}

/// A glyph with its payload, or `None` for a transparent cell.
#[derive(Clone, Copy, Debug)]
pub struct TexturePixel<T>(pub Option<(T, char)>);

/// The orientation class of an edge pixel.
#[derive(Clone, Copy, Debug, PartialEq, Eq, Structural)]
pub enum EdgePiece {
    Vertical,
    Horizontal,
    DashRight,
    DashLeft,
}

pub const HORIZONTAL_CHAR: char = '-';
pub const VERTICAL_CHAR: char = '|';
pub const DASHRIGHT_CHAR: char = '/';
pub const DASHLEFT_CHAR: char = '\\';

/// Number of glyphs in the luminance ramp.
pub const RAMP_LEN: usize = 10;

/// Lightness is measured as `max + min` of the three channels: `0..=510`
/// stands for HSL lightness `0..=100` percent.
pub const LIGHTNESS_MAX: u32 = 510;

/// The luminance ramp, from sparse to dense.
pub open spec fn spec_ramp() -> Seq<char> {
    seq!['.', ';', 'c', 'o', 'P', 'O', '?', '#', '%', '@']
}

pub fn ramp_char(i: usize) -> (c: char)
    requires
        i < RAMP_LEN,
    ensures
        c == spec_ramp()[i as int],
{
    match i {
        0 => '.',
        1 => ';',
        2 => 'c',
        3 => 'o',
        4 => 'P',
        5 => 'O',
        6 => '?',
        7 => '#',
        8 => '%',
        _ => '@',
    }
}

pub open spec fn max3(a: int, b: int, c: int) -> int {
    if a >= b && a >= c {
        a
    } else if b >= c {
        b
    } else {
        c
    }
}

pub open spec fn min3(a: int, b: int, c: int) -> int {
    if a <= b && a <= c {
        a
    } else if b <= c {
        b
    } else {
        c
    }
}

/// HSL lightness of a colour on the `0..=LIGHTNESS_MAX` scale.
pub open spec fn spec_lightness(r: u8, g: u8, b: u8) -> int {
    max3(r as int, g as int, b as int) + min3(r as int, g as int, b as int)
}

pub fn lightness(r: u8, g: u8, b: u8) -> (l: u32)
    ensures
        l == spec_lightness(r, g, b),
        l <= LIGHTNESS_MAX,
{
    let hi = if r >= g && r >= b { r } else if g >= b { g } else { b };
    let lo = if r <= g && r <= b { r } else if g <= b { g } else { b };
    hi as u32 + lo as u32
}

/// `floor(RAMP_LEN * lightness / 100%)`, held at the last glyph.
pub open spec fn spec_glyph_index(l: int) -> int {
    let i = (RAMP_LEN as int) * l / (LIGHTNESS_MAX as int);
    if i > RAMP_LEN - 1 {
        RAMP_LEN - 1
    } else {
        i
    }
}

pub fn glyph_index(lightness: u32) -> (i: usize)
    requires
        lightness <= LIGHTNESS_MAX,
    ensures
        i == spec_glyph_index(lightness as int),
        i < RAMP_LEN,
{
    let i = RAMP_LEN * (lightness as usize) / (LIGHTNESS_MAX as usize);
    if i > RAMP_LEN - 1 {
        RAMP_LEN - 1
    } else {
        i
    }
}

/// The ramp index is zero at lightness 0, the last index at full
/// lightness, and never decreases as lightness grows.
pub proof fn lemma_glyph_index_monotonic(l1: int, l2: int)
    requires
        0 <= l1 <= l2 <= LIGHTNESS_MAX,
    ensures
        spec_glyph_index(0) == 0,
        spec_glyph_index(LIGHTNESS_MAX as int) == RAMP_LEN - 1,
        0 <= spec_glyph_index(l1) <= spec_glyph_index(l2) <= RAMP_LEN - 1,
{
    assert((RAMP_LEN as int) * l1 <= (RAMP_LEN as int) * l2) by (nonlinear_arith)
        requires l1 <= l2;
    vstd::arithmetic::div_mod::lemma_div_is_ordered(
        (RAMP_LEN as int) * l1,
        (RAMP_LEN as int) * l2,
        LIGHTNESS_MAX as int,
    );
    vstd::arithmetic::div_mod::lemma_div_pos_is_pos((RAMP_LEN as int) * l1, LIGHTNESS_MAX as int);
}

/// The luminance glyph for an `(r, g, b, a)` pixel: transparent unless fully
/// opaque, else the colour with its ramp glyph.
pub open spec fn spec_luma_pixel(p: (u8, u8, u8, u8)) -> TexturePixel<Rgb> {
    if p.3 < 255 {
        TexturePixel(None)
    } else {
        TexturePixel(
            Some(
                (
                    Rgb { r: p.0, g: p.1, b: p.2 },
                    spec_ramp()[spec_glyph_index(spec_lightness(p.0, p.1, p.2))],
                ),
            ),
        )
    }
}

impl TexturePixel<Rgb> {
    pub fn new(pixel: (u8, u8, u8, u8)) -> (r: TexturePixel<Rgb>)
        ensures
            r == spec_luma_pixel(pixel),
    {
        if pixel.3 < u8::MAX {
            return TexturePixel(None);
        }
        let c = ramp_char(glyph_index(lightness(pixel.0, pixel.1, pixel.2)));
        TexturePixel::new_tuple(Rgb { r: pixel.0, g: pixel.1, b: pixel.2 }, c)
    }
}

impl<T> TexturePixel<T> {
    pub fn new_tuple(color: T, c: char) -> (r: TexturePixel<T>)
        ensures
            r == TexturePixel(Some((color, c))),
    {
        TexturePixel(Some((color, c)))
    }

    pub fn empty() -> (r: TexturePixel<T>)
        ensures
            r == TexturePixel::<T>(None),
    {
        TexturePixel(None)
    }

    pub fn color_or(&self, default: T) -> (r: T)
        where T: Copy
        ensures
            r == (match self.0 {
                Some((c, _)) => c,
                None => default,
            }),
    {
        if let Some((color, _)) = self.0 {
            color
        } else {
            default
        }
    }

    pub fn char_or(&self, default: char) -> (r: char)
        ensures
            r == (match self.0 {
                Some((_, c)) => c,
                None => default,
            }),
    {
        if let Some((_, c)) = &self.0 {
            *c
        } else {
            default
        }
    }
}

/// A grid of glyph pixels, row-major, with the Sobel edge grid of the same
/// shape beside it.
pub struct Texture<T> {
    pub width: u32,
    pub height: u32,
    pub data: Vec<TexturePixel<T>>,
    pub edge_texture: Vec<TexturePixel<EdgePiece>>,
}

/// Splits a row-major index into its column and row.
pub proof fn lemma_split_index(i: int, w: int, h: int)
    requires
        w > 0,
        0 <= i < w * h,
    ensures
        0 <= i % w < w,
        0 <= i / w < h,
        grid_index(w, i % w, i / w) == i,
{
    vstd::arithmetic::div_mod::lemma_fundamental_div_mod(i, w);
    vstd::arithmetic::div_mod::lemma_mod_pos_bound(i, w);
    vstd::arithmetic::div_mod::lemma_div_pos_is_pos(i, w);
    assert(w * (i / w) == (i / w) * w) by (nonlinear_arith);
    if i / w >= h {
        assert((i / w) * w >= h * w) by (nonlinear_arith)
            requires i / w >= h, w > 0;
        assert(h * w == w * h) by (nonlinear_arith);
        assert(false);
    }
}

/// The column and row of a row-major index are recovered from it.
pub proof fn lemma_join_index(x: int, y: int, w: int)
    requires
        0 <= x < w,
        0 <= y,
    ensures
        grid_index(w, x, y) % w == x,
        grid_index(w, x, y) / w == y,
{
    vstd::arithmetic::div_mod::lemma_fundamental_div_mod_converse(y * w + x, w, y, x);
}

impl<T> Texture<T> {
    pub open spec fn wf(&self) -> bool {
        self.data@.len() == (self.width as int) * (self.height as int)
    }

    /// The pixel at column `x`, row `y`.
    pub fn get(&self, x: u32, y: u32) -> (r: &TexturePixel<T>)
        requires
            self.wf(),
            0 <= x < self.width,
            0 <= y < self.height,
        ensures
            *r == self.data@[grid_index(self.width as int, x as int, y as int)],
    {
        let n = self.data.len();
        proof {
            lemma_grid_index_bound(self.width as int, self.height as int, x as int, y as int);
            assert((y as int) * (self.width as int) <= grid_index(self.width as int, x as int, y as int));
        }
        &self.data[y as usize * self.width as usize + x as usize]
    }

    /// The column and row of index `ix`.
    pub fn position(&self, ix: usize) -> (r: (u32, u32))
        requires
            self.wf(),
            ix < self.data@.len(),
        ensures
            r.0 as int == ix as int % self.width as int,
            r.1 as int == ix as int / self.width as int,
            r.0 < self.width,
            r.1 < self.height,
    {
        proof {
            if self.width == 0 {
                assert(self.data@.len() == 0);
            }
            lemma_split_index(ix as int, self.width as int, self.height as int);
        }
        ((ix % self.width as usize) as u32, (ix / self.width as usize) as u32)
    }
}

/// The luminance grid of frame `f` of a sheet cut into `n` frames of
/// `width / n` columns each.
pub open spec fn spec_frame_data(image: Raster, f: int, n: int) -> Seq<TexturePixel<Rgb>> {
    let fw = image.width as int / n;
    Seq::new(
        (fw * image.height as int) as nat,
        |i: int| spec_luma_pixel(image.spec_pixel(f * fw + i % fw, i / fw)),
    )
}

proof fn lemma_frame_column(f: int, n: int, fw: int, x: int, width: int)
    requires
        0 <= f < n,
        0 <= x < fw,
        fw == width / n,
        0 <= width,
    ensures
        0 <= f * fw + x < width,
{
    vstd::arithmetic::div_mod::lemma_fundamental_div_mod(width, n);
    vstd::arithmetic::div_mod::lemma_mod_pos_bound(width, n);
    assert(0 <= f * fw + x < n * fw) by (nonlinear_arith)
        requires 0 <= f < n, 0 <= x < fw;
}

impl Texture<Rgb> {
    /// Frame `current_frame` of a sheet cut into `frame_count` equal,
    /// full-height slices, as a luminance texture with its edge grid.
    pub fn from_image(image: &Raster, current_frame: u32, frame_count: u32) -> (r: Texture<Rgb>)
        requires
            image.wf(),
            0 < frame_count,
            current_frame < frame_count,
        ensures
            r.width == image.width / frame_count,
            r.height == image.height,
            r.wf(),
            r.data@ == spec_frame_data(*image, current_frame as int, frame_count as int),
            r.edge_texture@ == spec_sobel(r.data@, r.width as int, r.height as int),
    {
        let frame_width = image.width / frame_count;
        let frame_height = image.height;
        let ghost fw = frame_width as int;
        let ghost h = frame_height as int;
        let ghost f = current_frame as int;
        let len = image.rgba.len();
        proof {
            assert(fw * h <= (image.width as int) * h) by (nonlinear_arith)
                requires fw <= image.width, 0 <= h;
            assert(4 * (image.width as int) * h == 4 * ((image.width as int) * h)) by (nonlinear_arith);
        }
        let n: usize = frame_width as usize * frame_height as usize;
        let mut data: Vec<TexturePixel<Rgb>> = Vec::new();
        let mut i: usize = 0;
        while i < n
            invariant
                image.wf(),
                frame_width == image.width / frame_count,
                frame_height == image.height,
                current_frame < frame_count,
                0 < frame_count,
                fw == frame_width,
                h == frame_height,
                f == current_frame,
                n == fw * h,
                i <= n,
                data@ =~= Seq::new(
                    i as nat,
                    |j: int| spec_luma_pixel(image.spec_pixel(f * fw + j % fw, j / fw)),
                ),
            decreases n - i,
        {
            proof {
                assert(fw > 0) by {
                    if fw == 0 {
                        assert(fw * h == 0) by (nonlinear_arith)
                            requires fw == 0;
                    }
                }
                lemma_split_index(i as int, fw, h);
                lemma_frame_column(f, frame_count as int, fw, i as int % fw, image.width as int);
            }
            let x = (i % frame_width as usize) as u32;
            let y = (i / frame_width as usize) as u32;
            let p = image.pixel(current_frame * frame_width + x, y);
            data.push(TexturePixel::new(p));
            i += 1;
        }
        let mut texture = Texture { width: frame_width, height: frame_height, data, edge_texture: Vec::new() };
        texture.edge_texture = sobel(&texture);
        texture
    }
}

impl Texture<Rgb> {
    /// A luminance grid with the edge grid computed from it.
    pub open spec fn wf_frame(&self) -> bool {
        &&& self.wf()
        &&& self.edge_texture@ == spec_sobel(self.data@, self.width as int, self.height as int)
    }

    /// The pixel drawn at `(x, y)` in a render mode: the luminance pixel, or
    /// the edge glyph in the edge colour.
    pub open spec fn spec_draw_pixel(&self, x: int, y: int, layer: ShowSprite) -> TexturePixel<Rgb> {
        let i = grid_index(self.width as int, x, y);
        match layer {
            ShowSprite::Final => self.data@[i],
            ShowSprite::Sobel => match self.edge_texture@[i].0 {
                Some((_, c)) => TexturePixel(Some((spec_edge_color(), c))),
                None => TexturePixel(None),
            },
        }
    }

    pub fn get_draw_pixel(&self, x: u32, y: u32, layer: ShowSprite) -> (r: TexturePixel<Rgb>)
        requires
            self.wf_frame(),
            x < self.width,
            y < self.height,
        ensures
            r == self.spec_draw_pixel(x as int, y as int, layer),
    {
        let n = self.data.len();
        proof {
            lemma_grid_index_bound(self.width as int, self.height as int, x as int, y as int);
            assert((y as int) * (self.width as int) <= grid_index(self.width as int, x as int, y as int));
        }
        let i: usize = y as usize * self.width as usize + x as usize;
        match layer {
            ShowSprite::Final => *self.get(x, y),
            ShowSprite::Sobel => {
                let e = &self.edge_texture[i];
                match e.0 {
                    Some((_, c)) => TexturePixel(Some((edge_color(), c))),
                    None => TexturePixel(None),
                }
            },
        }
    }
}

} // verus!
