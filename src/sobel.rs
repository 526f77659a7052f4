use vstd::prelude::*;
use crate::raster::{grid_index, lemma_grid_index_bound};
use crate::texture::{
    lemma_join_index, spec_luma_pixel, EdgePiece, Rgb, Texture, TexturePixel, DASHLEFT_CHAR, DASHRIGHT_CHAR,
    HORIZONTAL_CHAR, VERTICAL_CHAR,
};

verus! {

/// Grey level of a colour, in thousandths: `299 r + 587 g + 114 b`.
pub type GrayScale = u32;

pub const GRAY_MAX: u32 = 255000;

pub open spec fn spec_gray(c: Rgb) -> int {
    299 * (c.r as int) + 587 * (c.g as int) + 114 * (c.b as int)
}

pub open spec fn spec_gray_pixel(p: TexturePixel<Rgb>) -> TexturePixel<GrayScale> {
    match p.0 {
        None => TexturePixel(None),
        Some((c, ch)) => TexturePixel(Some((spec_gray(c) as GrayScale, ch))),
    }
}

pub fn grayscale_transform(pixel: &TexturePixel<Rgb>) -> (r: TexturePixel<GrayScale>)
    ensures
        r == spec_gray_pixel(*pixel),
        r.0 matches Some((v, _)) ==> v <= GRAY_MAX,
{
    match pixel.0 {
        Some((c, ch)) => {
            let v: u32 = 299 * (c.r as u32) + 587 * (c.g as u32) + 114 * (c.b as u32);
            TexturePixel(Some((v, ch)))
        },
        None => TexturePixel(None),
    }
}

impl EdgePiece {
    pub open spec fn spec_glyph(self) -> char {
        match self {
            EdgePiece::Vertical => VERTICAL_CHAR,
            EdgePiece::Horizontal => HORIZONTAL_CHAR,
            EdgePiece::DashRight => DASHRIGHT_CHAR,
            EdgePiece::DashLeft => DASHLEFT_CHAR,
        }
    }

    pub fn glyph(&self) -> (c: char)
        ensures
            c == self.spec_glyph(),
    {
        match self {
            EdgePiece::Vertical => VERTICAL_CHAR,
            EdgePiece::Horizontal => HORIZONTAL_CHAR,
            EdgePiece::DashRight => DASHRIGHT_CHAR,
            EdgePiece::DashLeft => DASHLEFT_CHAR,
        }
    }
}

/// An edge pixel of the given class, with its glyph.
pub open spec fn spec_edge_pixel(p: EdgePiece) -> TexturePixel<EdgePiece> {
    TexturePixel(Some((p, p.spec_glyph())))
}

/// Every grey level in the grid is at most `GRAY_MAX`.
pub open spec fn gray_bounded(g: Seq<TexturePixel<GrayScale>>) -> bool {
    forall|i: int| 0 <= i < g.len() ==> ((#[trigger] g[i]).0 matches Some((v, _)) ==> v <= GRAY_MAX)
}

/// The grey level at `(x, y)`; zero outside the grid and at transparent
/// pixels.
pub open spec fn spec_gray_level(g: Seq<TexturePixel<GrayScale>>, w: int, h: int, x: int, y: int) -> int {
    if 0 <= x < w && 0 <= y < h {
        match g[grid_index(w, x, y)].0 {
            Some((v, _)) => v as int,
            None => 0,
        }
    } else {
        0
    }
}

/// The sum of `k[r][c]` times the grey level at `(x + c - 1, y + r - 1)`
/// over the 3x3 neighbourhood, with zero beyond the borders.
pub open spec fn spec_convolve(k: [[i64; 3]; 3], g: Seq<TexturePixel<GrayScale>>, w: int, h: int, x: int, y: int) -> int {
    k[0][0] * spec_gray_level(g, w, h, x - 1, y - 1) + k[0][1] * spec_gray_level(g, w, h, x, y - 1)
        + k[0][2] * spec_gray_level(g, w, h, x + 1, y - 1) + k[1][0] * spec_gray_level(g, w, h, x - 1, y)
        + k[1][1] * spec_gray_level(g, w, h, x, y) + k[1][2] * spec_gray_level(g, w, h, x + 1, y)
        + k[2][0] * spec_gray_level(g, w, h, x - 1, y + 1) + k[2][1] * spec_gray_level(g, w, h, x, y + 1)
        + k[2][2] * spec_gray_level(g, w, h, x + 1, y + 1)
}

/// Horizontal gradient: kernel `[[1, 0, -1], [2, 0, -2], [1, 0, -1]]`.
pub open spec fn spec_gx(g: Seq<TexturePixel<GrayScale>>, w: int, h: int, x: int, y: int) -> int {
    spec_gray_level(g, w, h, x - 1, y - 1) - spec_gray_level(g, w, h, x + 1, y - 1)
        + 2 * spec_gray_level(g, w, h, x - 1, y) - 2 * spec_gray_level(g, w, h, x + 1, y)
        + spec_gray_level(g, w, h, x - 1, y + 1) - spec_gray_level(g, w, h, x + 1, y + 1)
}

/// Vertical gradient: kernel `[[1, 2, 1], [0, 0, 0], [-1, -2, -1]]`.
pub open spec fn spec_gy(g: Seq<TexturePixel<GrayScale>>, w: int, h: int, x: int, y: int) -> int {
    spec_gray_level(g, w, h, x - 1, y - 1) + 2 * spec_gray_level(g, w, h, x, y - 1)
        + spec_gray_level(g, w, h, x + 1, y - 1) - spec_gray_level(g, w, h, x - 1, y + 1)
        - 2 * spec_gray_level(g, w, h, x, y + 1) - spec_gray_level(g, w, h, x + 1, y + 1)
}

pub open spec fn is_sobel_x(k: [[i64; 3]; 3]) -> bool {
    &&& k[0][0] == 1 && k[0][1] == 0 && k[0][2] == -1
    &&& k[1][0] == 2 && k[1][1] == 0 && k[1][2] == -2
    &&& k[2][0] == 1 && k[2][1] == 0 && k[2][2] == -1
}

pub open spec fn is_sobel_y(k: [[i64; 3]; 3]) -> bool {
    &&& k[0][0] == 1 && k[0][1] == 2 && k[0][2] == 1
    &&& k[1][0] == 0 && k[1][1] == 0 && k[1][2] == 0
    &&& k[2][0] == -1 && k[2][1] == -2 && k[2][2] == -1
}

pub open spec fn small_kernel(k: [[i64; 3]; 3]) -> bool {
    forall|r: int, c: int| 0 <= r < 3 && 0 <= c < 3 ==> -2 <= #[trigger] k[r][c] <= 2
}

pub open spec fn abs(v: int) -> int {
    if v < 0 {
        -v
    } else {
        v
    }
}

/// A gradient is an edge when its length reaches 0.1 grey levels, that is
/// `gx^2 + gy^2 >= 10_000` in thousandths.
pub const EDGE_THRESHOLD_SQ: i64 = 10000;

/// `17329 / 109411` is the lower of two consecutive continued-fraction
/// convergents of `tan(pi / 20)` whose denominators sum past 1_020_000, the
/// largest gradient the Sobel kernels give (`4 * GRAY_MAX`). No fraction
/// with a denominator up to that bound lies between it and `tan(pi / 20)`,
/// so for such `d`, `n / d < tan(pi / 20)` exactly when
/// `n * 109411 <= 17329 * d`.
pub const TAN_PI_20_NUM: i64 = 17329;

pub const TAN_PI_20_DEN: i64 = 109411;

/// `161643 / 497486` stands to `tan(pi / 10)` as `TAN_PI_20_NUM /
/// TAN_PI_20_DEN` does to `tan(pi / 20)`.
pub const TAN_PI_10_NUM: i64 = 161643;

pub const TAN_PI_10_DEN: i64 = 497486;

/// `n / d < tan(pi / 20)`.
pub open spec fn below_tan_pi_20(n: int, d: int) -> bool {
    n * TAN_PI_20_DEN <= TAN_PI_20_NUM * d
}

/// `n / d < tan(pi / 10)`.
pub open spec fn below_tan_pi_10(n: int, d: int) -> bool {
    n * TAN_PI_10_DEN <= TAN_PI_10_NUM * d
}

/// Classifies a gradient by `a = |atan2(gy, gx)| / pi`: below the
/// threshold it is no edge; `a < 0.05` or `a > 0.9` is horizontal;
/// `0.45 < a < 0.55` is vertical; `0.05 < a < 0.45` is a right dash when
/// `gy > 0`, else a left dash; `0.55 < a < 0.9` is a right dash when
/// `gy < 0`, else a left dash. With integer gradients no angle falls on a
/// bucket edge.
pub open spec fn spec_classify(gx: int, gy: int) -> TexturePixel<EdgePiece> {
    if gx * gx + gy * gy < EDGE_THRESHOLD_SQ {
        TexturePixel(None)
    } else if gx > 0 && below_tan_pi_20(abs(gy), gx) {
        spec_edge_pixel(EdgePiece::Horizontal)
    } else if gx < 0 && below_tan_pi_10(abs(gy), -gx) {
        spec_edge_pixel(EdgePiece::Horizontal)
    } else if below_tan_pi_20(abs(gx), abs(gy)) {
        spec_edge_pixel(EdgePiece::Vertical)
    } else if gx > 0 {
        if gy > 0 {
            spec_edge_pixel(EdgePiece::DashRight)
        } else {
            spec_edge_pixel(EdgePiece::DashLeft)
        }
    } else {
        if gy < 0 {
            spec_edge_pixel(EdgePiece::DashRight)
        } else {
            spec_edge_pixel(EdgePiece::DashLeft)
        }
    }
}

/// The edge pixel at `(x, y)` of a grey grid.
pub open spec fn spec_edge_at(g: Seq<TexturePixel<GrayScale>>, w: int, h: int, x: int, y: int) -> TexturePixel<EdgePiece> {
    spec_classify(spec_gx(g, w, h, x, y), spec_gy(g, w, h, x, y))
}

/// The grey grid of a colour grid.
pub open spec fn spec_gray_grid(data: Seq<TexturePixel<Rgb>>) -> Seq<TexturePixel<GrayScale>> {
    data.map_values(|p: TexturePixel<Rgb>| spec_gray_pixel(p))
}

/// The edge grid of a colour grid `w` wide and `h` high.
pub open spec fn spec_sobel(data: Seq<TexturePixel<Rgb>>, w: int, h: int) -> Seq<TexturePixel<EdgePiece>> {
    Seq::new(
        (w * h) as nat,
        |i: int| spec_edge_at(spec_gray_grid(data), w, h, i % w, i / w),
    )
}


/// The grey grid of a colour texture, with no edge grid.
pub fn grayscale(texture: &Texture<Rgb>) -> (r: Texture<GrayScale>)
    ensures
        r.width == texture.width,
        r.height == texture.height,
        r.data@ == spec_gray_grid(texture.data@),
        r.edge_texture@.len() == 0,
        gray_bounded(r.data@),
{
    let mut data: Vec<TexturePixel<GrayScale>> = Vec::new();
    let mut i: usize = 0;
    while i < texture.data.len()
        invariant
            i <= texture.data@.len(),
            data@ == spec_gray_grid(texture.data@.subrange(0, i as int)),
            gray_bounded(data@),
        decreases texture.data@.len() - i,
    {
        let p = grayscale_transform(&texture.data[i]);
        data.push(p);
        i += 1;
        assert(spec_gray_grid(texture.data@.subrange(0, i as int)) =~= spec_gray_grid(
            texture.data@.subrange(0, i - 1),
        ).push(p));
    }
    assert(texture.data@.subrange(0, i as int) =~= texture.data@);
    Texture { width: texture.width, height: texture.height, data, edge_texture: Vec::new() }
}

/// The grey level at `(x, y)`, zero outside the grid.
fn gray_level(texture: &Texture<GrayScale>, x: i64, y: i64) -> (r: i64)
    requires
        texture.wf(),
        gray_bounded(texture.data@),
    ensures
        r == spec_gray_level(texture.data@, texture.width as int, texture.height as int, x as int, y as int),
        0 <= r <= GRAY_MAX,
{
    if x < 0 || x >= texture.width as i64 || y < 0 || y >= texture.height as i64 {
        return 0;
    }
    proof {
        lemma_grid_index_bound(texture.width as int, texture.height as int, x as int, y as int);
    }
    let p = texture.get(x as u32, y as u32);
    match p.0 {
        Some((v, _)) => v as i64,
        None => 0,
    }
}

proof fn lemma_term_bound(k: int, g: int)
    requires
        -2 <= k <= 2,
        0 <= g <= GRAY_MAX,
    ensures
        -2 * GRAY_MAX <= k * g <= 2 * GRAY_MAX,
{
    assert(-2 * GRAY_MAX <= k * g <= 2 * GRAY_MAX) by (nonlinear_arith)
        requires -2 <= k <= 2, 0 <= g <= GRAY_MAX;
}

/// The kernel sum at pixel `ix`.
pub fn convolute_transform(kernel: &[[i64; 3]; 3], texture: &Texture<GrayScale>, ix: usize) -> (r: i64)
    requires
        texture.wf(),
        gray_bounded(texture.data@),
        small_kernel(*kernel),
        ix < texture.data@.len(),
    ensures
        r == spec_convolve(
            *kernel,
            texture.data@,
            texture.width as int,
            texture.height as int,
            ix as int % texture.width as int,
            ix as int / texture.width as int,
        ),
        -4590000 <= r <= 4590000,
{
    let (p_x, p_y) = texture.position(ix);
    let x = p_x as i64;
    let y = p_y as i64;
    let mut sum: i64 = 0;
    let mut r: usize = 0;
    while r < 3
        invariant
            texture.wf(),
            gray_bounded(texture.data@),
            small_kernel(*kernel),
            0 <= x < texture.width,
            0 <= y < texture.height,
            r <= 3,
            -1530000 * (r as int) <= sum <= 1530000 * (r as int),
            sum == spec_rows(*kernel, texture.data@, texture.width as int, texture.height as int, x as int, y as int, r as int),
        decreases 3 - r,
    {
        let dy = r as i64 - 1;
        let g0 = gray_level(texture, x - 1, y + dy);
        let g1 = gray_level(texture, x, y + dy);
        let g2 = gray_level(texture, x + 1, y + dy);
        proof {
            lemma_term_bound(kernel[r as int][0] as int, g0 as int);
            lemma_term_bound(kernel[r as int][1] as int, g1 as int);
            lemma_term_bound(kernel[r as int][2] as int, g2 as int);
        }
        sum = sum + kernel[r][0] * g0 + kernel[r][1] * g1 + kernel[r][2] * g2;
        r += 1;
    }
    proof {
        reveal_with_fuel(spec_rows, 4);
    }
    sum
}

/// The kernel sum over the first `rows` rows of the neighbourhood.
pub open spec fn spec_rows(k: [[i64; 3]; 3], g: Seq<TexturePixel<GrayScale>>, w: int, h: int, x: int, y: int, rows: int) -> int
    decreases rows,
{
    if rows <= 0 {
        0
    } else {
        let r = rows - 1;
        spec_rows(k, g, w, h, x, y, r) + k[r][0] * spec_gray_level(g, w, h, x - 1, y + r - 1)
            + k[r][1] * spec_gray_level(g, w, h, x, y + r - 1) + k[r][2] * spec_gray_level(
            g,
            w,
            h,
            x + 1,
            y + r - 1,
        )
    }
}


fn classify(gx: i64, gy: i64) -> (r: TexturePixel<EdgePiece>)
    requires
        -4590000 <= gx <= 4590000,
        -4590000 <= gy <= 4590000,
    ensures
        r == spec_classify(gx as int, gy as int),
{
    assert(0 <= gx * gx <= 4590000 * 4590000 && 0 <= gy * gy <= 4590000 * 4590000) by (nonlinear_arith)
        requires -4590000 <= gx <= 4590000, -4590000 <= gy <= 4590000;
    if gx * gx + gy * gy < EDGE_THRESHOLD_SQ {
        return TexturePixel(None);
    }
    let ax = if gx < 0 { -gx } else { gx };
    let ay = if gy < 0 { -gy } else { gy };
    let piece = if gx > 0 && ay * TAN_PI_20_DEN <= TAN_PI_20_NUM * gx {
        EdgePiece::Horizontal
    } else if gx < 0 && ay * TAN_PI_10_DEN <= TAN_PI_10_NUM * ax {
        EdgePiece::Horizontal
    } else if ax * TAN_PI_20_DEN <= TAN_PI_20_NUM * ay {
        EdgePiece::Vertical
    } else if gx > 0 {
        if gy > 0 {
            EdgePiece::DashRight
        } else {
            EdgePiece::DashLeft
        }
    } else {
        if gy < 0 {
            EdgePiece::DashRight
        } else {
            EdgePiece::DashLeft
        }
    };
    TexturePixel::new_tuple(piece, piece.glyph())
}

/// The edge pixel at index `i` of a grey texture, from the two Sobel
/// kernels.
pub fn sobel_transform(
    grayscale_texture: &Texture<GrayScale>,
    kernel_x: &[[i64; 3]; 3],
    kernel_y: &[[i64; 3]; 3],
    i: usize,
) -> (r: TexturePixel<EdgePiece>)
    requires
        grayscale_texture.wf(),
        gray_bounded(grayscale_texture.data@),
        is_sobel_x(*kernel_x),
        is_sobel_y(*kernel_y),
        i < grayscale_texture.data@.len(),
    ensures
        r == spec_edge_at(
            grayscale_texture.data@,
            grayscale_texture.width as int,
            grayscale_texture.height as int,
            i as int % grayscale_texture.width as int,
            i as int / grayscale_texture.width as int,
        ),
{
    assert(small_kernel(*kernel_x)) by {
        assert forall|r: int, c: int| 0 <= r < 3 && 0 <= c < 3 implies -2 <= #[trigger] kernel_x[r][c] <= 2 by {
            assert(r == 0 || r == 1 || r == 2);
            assert(c == 0 || c == 1 || c == 2);
        }
    }
    assert(small_kernel(*kernel_y)) by {
        assert forall|r: int, c: int| 0 <= r < 3 && 0 <= c < 3 implies -2 <= #[trigger] kernel_y[r][c] <= 2 by {
            assert(r == 0 || r == 1 || r == 2);
            assert(c == 0 || c == 1 || c == 2);
        }
    }
    let x = convolute_transform(kernel_x, grayscale_texture, i);
    let y = convolute_transform(kernel_y, grayscale_texture, i);
    classify(x, y)
}

/// The edge grid of a colour texture.
pub fn sobel(texture: &Texture<Rgb>) -> (r: Vec<TexturePixel<EdgePiece>>)
    requires
        texture.wf(),
    ensures
        r@ == spec_sobel(texture.data@, texture.width as int, texture.height as int),
{
    let kernel_x: [[i64; 3]; 3] = [[1, 0, -1], [2, 0, -2], [1, 0, -1]];
    let kernel_y: [[i64; 3]; 3] = [[1, 2, 1], [0, 0, 0], [-1, -2, -1]];
    let gray = grayscale(texture);
    let ghost g = spec_gray_grid(texture.data@);
    let ghost w = texture.width as int;
    let ghost h = texture.height as int;
    assert(gray.wf());
    let mut out: Vec<TexturePixel<EdgePiece>> = Vec::new();
    let mut i: usize = 0;
    while i < gray.data.len()
        invariant
            gray.wf(),
            gray_bounded(gray.data@),
            gray.data@ == g,
            gray.width == w,
            gray.height == h,
            is_sobel_x(kernel_x),
            is_sobel_y(kernel_y),
            i <= g.len(),
            out@ =~= Seq::new(i as nat, |j: int| spec_edge_at(g, w, h, j % w, j / w)),
        decreases g.len() - i,
    {
        let p = sobel_transform(&gray, &kernel_x, &kernel_y, i);
        out.push(p);
        i += 1;
    }
    assert(out@ =~= spec_sobel(texture.data@, w, h));
    out
}

/// The grey level of a colour pixel; zero when transparent.
pub open spec fn spec_gray_value(p: TexturePixel<Rgb>) -> int {
    match p.0 {
        Some((c, _)) => spec_gray(c),
        None => 0,
    }
}

proof fn lemma_gray_level_of(data: Seq<TexturePixel<Rgb>>, w: int, h: int, x: int, y: int)
    requires
        data.len() == w * h,
        0 <= x < w,
        0 <= y < h,
    ensures
        spec_gray_level(spec_gray_grid(data), w, h, x, y) == spec_gray_value(data[grid_index(w, x, y)]),
{
    lemma_grid_index_bound(w, h, x, y);
}

proof fn lemma_sobel_at(data: Seq<TexturePixel<Rgb>>, w: int, h: int, x: int, y: int)
    requires
        data.len() == w * h,
        0 <= x < w,
        0 <= y < h,
    ensures
        0 <= grid_index(w, x, y) < spec_sobel(data, w, h).len(),
        spec_sobel(data, w, h)[grid_index(w, x, y)] == spec_edge_at(spec_gray_grid(data), w, h, x, y),
{
    lemma_grid_index_bound(w, h, x, y);
    lemma_join_index(x, y, w);
}

/// A frame filled with one pixel has no edge anywhere inside its border,
/// where the whole neighbourhood lies in the frame; when that pixel is
/// transparent or black, it has no edge at all.
pub proof fn lemma_uniform_frame_has_no_edges(
    data: Seq<TexturePixel<Rgb>>,
    w: int,
    h: int,
    p: TexturePixel<Rgb>,
    x: int,
    y: int,
)
    requires
        data.len() == w * h,
        forall|i: int| 0 <= i < w * h ==> data[i] == p,
        0 <= x < w,
        0 <= y < h,
        (1 <= x < w - 1 && 1 <= y < h - 1) || spec_gray_value(p) == 0,
    ensures
        spec_sobel(data, w, h)[grid_index(w, x, y)] == TexturePixel::<EdgePiece>(None),
{
    let g = spec_gray_grid(data);
    let v = spec_gray_value(p);
    assert forall|xx: int, yy: int|
        spec_gray_level(g, w, h, xx, yy) == (if 0 <= xx < w && 0 <= yy < h { v } else { 0 }) by {
        if 0 <= xx < w && 0 <= yy < h {
            lemma_gray_level_of(data, w, h, xx, yy);
            lemma_grid_index_bound(w, h, xx, yy);
        }
    }
    lemma_sobel_at(data, w, h, x, y);
    assert(spec_gx(g, w, h, x, y) == 0);
    assert(spec_gy(g, w, h, x, y) == 0);
}

/// A frame whose columns left of `k` are opaque black and the rest opaque
/// white, with at least three columns on each side, has a horizontal edge
/// on both sides of the step in every row but the first and the last.
pub proof fn lemma_step_edge_is_horizontal(data: Seq<TexturePixel<Rgb>>, w: int, h: int, k: int, y: int)
    requires
        data.len() == w * h,
        3 <= k,
        k + 3 <= w,
        1 <= y < h - 1,
        forall|xx: int, yy: int|
            0 <= xx < w && 0 <= yy < h ==> #[trigger] data[grid_index(w, xx, yy)] == (if xx < k {
                spec_luma_pixel((0, 0, 0, 255))
            } else {
                spec_luma_pixel((255, 255, 255, 255))
            }),
    ensures
        spec_sobel(data, w, h)[grid_index(w, k - 1, y)] == spec_edge_pixel(EdgePiece::Horizontal),
        spec_sobel(data, w, h)[grid_index(w, k, y)] == spec_edge_pixel(EdgePiece::Horizontal),
{
    let g = spec_gray_grid(data);
    assert forall|xx: int, yy: int| 0 <= xx < w && 0 <= yy < h implies spec_gray_level(g, w, h, xx, yy) == (if xx < k {
        0int
    } else {
        GRAY_MAX as int
    }) by {
        lemma_gray_level_of(data, w, h, xx, yy);
    }
    lemma_sobel_at(data, w, h, k - 1, y);
    lemma_sobel_at(data, w, h, k, y);
    assert(spec_gx(g, w, h, k - 1, y) == -4 * (GRAY_MAX as int));
    assert(spec_gy(g, w, h, k - 1, y) == 0);
    assert(spec_gx(g, w, h, k, y) == -4 * (GRAY_MAX as int));
    assert(spec_gy(g, w, h, k, y) == 0);
    assert(-1020000 * -1020000 >= EDGE_THRESHOLD_SQ) by (nonlinear_arith);
    assert(spec_classify(-1020000, 0) == spec_edge_pixel(EdgePiece::Horizontal));
}

} // verus!
