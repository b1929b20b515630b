//! The frame buffer: 240x240 pixels, three bytes each, in device
//! color order (blue, green, red).

use vstd::prelude::*;

use crate::constants::{FRAME_HEIGHT, FRAME_SIZE, FRAME_WIDTH};
use crate::types::Color;

verus! {

/// First byte of the pixel at `(x, y)` inside the frame.
pub open spec fn pixel_index(x: int, y: int) -> int {
    (y * FRAME_WIDTH + x) * 3
}

/// The three bytes of the pixel at `(x, y)` hold the given
/// (blue, green, red) components.
pub open spec fn pixel_is(s: Seq<u8>, x: int, y: int, bgr: (u8, u8, u8)) -> bool {
    &&& s[pixel_index(x, y)] == bgr.0
    &&& s[pixel_index(x, y) + 1] == bgr.1
    &&& s[pixel_index(x, y) + 2] == bgr.2
}

/// The three bytes of the pixel at `(x, y)` are the same in both frames.
pub open spec fn pixel_unchanged(s1: Seq<u8>, s2: Seq<u8>, x: int, y: int) -> bool {
    &&& s1[pixel_index(x, y)] == s2[pixel_index(x, y)]
    &&& s1[pixel_index(x, y) + 1] == s2[pixel_index(x, y) + 1]
    &&& s1[pixel_index(x, y) + 2] == s2[pixel_index(x, y) + 2]
}

/// Whether `(px, py)` lies inside the rectangle at `(x, y)` of the
/// given width and height.
pub open spec fn in_rect(x: int, y: int, width: int, height: int, px: int, py: int) -> bool {
    x <= px < x + width && y <= py < y + height
}

/// Whether `(px, py)` lies within `radius` of `(cx, cy)`.
pub open spec fn in_circle(cx: int, cy: int, radius: int, px: int, py: int) -> bool {
    (px - cx) * (px - cx) + (py - cy) * (py - cy) <= radius * radius
}

/// The side of the source that fits on the frame.
pub open spec fn centered_min(src_dim: int, dst_dim: int) -> int {
    if src_dim < dst_dim {
        src_dim
    } else {
        dst_dim
    }
}

/// Frame offset that centers the fitting part of the source.
pub open spec fn centered_offset(src_dim: int, dst_dim: int) -> int {
    (dst_dim - centered_min(src_dim, dst_dim)) / 2
}

/// The frame pixel `(px, py)` holds what centered placement of an RGB
/// source of the given dimensions puts there: inside the centered
/// footprint, the source pixel with its channels reversed; outside it,
/// black.
pub open spec fn placed_pixel_ok(
    dst: Seq<u8>,
    src: Seq<u8>,
    width: int,
    height: int,
    px: int,
    py: int,
) -> bool {
    let min_w = centered_min(width, FRAME_WIDTH as int);
    let min_h = centered_min(height, FRAME_HEIGHT as int);
    let ox = centered_offset(width, FRAME_WIDTH as int);
    let oy = centered_offset(height, FRAME_HEIGHT as int);
    let di = pixel_index(px, py);
    if ox <= px < ox + min_w && oy <= py < oy + min_h {
        let si = ((py - oy) * width + (px - ox)) * 3;
        &&& dst[di] == src[si + 2]
        &&& dst[di + 1] == src[si + 1]
        &&& dst[di + 2] == src[si]
    } else {
        &&& dst[di] == 0
        &&& dst[di + 1] == 0
        &&& dst[di + 2] == 0
    }
}

/// A row-major index within the source dimensions stays within the
/// source length.
proof fn lemma_row_major_bound(r: int, c: int, w: int, h: int)
    by (nonlinear_arith)
    requires
        0 <= r < h,
        0 <= c < w,
    ensures
        0 <= r * w + c,
        (r * w + c) * 3 + 2 < w * h * 3,
{
}

/// The (red, green, blue) color of the pattern block that covers
/// `(px, py)` when the frame is tiled with blocks of side `bs`.
pub open spec fn pattern_block_color(
    colors: Seq<(u8, u8, u8)>,
    bs: int,
    px: int,
    py: int,
) -> (u8, u8, u8) {
    colors[(py / bs) * (FRAME_WIDTH as int / bs) + px / bs]
}

/// The frame pixel `(px, py)` holds what tiling with the given block
/// colors puts there: inside the tiled area, its block's color in
/// device order; outside it, black.
pub open spec fn pattern_pixel_ok(
    s: Seq<u8>,
    colors: Seq<(u8, u8, u8)>,
    bs: int,
    px: int,
    py: int,
) -> bool {
    let cols = FRAME_WIDTH as int / bs;
    let rows = FRAME_HEIGHT as int / bs;
    if px < cols * bs && py < rows * bs {
        let c = pattern_block_color(colors, bs, px, py);
        pixel_is(s, px, py, (c.2, c.1, c.0))
    } else {
        pixel_is(s, px, py, (0u8, 0u8, 0u8))
    }
}

/// Dividing by the block side names the block: `v` lies in block `i`
/// exactly when `v / bs == i`.
proof fn lemma_div_block(v: int, bs: int, i: int)
    by (nonlinear_arith)
    requires
        bs >= 1,
        0 <= v,
        0 <= i,
    ensures
        (v / bs == i) <==> (i * bs <= v < i * bs + bs),
{
}

/// A value below `n` blocks lies in a block below `n`.
proof fn lemma_div_lt(v: int, bs: int, n: int)
    by (nonlinear_arith)
    requires
        bs >= 1,
        0 <= v < n * bs,
    ensures
        0 <= v / bs < n,
{
}

/// Whole blocks never reach past the dimension they divide.
proof fn lemma_div_mul_le(n: int, bs: int)
    by (nonlinear_arith)
    requires
        bs >= 1,
        0 <= n,
    ensures
        (n / bs) * bs <= n,
        0 <= n / bs <= n,
{
}

/// A row-major block index stays within the grid.
proof fn lemma_grid_index(r: int, c: int, cols: int, rows: int)
    by (nonlinear_arith)
    requires
        0 <= r < rows,
        0 <= c < cols,
    ensures
        0 <= r * cols + c < rows * cols,
{
}

/// One more block reaches exactly one block side further.
proof fn lemma_mul_succ(a: int, b: int)
    by (nonlinear_arith)
    ensures
        (a + 1) * b == a * b + b,
{
}

/// Multiplying both sides of a bound by a nonnegative value keeps it.
proof fn lemma_mul_le(a: int, b: int, c: int)
    by (nonlinear_arith)
    requires
        a <= b,
        0 <= c,
    ensures
        a * c <= b * c,
{
}

/// A product of bounded nonnegative values is bounded by the product
/// of the bounds.
proof fn lemma_mul_bounds(a: int, b: int, ma: int, mb: int)
    by (nonlinear_arith)
    requires
        0 <= a <= ma,
        0 <= b <= mb,
    ensures
        0 <= a * b <= ma * mb,
{
}

/// Relies on rand's `thread_rng` and `Rng::gen_range`: a sample from
/// the given closed range.
#[verifier::external_body]
fn random_component() -> (r: u8)
    ensures
        80 <= r,
{
    rand::Rng::gen_range(&mut rand::thread_rng(), 80u8..=255u8)
}

/// A value between `-m` and `m` has a square between 0 and `m * m`.
proof fn lemma_square_bounded(a: int, m: int)
    by (nonlinear_arith)
    requires
        -m <= a <= m,
    ensures
        0 <= a * a <= m * m,
{
}

/// The pixel store sent to the display.
#[derive(Debug, Clone)]
pub struct ImageBuffer {
    /// The pixel bytes, always exactly one frame of them.
    pub data: Vec<u8>,
}

impl View for ImageBuffer {
    type V = Seq<u8>;

    open spec fn view(&self) -> Seq<u8> {
        self.data@
    }
}

impl ImageBuffer {
    /// A well-formed buffer holds exactly one frame of bytes.
    pub open spec fn wf(&self) -> bool {
        self@.len() == FRAME_SIZE
    }

    /// Creates an all-black frame.
    pub fn new() -> (r: Self)
        ensures
            r.wf(),
            forall|i: int| 0 <= i < FRAME_SIZE ==> r@[i] == 0u8,
    {
        let mut data: Vec<u8> = Vec::new();
        let mut i: usize = 0;
        while i < FRAME_SIZE
            invariant
                i <= FRAME_SIZE,
                data@.len() == i,
                forall|k: int| 0 <= k < i ==> data@[k] == 0u8,
            decreases FRAME_SIZE - i,
        {
            data.push(0);
            i = i + 1;
        }
        ImageBuffer { data }
    }

    /// Fills the whole frame with one color.
    pub fn clear(&mut self, color: Color)
        requires
            old(self).wf(),
        ensures
            final(self).wf(),
            forall|x: int, y: int|
                #![trigger pixel_index(x, y)]
                0 <= x < FRAME_WIDTH && 0 <= y < FRAME_HEIGHT ==> pixel_is(
                    final(self)@,
                    x,
                    y,
                    color.spec_bgr(),
                ),
    {
        let (b, g, r) = color.bgr();
        let mut i: usize = 0;
        while i < FRAME_SIZE / 3
            invariant
                self.wf(),
                i <= FRAME_SIZE / 3,
                (b, g, r) == color.spec_bgr(),
                forall|k: int| 0 <= k < i ==> #[trigger] self@[k * 3] == b,
                forall|k: int| 0 <= k < i ==> #[trigger] self@[k * 3 + 1] == g,
                forall|k: int| 0 <= k < i ==> #[trigger] self@[k * 3 + 2] == r,
            decreases FRAME_SIZE / 3 - i,
        {
            self.data.set(i * 3, b);
            self.data.set(i * 3 + 1, g);
            self.data.set(i * 3 + 2, r);
            i = i + 1;
        }
        assert forall|x: int, y: int|
            0 <= x < FRAME_WIDTH && 0 <= y < FRAME_HEIGHT implies pixel_is(
            self@,
            x,
            y,
            color.spec_bgr(),
        ) by {
            let k = y * FRAME_WIDTH + x;
            assert(0 <= k < FRAME_SIZE / 3);
            assert(self@[k * 3] == b);
            assert(self@[k * 3 + 1] == g);
            assert(self@[k * 3 + 2] == r);
            assert(pixel_index(x, y) == k * 3);
        }
    }

    /// Writes one pixel; coordinates off the frame are a no-op.
    pub fn set_pixel(&mut self, x: usize, y: usize, color: Color)
        requires
            old(self).wf(),
        ensures
            final(self).wf(),
            x < FRAME_WIDTH && y < FRAME_HEIGHT ==> {
                &&& pixel_is(final(self)@, x as int, y as int, color.spec_bgr())
                &&& forall|px: int, py: int|
                    #![trigger pixel_index(px, py)]
                    0 <= px < FRAME_WIDTH && 0 <= py < FRAME_HEIGHT && !(px == x && py == y)
                        ==> pixel_unchanged(final(self)@, old(self)@, px, py)
            },
            x >= FRAME_WIDTH || y >= FRAME_HEIGHT ==> *final(self) == *old(self),
    {
        if x >= FRAME_WIDTH || y >= FRAME_HEIGHT {
            return ;
        }
        let idx = (y * FRAME_WIDTH + x) * 3;
        let (b, g, r) = color.bgr();
        self.data.set(idx, b);
        self.data.set(idx + 1, g);
        self.data.set(idx + 2, r);
        assert forall|px: int, py: int|
                    #![trigger pixel_index(px, py)]
            0 <= px < FRAME_WIDTH && 0 <= py < FRAME_HEIGHT && !(px == x && py == y) implies
            pixel_unchanged(self@, old(self)@, px, py) by {
            lemma_pixel_index_disjoint(px, py, x as int, y as int);
        }
    }

    /// Paints every frame pixel inside the given rectangle; the rest of
    /// the frame keeps its contents.
    pub fn fill_rect(&mut self, x: usize, y: usize, width: usize, height: usize, color: Color)
        requires
            old(self).wf(),
            x + width <= usize::MAX,
            y + height <= usize::MAX,
        ensures
            final(self).wf(),
            forall|px: int, py: int|
                    #![trigger pixel_index(px, py)]
                0 <= px < FRAME_WIDTH && 0 <= py < FRAME_HEIGHT ==> if in_rect(
                    x as int,
                    y as int,
                    width as int,
                    height as int,
                    px,
                    py,
                ) {
                    pixel_is(final(self)@, px, py, color.spec_bgr())
                } else {
                    pixel_unchanged(final(self)@, old(self)@, px, py)
                },
    {
        let mut dy: usize = 0;
        while dy < height
            invariant
                self.wf(),
                dy <= height,
                x + width <= usize::MAX,
                y + height <= usize::MAX,
                forall|px: int, py: int|
                    #![trigger pixel_index(px, py)]
                    0 <= px < FRAME_WIDTH && 0 <= py < FRAME_HEIGHT ==> if in_rect(
                        x as int,
                        y as int,
                        width as int,
                        height as int,
                        px,
                        py,
                    ) && py < y + dy {
                        pixel_is(self@, px, py, color.spec_bgr())
                    } else {
                        pixel_unchanged(self@, old(self)@, px, py)
                    },
            decreases height - dy,
        {
            let mut dx: usize = 0;
            while dx < width
                invariant
                    self.wf(),
                    dy < height,
                    dx <= width,
                    x + width <= usize::MAX,
                    y + height <= usize::MAX,
                    forall|px: int, py: int|
                    #![trigger pixel_index(px, py)]
                        0 <= px < FRAME_WIDTH && 0 <= py < FRAME_HEIGHT ==> if in_rect(
                            x as int,
                            y as int,
                            width as int,
                            height as int,
                            px,
                            py,
                        ) && (py < y + dy || (py == y + dy && px < x + dx)) {
                            pixel_is(self@, px, py, color.spec_bgr())
                        } else {
                            pixel_unchanged(self@, old(self)@, px, py)
                        },
                decreases width - dx,
            {
                self.set_pixel(x + dx, y + dy, color);
                dx = dx + 1;
            }
            dy = dy + 1;
        }
    }

    /// Paints every frame pixel whose center lies within `radius` of
    /// `(cx, cy)`; the rest of the frame keeps its contents.  The
    /// bounds keep the squared distances inside 32-bit arithmetic.
    pub fn draw_circle(&mut self, cx: usize, cy: usize, radius: usize, color: Color)
        requires
            old(self).wf(),
            cx <= 32000,
            cy <= 32000,
            radius <= 46340,
        ensures
            final(self).wf(),
            forall|px: int, py: int|
                    #![trigger pixel_index(px, py)]
                0 <= px < FRAME_WIDTH && 0 <= py < FRAME_HEIGHT ==> if in_circle(
                    cx as int,
                    cy as int,
                    radius as int,
                    px,
                    py,
                ) {
                    pixel_is(final(self)@, px, py, color.spec_bgr())
                } else {
                    pixel_unchanged(final(self)@, old(self)@, px, py)
                },
    {
        proof {
            lemma_square_bounded(radius as int, 46340);
        }
        let r2 = radius * radius;
        let mut y: usize = 0;
        while y < FRAME_HEIGHT
            invariant
                self.wf(),
                y <= FRAME_HEIGHT,
                cx <= 32000,
                cy <= 32000,
                radius <= 46340,
                r2 == radius * radius,
                forall|px: int, py: int|
                    #![trigger pixel_index(px, py)]
                    0 <= px < FRAME_WIDTH && 0 <= py < FRAME_HEIGHT ==> if in_circle(
                        cx as int,
                        cy as int,
                        radius as int,
                        px,
                        py,
                    ) && py < y {
                        pixel_is(self@, px, py, color.spec_bgr())
                    } else {
                        pixel_unchanged(self@, old(self)@, px, py)
                    },
            decreases FRAME_HEIGHT - y,
        {
            let mut x: usize = 0;
            while x < FRAME_WIDTH
                invariant
                    self.wf(),
                    y < FRAME_HEIGHT,
                    x <= FRAME_WIDTH,
                    cx <= 32000,
                    cy <= 32000,
                    radius <= 46340,
                    r2 == radius * radius,
                    forall|px: int, py: int|
                    #![trigger pixel_index(px, py)]
                        0 <= px < FRAME_WIDTH && 0 <= py < FRAME_HEIGHT ==> if in_circle(
                            cx as int,
                            cy as int,
                            radius as int,
                            px,
                            py,
                        ) && (py < y || (py == y && px < x)) {
                            pixel_is(self@, px, py, color.spec_bgr())
                        } else {
                            pixel_unchanged(self@, old(self)@, px, py)
                        },
                decreases FRAME_WIDTH - x,
            {
                proof {
                    lemma_square_bounded(x - cx, 32240);
                    lemma_square_bounded(y - cy, 32240);
                    lemma_square_bounded(radius as int, 46340);
                }
                let dx = x as i32 - cx as i32;
                let dy = y as i32 - cy as i32;
                if dx * dx + dy * dy <= r2 as i32 {
                    self.set_pixel(x, y, color);
                }
                x = x + 1;
            }
            y = y + 1;
        }
    }

    /// Reads one pixel, if the coordinates name one.
    pub fn get_pixel(&self, x: usize, y: usize) -> (r: Option<Color>)
        requires
            self.wf(),
        ensures
            x < FRAME_WIDTH && y < FRAME_HEIGHT ==> r == Some(
                Color::Custom(
                    self@[pixel_index(x as int, y as int) + 2],
                    self@[pixel_index(x as int, y as int) + 1],
                    self@[pixel_index(x as int, y as int)],
                ),
            ),
            x >= FRAME_WIDTH || y >= FRAME_HEIGHT ==> r == None::<Color>,
    {
        if x >= FRAME_WIDTH || y >= FRAME_HEIGHT {
            return None;
        }
        let idx = (y * FRAME_WIDTH + x) * 3;
        Some(Color::Custom(self.data[idx + 2], self.data[idx + 1], self.data[idx]))
    }

    /// Loads an RGB source image of the given dimensions, reversing
    /// each pixel's channels into device order.  A source of exactly
    /// the frame's dimensions maps pixel for pixel; any other source is
    /// placed centered, and pixels outside its footprint are zeroed.
    /// A source buffer shorter than its stated dimensions is refused.
    pub fn load_from_data(&mut self, data: &Vec<u8>, width: usize, height: usize) -> (r: Result<
        (),
        String,
    >)
        requires
            old(self).wf(),
            width * height * 3 <= usize::MAX,
        ensures
            final(self).wf(),
            data@.len() < width * height * 3 ==> {
                &&& r matches Err(m) && m@ == "source data too small"@
                &&& *final(self) == *old(self)
            },
            data@.len() >= width * height * 3 ==> {
                &&& r is Ok
                &&& forall|px: int, py: int|
                    #![trigger pixel_index(px, py)]
                    0 <= px < FRAME_WIDTH && 0 <= py < FRAME_HEIGHT ==> placed_pixel_ok(
                        final(self)@,
                        data@,
                        width as int,
                        height as int,
                        px,
                        py,
                    )
            },
    {
        if data.len() < width * height * 3 {
            return Err(String::from_str("source data too small"));
        }
        let min_w = if width < FRAME_WIDTH {
            width
        } else {
            FRAME_WIDTH
        };
        let min_h = if height < FRAME_HEIGHT {
            height
        } else {
            FRAME_HEIGHT
        };
        let offset_x = (FRAME_WIDTH - min_w) / 2;
        let offset_y = (FRAME_HEIGHT - min_h) / 2;
        let mut y: usize = 0;
        while y < FRAME_HEIGHT
            invariant
                self.wf(),
                y <= FRAME_HEIGHT,
                width * height * 3 <= usize::MAX,
                data@.len() >= width * height * 3,
                min_w == centered_min(width as int, FRAME_WIDTH as int),
                min_h == centered_min(height as int, FRAME_HEIGHT as int),
                offset_x == centered_offset(width as int, FRAME_WIDTH as int),
                offset_y == centered_offset(height as int, FRAME_HEIGHT as int),
                forall|px: int, py: int|
                    #![trigger pixel_index(px, py)]
                    0 <= px < FRAME_WIDTH && 0 <= py < FRAME_HEIGHT && py < y ==> placed_pixel_ok(
                        self@,
                        data@,
                        width as int,
                        height as int,
                        px,
                        py,
                    ),
            decreases FRAME_HEIGHT - y,
        {
            let mut x: usize = 0;
            while x < FRAME_WIDTH
                invariant
                    self.wf(),
                    y < FRAME_HEIGHT,
                    x <= FRAME_WIDTH,
                    width * height * 3 <= usize::MAX,
                    data@.len() >= width * height * 3,
                    min_w == centered_min(width as int, FRAME_WIDTH as int),
                    min_h == centered_min(height as int, FRAME_HEIGHT as int),
                    offset_x == centered_offset(width as int, FRAME_WIDTH as int),
                    offset_y == centered_offset(height as int, FRAME_HEIGHT as int),
                    forall|px: int, py: int|
                        #![trigger pixel_index(px, py)]
                        0 <= px < FRAME_WIDTH && 0 <= py < FRAME_HEIGHT && (py < y || (py == y && px
                            < x)) ==> placed_pixel_ok(
                            self@,
                            data@,
                            width as int,
                            height as int,
                            px,
                            py,
                        ),
                decreases FRAME_WIDTH - x,
            {
                let dst_idx = (y * FRAME_WIDTH + x) * 3;
                if x >= offset_x && x < offset_x + min_w && y >= offset_y && y < offset_y + min_h {
                    let src_x = x - offset_x;
                    let src_y = y - offset_y;
                    proof {
                        lemma_row_major_bound(
                            src_y as int,
                            src_x as int,
                            width as int,
                            height as int,
                        );
                    }
                    let src_idx = (src_y * width + src_x) * 3;
                    self.data.set(dst_idx, data[src_idx + 2]);
                    self.data.set(dst_idx + 1, data[src_idx + 1]);
                    self.data.set(dst_idx + 2, data[src_idx]);
                } else {
                    self.data.set(dst_idx, 0);
                    self.data.set(dst_idx + 1, 0);
                    self.data.set(dst_idx + 2, 0);
                }
                proof {
                    assert forall|px: int, py: int|
                        #![trigger pixel_index(px, py)]
                        0 <= px < FRAME_WIDTH && 0 <= py < FRAME_HEIGHT && (py < y || (py == y && px
                            < x + 1)) implies placed_pixel_ok(
                        self@,
                        data@,
                        width as int,
                        height as int,
                        px,
                        py,
                    ) by {
                        if !(px == x && py == y) {
                            lemma_pixel_index_disjoint(px, py, x as int, y as int);
                        }
                    }
                }
                x = x + 1;
            }
            y = y + 1;
        }
        Ok(())
    }

    /// Tiles the frame with colored blocks of side `block_size`, one
    /// color per block in row-major order; the strip past the last
    /// whole block stays black.
    pub fn render_test_pattern(&mut self, colors: &Vec<(u8, u8, u8)>, block_size: usize)
        requires
            old(self).wf(),
            block_size >= 1,
            colors@.len() == (FRAME_HEIGHT as int / block_size as int) * (FRAME_WIDTH as int
                / block_size as int),
        ensures
            final(self).wf(),
            forall|px: int, py: int|
                #![trigger pixel_index(px, py)]
                0 <= px < FRAME_WIDTH && 0 <= py < FRAME_HEIGHT ==> pattern_pixel_ok(
                    final(self)@,
                    colors@,
                    block_size as int,
                    px,
                    py,
                ),
    {
        self.clear(Color::Black);
        let cols = FRAME_WIDTH / block_size;
        let rows = FRAME_HEIGHT / block_size;
        proof {
            lemma_div_mul_le(FRAME_WIDTH as int, block_size as int);
            lemma_div_mul_le(FRAME_HEIGHT as int, block_size as int);
        }
        let mut row: usize = 0;
        while row < rows
            invariant
                self.wf(),
                block_size >= 1,
                cols == FRAME_WIDTH as int / block_size as int,
                rows == FRAME_HEIGHT as int / block_size as int,
                cols * block_size <= FRAME_WIDTH,
                rows * block_size <= FRAME_HEIGHT,
                cols <= FRAME_WIDTH,
                rows <= FRAME_HEIGHT,
                colors@.len() == rows * cols,
                row <= rows,
                forall|px: int, py: int|
                    #![trigger pixel_index(px, py)]
                    0 <= px < FRAME_WIDTH && 0 <= py < FRAME_HEIGHT ==> if px < cols * block_size
                        && py < rows * block_size && py / (block_size as int) < row {
                        pattern_pixel_ok(self@, colors@, block_size as int, px, py)
                    } else {
                        pixel_is(self@, px, py, (0u8, 0u8, 0u8))
                    },
            decreases rows - row,
        {
            let mut col: usize = 0;
            while col < cols
                invariant
                    self.wf(),
                    block_size >= 1,
                    cols == FRAME_WIDTH as int / block_size as int,
                    rows == FRAME_HEIGHT as int / block_size as int,
                    cols * block_size <= FRAME_WIDTH,
                    rows * block_size <= FRAME_HEIGHT,
                    cols <= FRAME_WIDTH,
                    rows <= FRAME_HEIGHT,
                    colors@.len() == rows * cols,
                    row < rows,
                    col <= cols,
                    forall|px: int, py: int|
                        #![trigger pixel_index(px, py)]
                        0 <= px < FRAME_WIDTH && 0 <= py < FRAME_HEIGHT ==> if px < cols
                            * block_size && py < rows * block_size && (py / (block_size as int)
                            < row || (py / (block_size as int) == row && px / (block_size as int)
                            < col)) {
                            pattern_pixel_ok(self@, colors@, block_size as int, px, py)
                        } else {
                            pixel_is(self@, px, py, (0u8, 0u8, 0u8))
                        },
                decreases cols - col,
            {
                proof {
                    lemma_grid_index(row as int, col as int, cols as int, rows as int);
                    lemma_mul_le(col + 1, cols as int, block_size as int);
                    lemma_mul_le(row + 1, rows as int, block_size as int);
                    lemma_mul_bounds(row as int, cols as int, FRAME_HEIGHT as int, FRAME_WIDTH as int);
                    lemma_mul_le(col as int, cols as int, block_size as int);
                    lemma_mul_le(row as int, rows as int, block_size as int);
                    lemma_mul_succ(col as int, block_size as int);
                    lemma_mul_succ(row as int, block_size as int);
                }
                let c = colors[row * cols + col];
                let bx = col * block_size;
                let by = row * block_size;
                self.fill_rect(bx, by, block_size, block_size, Color::Custom(c.0, c.1, c.2));
                proof {
                    let bs = block_size as int;
                    assert forall|px: int, py: int|
                        #![trigger pixel_index(px, py)]
                        0 <= px < FRAME_WIDTH && 0 <= py < FRAME_HEIGHT implies if px < cols * bs
                        && py < rows * bs && (py / bs < row || (py / bs == row && px / bs < col
                        + 1)) {
                        pattern_pixel_ok(self@, colors@, bs, px, py)
                    } else {
                        pixel_is(self@, px, py, (0u8, 0u8, 0u8))
                    } by {
                        lemma_div_block(px, bs, col as int);
                        lemma_div_block(py, bs, row as int);
                        lemma_mul_succ(col as int, bs);
                        lemma_mul_succ(row as int, bs);
                        if in_rect(bx as int, by as int, bs, bs, px, py) {
                            lemma_grid_index(row as int, col as int, cols as int, rows as int);
                            lemma_mul_le(row + 1, rows as int, bs);
                            lemma_mul_le(col + 1, cols as int, bs);
                        }
                    }
                }
                col = col + 1;
            }
            proof {
                let bs = block_size as int;
                assert forall|px: int, py: int|
                    #![trigger pixel_index(px, py)]
                    0 <= px < FRAME_WIDTH && 0 <= py < FRAME_HEIGHT implies if px < cols * bs && py
                    < rows * bs && py / bs < row + 1 {
                    pattern_pixel_ok(self@, colors@, bs, px, py)
                } else {
                    pixel_is(self@, px, py, (0u8, 0u8, 0u8))
                } by {
                    if 0 <= px < cols * bs {
                        lemma_div_lt(px, bs, cols as int);
                    }
                    lemma_div_block(py, bs, row as int);
                }
            }
            row = row + 1;
        }
        proof {
            let bs = block_size as int;
            assert forall|px: int, py: int|
                #![trigger pixel_index(px, py)]
                0 <= px < FRAME_WIDTH && 0 <= py < FRAME_HEIGHT implies pattern_pixel_ok(
                self@,
                colors@,
                bs,
                px,
                py,
            ) by {
                if 0 <= py < rows * bs {
                    lemma_div_lt(py, bs, rows as int);
                }
            }
        }
    }

    /// Tiles the frame with randomly colored blocks of side
    /// `block_size`: every pixel is either black or bright, each of
    /// its components at least 80.
    pub fn render_test_pattern_with_rng(block_size: usize) -> (r: Self)
        requires
            block_size >= 1,
        ensures
            r.wf(),
            forall|px: int, py: int|
                #![trigger pixel_index(px, py)]
                0 <= px < FRAME_WIDTH && 0 <= py < FRAME_HEIGHT ==> pixel_is(
                    r@,
                    px,
                    py,
                    (0u8, 0u8, 0u8),
                ) || (80 <= r@[pixel_index(px, py)] && 80 <= r@[pixel_index(px, py) + 1] && 80
                    <= r@[pixel_index(px, py) + 2]),
    {
        let cols = FRAME_WIDTH / block_size;
        let rows = FRAME_HEIGHT / block_size;
        proof {
            lemma_div_mul_le(FRAME_WIDTH as int, block_size as int);
            lemma_div_mul_le(FRAME_HEIGHT as int, block_size as int);
            lemma_mul_bounds(rows as int, cols as int, FRAME_HEIGHT as int, FRAME_WIDTH as int);
        }
        let total = rows * cols;
        let mut colors: Vec<(u8, u8, u8)> = Vec::new();
        let mut i: usize = 0;
        while i < total
            invariant
                i <= total,
                colors@.len() == i,
                forall|j: int|
                    0 <= j < i ==> {
                        &&& 80 <= (#[trigger] colors@[j]).0
                        &&& 80 <= colors@[j].1
                        &&& 80 <= colors@[j].2
                    },
            decreases total - i,
        {
            let cr = random_component();
            let cg = random_component();
            let cb = random_component();
            colors.push((cr, cg, cb));
            i = i + 1;
        }
        let mut buf = Self::new();
        buf.render_test_pattern(&colors, block_size);
        proof {
            let bs = block_size as int;
            assert forall|px: int, py: int|
                #![trigger pixel_index(px, py)]
                0 <= px < FRAME_WIDTH && 0 <= py < FRAME_HEIGHT implies pixel_is(
                buf@,
                px,
                py,
                (0u8, 0u8, 0u8),
            ) || (80 <= buf@[pixel_index(px, py)] && 80 <= buf@[pixel_index(px, py) + 1] && 80
                <= buf@[pixel_index(px, py) + 2]) by {
                if px < cols * bs && py < rows * bs {
                    lemma_div_lt(px, bs, cols as int);
                    lemma_div_lt(py, bs, rows as int);
                    lemma_grid_index(py / bs, px / bs, cols as int, rows as int);
                }
            }
        }
        buf
    }

    /// The raw bytes.
    pub fn as_data(&self) -> (r: &Vec<u8>)
        ensures
            r@ == self@,
    {
        &self.data
    }

    /// The raw bytes, writable.  The caller must keep a whole frame in place.
    pub fn as_mut_data(&mut self) -> (r: &mut Vec<u8>)
        ensures
            *r == old(self).data,
            final(self).data == *final(r),
    {
        &mut self.data
    }
}

/// Distinct pixels occupy disjoint byte triplets.
proof fn lemma_pixel_index_disjoint(x1: int, y1: int, x2: int, y2: int)
    requires
        0 <= x1 < FRAME_WIDTH,
        0 <= y1 < FRAME_HEIGHT,
        0 <= x2 < FRAME_WIDTH,
        0 <= y2 < FRAME_HEIGHT,
        !(x1 == x2 && y1 == y2),
    ensures
        pixel_index(x1, y1) + 3 <= pixel_index(x2, y2) || pixel_index(x2, y2) + 3 <= pixel_index(
            x1,
            y1,
        ),
{
    let p1 = y1 * FRAME_WIDTH + x1;
    let p2 = y2 * FRAME_WIDTH + x2;
    assert(p1 != p2);
}

} // verus!
