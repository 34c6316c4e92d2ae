//! The raw display surface: bounds-checked pixel writes, frame blits and the
//! placement of the overlay drawn over each frame.

use vstd::prelude::*;

verus! {

/// Width of the panel, in pixels.
pub const FRAME_WIDTH: u32 = 800;

/// Height of the panel, in pixels.
pub const FRAME_HEIGHT: u32 = 480;

/// Bytes per pixel, stored as blue, green, red, alpha.
pub const BYTES_PER_PIXEL: u32 = 4;

/// Advance of one glyph of the label font, used to center the camera name.
pub const GLYPH_WIDTH: u32 = 10;

/// Baseline of the camera name, from the top of the surface.
pub const NAME_BASELINE: i32 = 30;

/// Distance of an arrow's tip from its edge of the surface.
pub const ARROW_INSET: i32 = 10;

/// Horizontal depth of an arrow, from its tip to its base.
pub const ARROW_DEPTH: i32 = 50;

/// Half the height of an arrow's base.
pub const ARROW_HALF_HEIGHT: i32 = 30;

/// Shape of the surface: visible size and the length of one row in bytes.
#[derive(Clone, Copy, Debug, PartialEq, Eq, Structural)]
pub struct Geometry {
    pub width: u32,
    pub height: u32,
    pub stride: u32,
}

/// An RGB color.
#[derive(Clone, Copy, Debug, PartialEq, Eq, Structural)]
pub struct Rgb {
    pub r: u8,
    pub g: u8,
    pub b: u8,
}

/// A point in surface coordinates.
#[derive(Clone, Copy, Debug, PartialEq, Eq, Structural)]
pub struct Vertex {
    pub x: i32,
    pub y: i32,
}

/// A filled triangle pointing left or right.
#[derive(Clone, Copy, Debug, PartialEq, Eq, Structural)]
pub struct Arrow {
    pub tip: Vertex,
    pub upper: Vertex,
    pub lower: Vertex,
}

/// Where the overlay goes: the name's start point and the two arrows.
#[derive(Clone, Copy, Debug, PartialEq, Eq, Structural)]
pub struct Overlay {
    pub name_at: Vertex,
    pub left: Arrow,
    pub right: Arrow,
}

impl Geometry {
    /// The panel's fixed shape: 800 by 480, four bytes a pixel, rows packed.
    pub fn fixed() -> (r: Geometry)
        ensures
            r.width == FRAME_WIDTH,
            r.height == FRAME_HEIGHT,
            r.stride == FRAME_WIDTH * BYTES_PER_PIXEL,
    {
        Geometry { width: FRAME_WIDTH, height: FRAME_HEIGHT, stride: FRAME_WIDTH * BYTES_PER_PIXEL }
    }

    /// A packed shape of the given size; `None` where a row's length in bytes
    /// does not fit in `u32`.
    pub fn packed(width: u32, height: u32) -> (r: Option<Geometry>)
        ensures
            r is None <==> width * BYTES_PER_PIXEL > u32::MAX,
            r matches Some(g) ==> g.width == width && g.height == height && g.stride
                == width * BYTES_PER_PIXEL,
    {
        if width > u32::MAX / BYTES_PER_PIXEL {
            None
        } else {
            Some(Geometry { width, height, stride: width * BYTES_PER_PIXEL })
        }
    }
}

/// Byte offset of pixel (x, y).
pub open spec fn pixel_offset(g: Geometry, x: int, y: int) -> int {
    y * g.stride + x * BYTES_PER_PIXEL
}

/// Whether a pixel write at (x, y) lands: the point is on the surface and
/// its four bytes lie within the first `len` bytes.
pub open spec fn pixel_lands(g: Geometry, x: int, y: int, len: int) -> bool {
    &&& 0 <= x < g.width
    &&& 0 <= y < g.height
    &&& pixel_offset(g, x, y) + BYTES_PER_PIXEL <= len
}

/// The bytes after a write of `c` at `o`: blue, green, red, then opaque alpha.
pub open spec fn with_pixel(s: Seq<u8>, o: int, c: Rgb) -> Seq<u8> {
    s.update(o, c.b).update(o + 1, c.g).update(o + 2, c.r).update(o + 3, 255u8)
}

/// Writes one pixel; a point off the surface, or past its end, is dropped.
pub fn put_pixel(surface: &mut [u8], g: Geometry, x: i32, y: i32, c: Rgb) -> (r: bool)
    ensures
        r == pixel_lands(g, x as int, y as int, old(surface)@.len() as int),
        r ==> final(surface)@ == with_pixel(old(surface)@, pixel_offset(g, x as int, y as int), c),
        !r ==> final(surface)@ == old(surface)@,
{
    if x < 0 || y < 0 || x as u32 >= g.width || y as u32 >= g.height {
        return false;
    }
    proof {
        assert((y as u64) * (g.stride as u64) <= 0x7fff_ffffu64 * 0xffff_ffffu64) by (nonlinear_arith)
            requires
                y as u64 <= 0x7fff_ffffu64,
                g.stride as u64 <= 0xffff_ffffu64,
        ;
    }
    let offset: u64 = (y as u64) * (g.stride as u64) + (x as u64) * 4;
    if offset + 4 > surface.len() as u64 {
        return false;
    }
    let o = offset as usize;
    surface[o] = c.b;
    surface[o + 1] = c.g;
    surface[o + 2] = c.r;
    surface[o + 3] = 255;
    true
}

/// The surface after a blit of `frame`: the common prefix comes from the
/// frame, the rest is kept.
pub open spec fn blitted(surface: Seq<u8>, frame: Seq<u8>) -> Seq<u8> {
    if frame.len() >= surface.len() {
        frame.subrange(0, surface.len() as int)
    } else {
        frame + surface.subrange(frame.len() as int, surface.len() as int)
    }
}

/// A blit keeps the surface's length and changes no byte past the frame's
/// end: every byte it writes lies in `[0, surface length)`.
pub proof fn lemma_blit_stays_in_surface(surface: Seq<u8>, frame: Seq<u8>)
    ensures
        blitted(surface, frame).len() == surface.len(),
        forall|i: int|
            0 <= i < surface.len() ==> #[trigger] blitted(surface, frame)[i] == if i < frame.len() {
                frame[i]
            } else {
                surface[i]
            },
{
}

/// A pixel write that lands keeps the surface's length and changes only the
/// pixel's own four bytes.
pub proof fn lemma_pixel_stays_in_surface(s: Seq<u8>, g: Geometry, x: int, y: int, c: Rgb)
    requires
        pixel_lands(g, x, y, s.len() as int),
    ensures
        with_pixel(s, pixel_offset(g, x, y), c).len() == s.len(),
        forall|i: int|
            0 <= i < s.len() && !(pixel_offset(g, x, y) <= i < pixel_offset(g, x, y) + BYTES_PER_PIXEL)
                ==> #[trigger] with_pixel(s, pixel_offset(g, x, y), c)[i] == s[i],
{
    assert(0 <= pixel_offset(g, x, y)) by (nonlinear_arith)
        requires
            0 <= x,
            0 <= y,
            0 <= g.stride,
    ;
}

/// Copies a frame's bytes onto the surface, as many as both hold; returns how
/// many were copied. A longer frame is cut, a shorter one updates a prefix.
pub fn blit(surface: &mut [u8], frame: &[u8]) -> (n: usize)
    ensures
        n == if frame@.len() < old(surface)@.len() { frame@.len() } else { old(surface)@.len() },
        final(surface)@ == blitted(old(surface)@, frame@),
{
    let n = if frame.len() < surface.len() { frame.len() } else { surface.len() };
    let mut i: usize = 0;
    while i < n
        invariant
            n <= surface@.len(),
            n <= frame@.len(),
            n == if frame@.len() < old(surface)@.len() { frame@.len() } else { old(surface)@.len() },
            i <= n,
            surface@.len() == old(surface)@.len(),
            forall|j: int| 0 <= j < i ==> surface@[j] == frame@[j],
            forall|j: int| i <= j < surface@.len() ==> surface@[j] == old(surface)@[j],
        decreases n - i,
    {
        surface[i] = frame[i];
        i = i + 1;
    }
    assert(surface@ =~= blitted(old(surface)@, frame@));
    n
}

/// Left edge of a label of `len` glyphs centered on a surface `width` wide;
/// a label wider than the surface starts at the left edge.
pub open spec fn label_x(len: int, width: int) -> int {
    if len * GLYPH_WIDTH >= width {
        0
    } else {
        (width - len * GLYPH_WIDTH) / 2
    }
}

/// The arrow at the left edge, pointing left, centered vertically.
pub open spec fn left_arrow(g: Geometry) -> Arrow {
    let mid = g.height as int / 2;
    Arrow {
        tip: Vertex { x: ARROW_INSET, y: mid as i32 },
        upper: Vertex { x: (ARROW_INSET + ARROW_DEPTH) as i32, y: (mid - ARROW_HALF_HEIGHT) as i32 },
        lower: Vertex { x: (ARROW_INSET + ARROW_DEPTH) as i32, y: (mid + ARROW_HALF_HEIGHT) as i32 },
    }
}

/// The arrow at the right edge, pointing right, centered vertically.
pub open spec fn right_arrow(g: Geometry) -> Arrow {
    let mid = g.height as int / 2;
    let tip_x = g.width as int - ARROW_INSET;
    Arrow {
        tip: Vertex { x: tip_x as i32, y: mid as i32 },
        upper: Vertex { x: (tip_x - ARROW_DEPTH) as i32, y: (mid - ARROW_HALF_HEIGHT) as i32 },
        lower: Vertex { x: (tip_x - ARROW_DEPTH) as i32, y: (mid + ARROW_HALF_HEIGHT) as i32 },
    }
}

/// Places the overlay for a camera called `name`: the name roughly centered
/// near the top, one arrow at each side edge.
pub fn overlay_layout(g: Geometry, name: &str) -> (r: Overlay)
    requires
        g.width <= i32::MAX,
        g.height <= i32::MAX,
    ensures
        r.name_at.x == label_x(name@.len() as int, g.width as int),
        r.name_at.y == NAME_BASELINE,
        r.left == left_arrow(g),
        r.right == right_arrow(g),
{
    let len = name.unicode_len();
    let x: u32 = if len >= g.width as usize {
        0
    } else {
        let text_width: u64 = len as u64 * GLYPH_WIDTH as u64;
        if text_width >= g.width as u64 {
            0
        } else {
            ((g.width as u64 - text_width) / 2) as u32
        }
    };
    let mid: i32 = (g.height / 2) as i32;
    let tip_x: i32 = g.width as i32 - ARROW_INSET;
    Overlay {
        name_at: Vertex { x: x as i32, y: NAME_BASELINE },
        left: Arrow {
            tip: Vertex { x: ARROW_INSET, y: mid },
            upper: Vertex { x: ARROW_INSET + ARROW_DEPTH, y: mid - ARROW_HALF_HEIGHT },
            lower: Vertex { x: ARROW_INSET + ARROW_DEPTH, y: mid + ARROW_HALF_HEIGHT },
        },
        right: Arrow {
            tip: Vertex { x: tip_x, y: mid },
            upper: Vertex { x: tip_x - ARROW_DEPTH, y: mid - ARROW_HALF_HEIGHT },
            lower: Vertex { x: tip_x - ARROW_DEPTH, y: mid + ARROW_HALF_HEIGHT },
        },
    }
}

} // verus!
