//! Screen-space to normalized-device-coordinate transforms, done exactly.
//!
//! A coordinate is kept as a fraction `num / den` with a positive denominator,
//! so the transforms below are stated and proved without rounding.
use vstd::prelude::*;

verus! {

/// A rational number `num / den`; `den` is positive in every value built here.
#[derive(Clone, Copy, Debug, PartialEq, Eq, Structural)]
pub struct Ratio {
    pub num: i64,
    pub den: u32,
}

impl Ratio {
    pub open spec fn wf(self) -> bool {
        self.den > 0
    }

    /// The two fractions stand for the same rational number.
    pub open spec fn same_value(self, other: Ratio) -> bool {
        self.num * other.den == other.num * self.den
    }

    /// The value lies in the closed interval [-1, 1].
    pub open spec fn in_unit_range(self) -> bool {
        -(self.den as int) <= self.num <= self.den
    }
}

/// A point in pixels, origin at the top-left corner, y growing downwards.
#[derive(Clone, Copy, Debug, PartialEq, Eq, Structural)]
pub struct PixelPoint {
    pub x: u32,
    pub y: u32,
}

/// A point in normalized device coordinates: origin at the centre, y upwards.
#[derive(Clone, Copy, Debug, PartialEq, Eq, Structural)]
pub struct NdcPoint {
    pub x: Ratio,
    pub y: Ratio,
}

/// The size of the drawing surface in pixels.
#[derive(Clone, Copy, Debug, PartialEq, Eq, Structural)]
pub struct ViewportState {
    pub width: u32,
    pub height: u32,
}

/// `x_ndc = 2 x / W - 1`, `y_ndc = 1 - 2 y / H`, over the denominators `W` and `H`.
pub open spec fn ndc_of(p: PixelPoint, width: u32, height: u32) -> NdcPoint {
    NdcPoint {
        x: Ratio { num: (2 * p.x - width) as i64, den: width },
        y: Ratio { num: (height - 2 * p.y) as i64, den: height },
    }
}

impl ViewportState {
    /// Both sides are non-zero, so the transforms are defined.
    pub open spec fn wf(self) -> bool {
        self.width > 0 && self.height > 0
    }

    /// A viewport of the given size; `None` when either side is zero.
    pub fn new(width: u32, height: u32) -> (r: Option<ViewportState>)
        ensures
            width > 0 && height > 0 ==> r == Some(ViewportState { width, height }),
            width == 0 || height == 0 ==> r is None,
    {
        if width > 0 && height > 0 {
            Some(ViewportState { width, height })
        } else {
            None
        }
    }

    /// Takes a new size; a size with a zero side is ignored.
    pub fn resize(&mut self, width: u32, height: u32)
        ensures
            width > 0 && height > 0 ==> *final(self) == (ViewportState { width, height }),
            width == 0 || height == 0 ==> *final(self) == *old(self),
    {
        if width > 0 && height > 0 {
            self.width = width;
            self.height = height;
        }
    }

    /// Maps a pixel position to normalized device coordinates.
    pub fn to_ndc(&self, p: PixelPoint) -> (r: NdcPoint)
        requires
            self.wf(),
        ensures
            r == ndc_of(p, self.width, self.height),
            r.x.wf() && r.y.wf(),
    {
        let x: i64 = 2 * (p.x as i64) - (self.width as i64);
        let y: i64 = (self.height as i64) - 2 * (p.y as i64);
        NdcPoint { x: Ratio { num: x, den: self.width }, y: Ratio { num: y, den: self.height } }
    }

    /// The share of the viewport that an image of `w` by `h` pixels covers on
    /// each axis: `(w / W, h / H)`.
    pub fn size_ratio(&self, w: u32, h: u32) -> (r: (Ratio, Ratio))
        requires
            self.wf(),
        ensures
            r.0 == (Ratio { num: w as i64, den: self.width }),
            r.1 == (Ratio { num: h as i64, den: self.height }),
    {
        (Ratio { num: w as i64, den: self.width }, Ratio { num: h as i64, den: self.height })
    }
}

/// One corner of a textured quad: its position and its texture coordinate,
/// each texture coordinate being 0 or 1.
#[derive(Clone, Copy, Debug, PartialEq, Eq, Structural)]
pub struct QuadVertex {
    pub position: NdcPoint,
    pub tex_u: u32,
    pub tex_v: u32,
}

/// The corner of the quad at texture coordinate `(u, v)`, for an image of
/// `w` by `h` pixels whose top-left corner sits at pixel `anchor`.
pub open spec fn corner(anchor: PixelPoint, w: u32, h: u32, vp: ViewportState, u: u32, v: u32) -> QuadVertex {
    QuadVertex {
        position: NdcPoint {
            x: Ratio { num: (2 * anchor.x - vp.width + u * w) as i64, den: vp.width },
            y: Ratio { num: (vp.height - 2 * anchor.y - v * h) as i64, den: vp.height },
        },
        tex_u: u,
        tex_v: v,
    }
}

/// The two triangles of the quad, clockwise: top-left, top-right,
/// bottom-left, then top-right, bottom-right, bottom-left.
pub open spec fn quad_of(anchor: PixelPoint, w: u32, h: u32, vp: ViewportState) -> Seq<QuadVertex> {
    seq![
        corner(anchor, w, h, vp, 0, 0),
        corner(anchor, w, h, vp, 1, 0),
        corner(anchor, w, h, vp, 0, 1),
        corner(anchor, w, h, vp, 1, 0),
        corner(anchor, w, h, vp, 1, 1),
        corner(anchor, w, h, vp, 0, 1),
    ]
}

/// The corner of the quad at `(u, v)`: the quad's top-left corner is
/// `to_ndc(anchor)` and its sides are those that `size_ratio(w, h)` gives.
fn make_corner(anchor: PixelPoint, w: u32, h: u32, vp: &ViewportState, u: u32, v: u32) -> (r: QuadVertex)
    requires
        vp.wf(),
        u <= 1,
        v <= 1,
    ensures
        r == corner(anchor, w, h, *vp, u, v),
{
    let dx: i64 = if u == 1 { w as i64 } else { 0 };
    let dy: i64 = if v == 1 { h as i64 } else { 0 };
    let x: i64 = 2 * (anchor.x as i64) - (vp.width as i64) + dx;
    let y: i64 = (vp.height as i64) - 2 * (anchor.y as i64) - dy;
    QuadVertex {
        position: NdcPoint { x: Ratio { num: x, den: vp.width }, y: Ratio { num: y, den: vp.height } },
        tex_u: u,
        tex_v: v,
    }
}

/// The six vertices of the quad that shows an image of `w` by `h` pixels with
/// its top-left corner at pixel `anchor`, at one image pixel per viewport share.
pub fn quad_vertices(anchor: PixelPoint, w: u32, h: u32, vp: &ViewportState) -> (r: Vec<QuadVertex>)
    requires
        vp.wf(),
    ensures
        r@ == quad_of(anchor, w, h, *vp),
{
    let top_left = make_corner(anchor, w, h, vp, 0, 0);
    let top_right = make_corner(anchor, w, h, vp, 1, 0);
    let bottom_left = make_corner(anchor, w, h, vp, 0, 1);
    let bottom_right = make_corner(anchor, w, h, vp, 1, 1);
    let r = vec![top_left, top_right, bottom_left, top_right, bottom_right, bottom_left];
    assert(r@ =~= quad_of(anchor, w, h, *vp));
    r
}

/// How the pixel rows of an RGBA8 image are laid out for a texture upload.
#[derive(Clone, Copy, Debug, PartialEq, Eq, Structural)]
pub struct TextureUpload {
    pub width: u32,
    pub height: u32,
    pub bytes_per_row: u32,
    pub rows_per_image: u32,
}

/// Rows of four bytes per pixel with no padding; `None` when a row's length
/// does not fit in 32 bits.
pub fn upload_layout(width: u32, height: u32) -> (r: Option<TextureUpload>)
    ensures
        4 * width <= u32::MAX ==> r == Some(
            TextureUpload { width, height, bytes_per_row: (4 * width) as u32, rows_per_image: height },
        ),
        4 * width > u32::MAX ==> r is None,
{
    match width.checked_mul(4) {
        Some(bytes_per_row) => Some(TextureUpload { width, height, bytes_per_row, rows_per_image: height }),
        None => None,
    }
}

/// Distinct pixels of the viewport map to distinct points, with the corners
/// and the centre landing where the transform puts them: the top-left corner
/// at (-1, 1), the bottom-right corner at (1, -1), and the centre pixel
/// `(W / 2, H / 2)` at (0, 0) on a side of even length, and at most one
/// pixel's width short of it, at `-1 / W` or `1 / H`, on a side of odd length.
pub proof fn law_to_ndc_bijective(vp: ViewportState, p: PixelPoint, q: PixelPoint)
    requires
        vp.wf(),
    ensures
        ndc_of(p, vp.width, vp.height).x.same_value(ndc_of(q, vp.width, vp.height).x)
            && ndc_of(p, vp.width, vp.height).y.same_value(ndc_of(q, vp.width, vp.height).y)
            ==> p == q,
        ndc_of(PixelPoint { x: 0, y: 0 }, vp.width, vp.height).x.same_value(Ratio { num: -1i64, den: 1 }),
        ndc_of(PixelPoint { x: 0, y: 0 }, vp.width, vp.height).y.same_value(Ratio { num: 1, den: 1 }),
        ndc_of(PixelPoint { x: vp.width, y: vp.height }, vp.width, vp.height).x.same_value(Ratio { num: 1, den: 1 }),
        ndc_of(PixelPoint { x: vp.width, y: vp.height }, vp.width, vp.height).y.same_value(Ratio { num: -1i64, den: 1 }),
        ({
            let c = ndc_of(PixelPoint { x: (vp.width / 2) as u32, y: (vp.height / 2) as u32 }, vp.width, vp.height);
            &&& c.x.num == -((vp.width % 2) as int)
            &&& c.y.num == vp.height % 2
            &&& vp.width % 2 == 0 ==> c.x.same_value(Ratio { num: 0, den: 1 })
            &&& vp.height % 2 == 0 ==> c.y.same_value(Ratio { num: 0, den: 1 })
        }),
{
    let a = ndc_of(p, vp.width, vp.height);
    let b = ndc_of(q, vp.width, vp.height);
    let (wd, ht) = (vp.width as int, vp.height as int);
    assert(a.x.num == 2 * p.x - wd && b.x.num == 2 * q.x - wd);
    assert(a.y.num == ht - 2 * p.y && b.y.num == ht - 2 * q.y);
    if a.x.same_value(b.x) && a.y.same_value(b.y) {
        assert(a.x.num == b.x.num) by (nonlinear_arith)
            requires
                a.x.num * wd == b.x.num * wd,
                wd > 0,
        ;
        assert(a.y.num == b.y.num) by (nonlinear_arith)
            requires
                a.y.num * ht == b.y.num * ht,
                ht > 0,
        ;
    }
}

/// Every grid point of the transform's range is reached: numerators `a` in
/// [-W, W] and `b` in [-H, H] of the parity of `W` and `H` come from exactly
/// the pixel `((a + W) / 2, (H - b) / 2)`.
pub proof fn law_to_ndc_onto(vp: ViewportState, a: int, b: int)
    requires
        vp.wf(),
        -vp.width <= a <= vp.width,
        -vp.height <= b <= vp.height,
        (a + vp.width) % 2 == 0,
        (vp.height - b) % 2 == 0,
    ensures
        ({
            let p = PixelPoint { x: ((a + vp.width) / 2) as u32, y: ((vp.height - b) / 2) as u32 };
            ndc_of(p, vp.width, vp.height).x.num == a && ndc_of(p, vp.width, vp.height).y.num == b
        }),
{
}

/// A quad whose image fits between its anchor and the right and bottom edges
/// of the viewport (at the quad's scale) has all six vertices inside [-1, 1].
pub proof fn law_quad_inside_viewport(anchor: PixelPoint, w: u32, h: u32, vp: ViewportState)
    requires
        vp.wf(),
        2 * anchor.x + w <= 2 * vp.width,
        2 * anchor.y + h <= 2 * vp.height,
    ensures
        forall|i: int| 0 <= i < 6 ==> {
            &&& (#[trigger] quad_of(anchor, w, h, vp)[i]).position.x.in_unit_range()
            &&& quad_of(anchor, w, h, vp)[i].position.y.in_unit_range()
        },
{
}

} // verus!
