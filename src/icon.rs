use vstd::prelude::*;

verus! {

/// Width and height of the status icon, in pixels.
pub const ICON_SIDE: u32 = 64;

/// Number of pixels in the status icon.
pub const ICON_PIXELS: usize = 4096;

/// Number of bytes in the status icon, four per pixel.
pub const ICON_BYTES: usize = 16384;

/// The vertical origin of glyph text: `(64 - 48) / 2` for a 48 px scale.
pub const TEXT_TOP: i32 = 8;

/// A finished status icon: `width * height` pixels, four bytes each, in
/// alpha, red, green, blue order, row by row.
#[derive(Clone, Debug)]
pub struct IconImage {
    pub width: i32,
    pub height: i32,
    pub data: Vec<u8>,
}

/// Whether pixel `(x, y)` lies in the gauge ring: its squared distance from
/// the centre `(32, 32)` is above `22²` and at most `28²`.
pub open spec fn in_ring(x: int, y: int) -> bool {
    let dx = x - 32;
    let dy = y - 32;
    22 * 22 < dx * dx + dy * dy && dx * dx + dy * dy <= 28 * 28
}

/// Colour of the ring's unfilled part, as `[r, g, b, a]`.
pub open spec fn ring_background() -> Seq<u8> {
    seq![128u8, 128u8, 128u8, 255u8]
}

/// Colour of the ring's filled part, as `[r, g, b, a]`.
pub open spec fn ring_fill() -> Seq<u8> {
    seq![0u8, 255u8, 0u8, 255u8]
}

/// Colour of every pixel outside the ring, as `[r, g, b, a]`.
pub open spec fn transparent() -> Seq<u8> {
    seq![0u8, 0u8, 0u8, 0u8]
}

/// The colour of pixel `i` of a ring gauge, where `filled` says whether the
/// pixel's angle lies within the gauge's share of the full turn.
pub open spec fn gauge_pixel(i: int, filled: bool) -> Seq<u8> {
    if in_ring(i % 64, i / 64) {
        if filled { ring_fill() } else { ring_background() }
    } else {
        transparent()
    }
}

/// The four bytes of pixel `i` of an `[r, g, b, a]` buffer.
pub open spec fn pixel_of(rgba: Seq<u8>, i: int) -> Seq<u8> {
    rgba.subrange(4 * i, 4 * i + 4)
}

/// Whether pixel `(x, y)` lies in the gauge ring.
pub fn pixel_in_ring(x: u32, y: u32) -> (r: bool)
    requires
        x < ICON_SIDE,
        y < ICON_SIDE,
    ensures
        r == in_ring(x as int, y as int),
{
    let dx: i64 = x as i64 - 32;
    let dy: i64 = y as i64 - 32;
    assert(0 <= dx * dx <= 1024) by (nonlinear_arith)
        requires
            -32 <= dx <= 32,
    ;
    assert(0 <= dy * dy <= 1024) by (nonlinear_arith)
        requires
            -32 <= dy <= 32,
    ;
    let d = dx * dx + dy * dy;
    22 * 22 < d && d <= 28 * 28
}

/// Draws the ring gauge into a 64×64 `[r, g, b, a]` buffer. `filled[i]`
/// tells, for pixel `i` (row by row), whether its clockwise angle from the
/// top is below the gauge's share of the full turn. Pixels in the ring are
/// drawn in the fill colour where `filled` says so and in the background
/// colour elsewhere; all other pixels stay transparent.
pub fn ring_gauge_rgba(filled: &Vec<bool>) -> (r: Vec<u8>)
    requires
        filled@.len() == ICON_PIXELS,
    ensures
        r@.len() == ICON_BYTES,
        forall|i: int| 0 <= i < ICON_PIXELS ==> #[trigger] pixel_of(r@, i) == gauge_pixel(i, filled@[i]),
{
    let mut out: Vec<u8> = Vec::with_capacity(ICON_BYTES);
    let mut i: usize = 0;
    while i < ICON_PIXELS
        invariant
            filled@.len() == ICON_PIXELS,
            i <= ICON_PIXELS,
            out@.len() == 4 * i,
            forall|j: int| 0 <= j < i ==> #[trigger] pixel_of(out@, j) == gauge_pixel(j, filled@[j]),
        decreases ICON_PIXELS - i,
    {
        let x = (i % 64) as u32;
        let y = (i / 64) as u32;
        let (cr, cg, cb, ca): (u8, u8, u8, u8) = if pixel_in_ring(x, y) {
            if filled[i] { (0, 255, 0, 255) } else { (128, 128, 128, 255) }
        } else {
            (0, 0, 0, 0)
        };
        let ghost before = out@;
        out.push(cr);
        out.push(cg);
        out.push(cb);
        out.push(ca);
        proof {
            assert(pixel_of(out@, i as int) =~= gauge_pixel(i as int, filled@[i as int]));
            assert forall|j: int| 0 <= j < i implies #[trigger] pixel_of(out@, j) == gauge_pixel(j, filled@[j]) by {
                assert(pixel_of(out@, j) =~= pixel_of(before, j));
            }
        }
        i = i + 1;
    }
    out
}

/// Reorders a 64×64 `[r, g, b, a]` buffer into the icon's
/// `[a, r, g, b]` byte order, pixel by pixel.
pub fn icon_from_rgba(rgba: &Vec<u8>) -> (r: IconImage)
    requires
        rgba@.len() == ICON_BYTES,
    ensures
        r.width == 64,
        r.height == 64,
        r.data@.len() == ICON_BYTES,
        forall|i: int| 0 <= i < ICON_PIXELS ==> #[trigger] pixel_of(r.data@, i) == seq![
            rgba@[4 * i + 3],
            rgba@[4 * i],
            rgba@[4 * i + 1],
            rgba@[4 * i + 2],
        ],
{
    let mut data: Vec<u8> = Vec::with_capacity(ICON_BYTES);
    let mut i: usize = 0;
    while i < ICON_PIXELS
        invariant
            rgba@.len() == ICON_BYTES,
            i <= ICON_PIXELS,
            data@.len() == 4 * i,
            forall|j: int| 0 <= j < i ==> #[trigger] pixel_of(data@, j) == seq![
                rgba@[4 * j + 3],
                rgba@[4 * j],
                rgba@[4 * j + 1],
                rgba@[4 * j + 2],
            ],
        decreases ICON_PIXELS - i,
    {
        let ghost before = data@;
        let base = 4 * i;
        data.push(rgba[base + 3]);
        data.push(rgba[base]);
        data.push(rgba[base + 1]);
        data.push(rgba[base + 2]);
        proof {
            assert(pixel_of(data@, i as int) =~= seq![
                rgba@[4 * i + 3],
                rgba@[4 * i],
                rgba@[4 * i + 1],
                rgba@[4 * i + 2],
            ]);
            assert forall|j: int| 0 <= j < i implies #[trigger] pixel_of(data@, j) == seq![
                rgba@[4 * j + 3],
                rgba@[4 * j],
                rgba@[4 * j + 1],
                rgba@[4 * j + 2],
            ] by {
                assert(pixel_of(data@, j) =~= pixel_of(before, j));
            }
        }
        i = i + 1;
    }
    IconImage { width: 64, height: 64, data }
}

/// The icon shown when the glyph font cannot be had: every byte zero.
pub fn transparent_icon() -> (r: IconImage)
    ensures
        r.width == 64,
        r.height == 64,
        r.data@.len() == ICON_BYTES,
        forall|k: int| 0 <= k < ICON_BYTES ==> r.data@[k] == 0,
{
    let mut data: Vec<u8> = Vec::with_capacity(ICON_BYTES);
    let mut k: usize = 0;
    while k < ICON_BYTES
        invariant
            k <= ICON_BYTES,
            data@.len() == k,
            forall|j: int| 0 <= j < k ==> data@[j] == 0,
        decreases ICON_BYTES - k,
    {
        data.push(0);
        k = k + 1;
    }
    IconImage { width: 64, height: 64, data }
}

/// Where glyph text starts so that it stands centred: `width` is the sum of
/// the glyphs' advance widths in 1/64 px. The left edge `x` leaves equal
/// room on both sides, rounded down to a whole pixel, and is 0 where the
/// text is wider than the icon; the top edge is fixed.
pub fn text_origin(width: u32) -> (r: (i32, i32))
    ensures
        r.1 == TEXT_TOP,
        width >= 64 * 64 ==> r.0 == 0,
        width < 64 * 64 ==> {
            &&& 0 <= r.0 <= 32
            &&& 2 * (r.0 as int) * 64 + width <= 64 * 64
            &&& 64 * 64 - (2 * (r.0 as int) * 64 + width) < 128
        },
{
    if width >= 64 * 64 {
        (0, TEXT_TOP)
    } else {
        let room: u32 = 64 * 64 - width;
        let x = room / 128;
        assert(x * 128 <= room < x * 128 + 128) by (nonlinear_arith)
            requires
                x == room / 128,
        ;
        (x as i32, TEXT_TOP)
    }
}

} // verus!
