//! Sprite fields: which colour is drawn at which point of the stage.
//!
//! A field is built once from a decoded raster and never changes afterwards.
//! Source rows are squashed to half height, so that a square picture fits the
//! tall cells of a terminal; the two topmost rows fall together at height 0.

use crate::geometry::Vector2;
use vstd::arithmetic::div_mod::lemma_fundamental_div_mod;
use vstd::arithmetic::div_mod::lemma_fundamental_div_mod_converse;
use vstd::prelude::*;

verus! {

/// A colour of three 8-bit channels.
#[derive(Clone, Copy, Debug, PartialEq, Eq, Structural)]
pub struct Rgb {
    pub r: u8,
    pub g: u8,
    pub b: u8,
}

/// One coloured point of a sprite field, at a position in half cells.
#[derive(Clone, Copy, Debug, PartialEq, Eq, Structural)]
pub struct Pixel {
    pub at: Vector2,
    pub color: Rgb,
}

/// The height, in half cells, at which source row `row` is shown: half the
/// row's number in cells, except that rows 0 and 1 are both shown at 0.
pub open spec fn squashed(row: int) -> int {
    if row > 1 {
        row
    } else {
        0
    }
}

/// The first source row that a field keeps. Rows 0 and 1 are shown at the
/// same height and the later one wins, so row 0 survives only alone.
pub open spec fn first_kept_row(height: int) -> int {
    if height >= 2 {
        1
    } else {
        0
    }
}

/// The source row whose colours a field shows at height `y`.
pub open spec fn kept_row(height: int, y: int) -> int {
    if y == 0 {
        first_kept_row(height)
    } else {
        y
    }
}

/// The colour of the source pixel in column `col` of row `row`, in a raster
/// stored row by row with three bytes (red, green, blue) to the pixel.
pub open spec fn color_at(width: int, rgb: Seq<u8>, col: int, row: int) -> Rgb {
    let i = 3 * (row * width + col);
    Rgb { r: rgb[i], g: rgb[i + 1], b: rgb[i + 2] }
}

/// The field of a raster as a mapping: every column at every height that
/// some row is shown at, with the colour of the row kept there.
pub open spec fn field_of(width: int, height: int, rgb: Seq<u8>) -> Map<Vector2, Rgb> {
    Map::new(
        |p: Vector2| 0 <= p.x < 2 * width && p.x % 2 == 0 && 0 <= p.y < height && p.y != 1,
        |p: Vector2| color_at(width, rgb, p.x as int / 2, kept_row(height, p.y as int)),
    )
}

/// The `i`-th pixel of a raster's field: the kept rows from top to bottom,
/// each from left to right.
pub open spec fn raster_pixel(width: int, height: int, rgb: Seq<u8>, i: int) -> Pixel {
    let row = first_kept_row(height) + i / width;
    let col = i % width;
    Pixel {
        at: Vector2 { x: (2 * col) as i64, y: squashed(row) as i64 },
        color: color_at(width, rgb, col, row),
    }
}

/// All pixels of a raster's field, in the order in which the field lists them.
pub open spec fn raster_pixels(width: int, height: int, rgb: Seq<u8>) -> Seq<Pixel> {
    Seq::new(
        (width * (height - first_kept_row(height))) as nat,
        |i: int| raster_pixel(width, height, rgb, i),
    )
}

/// No two pixels of the list stand at the same point.
pub open spec fn distinct_points(pixels: Seq<Pixel>) -> bool {
    forall|i: int, j: int|
        0 <= i < pixels.len() && 0 <= j < pixels.len() && i != j ==> pixels[i].at != pixels[j].at
}

/// The mapping that a list of pixels stands for.
pub open spec fn map_of(pixels: Seq<Pixel>) -> Map<Vector2, Rgb> {
    Map::new(
        |p: Vector2| exists|i: int| 0 <= i < pixels.len() && pixels[i].at == p,
        |p: Vector2| pixels[choose|i: int| 0 <= i < pixels.len() && pixels[i].at == p].color,
    )
}

/// A sprite field: a finite mapping from points to colours, listed in a
/// fixed order.
pub struct PixelMap {
    pixels: Vec<Pixel>,
}

impl View for PixelMap {
    type V = Map<Vector2, Rgb>;

    open spec fn view(&self) -> Map<Vector2, Rgb> {
        map_of(self.pixels())
    }
}

impl PixelMap {
    #[verifier::type_invariant]
    spec fn well_formed(self) -> bool {
        distinct_points(self.pixels@)
    }

    /// The pixels in the order in which the field lists them.
    pub closed spec fn pixels(&self) -> Seq<Pixel> {
        self.pixels@
    }

    /// The number of points that have a colour.
    pub fn len(&self) -> (n: usize)
        ensures
            n == self.pixels().len(),
            n == self@.dom().len(),
            self@.dom().finite(),
            distinct_points(self.pixels()),
    {
        proof {
            use_type_invariant(self);
            lemma_map_of_size(self.pixels@);
        }
        self.pixels.len()
    }

    /// The `i`-th pixel of the listing, if there are that many.
    pub fn get(&self, i: usize) -> (found: Option<Pixel>)
        ensures
            found == if i < self.pixels().len() {
                Some(self.pixels()[i as int])
            } else {
                None
            },
    {
        if i < self.pixels.len() {
            Some(self.pixels[i])
        } else {
            None
        }
    }

    /// The colour at the point `at`, if the field has one there.
    pub fn color_of(&self, at: Vector2) -> (found: Option<Rgb>)
        ensures
            found == if self@.contains_key(at) {
                Some(self@[at])
            } else {
                None
            },
    {
        proof {
            use_type_invariant(self);
        }
        let n: usize = self.pixels.len();
        let mut i: usize = 0;
        while i < n
            invariant
                i <= n,
                n == self.pixels@.len(),
                distinct_points(self.pixels@),
                forall|j: int| 0 <= j < i ==> self.pixels@[j].at != at,
            decreases n - i,
        {
            let pixel: Pixel = self.pixels[i];
            if pixel.at.x == at.x && pixel.at.y == at.y {
                proof {
                    lemma_map_of_entry(self.pixels@, i as int);
                }
                return Some(pixel.color);
            }
            i = i + 1;
        }
        None
    }
}

/// Builds the field of a decoded picture.
///
/// `rgb` holds the picture row by row, three bytes to the pixel. The result
/// is `None` exactly when its length is not that of a `width` by `height`
/// picture. Otherwise the source pixel in column `c` of row `r` is shown at
/// the point `(c, r / 2)` in cells, rows 0 and 1 both at height 0, where row
/// 1 covers row 0.
pub fn load_to_pixel_map(width: u32, height: u32, rgb: &[u8]) -> (loaded: Option<PixelMap>)
    ensures
        loaded is Some <==> rgb@.len() == 3 * width * height,
        loaded matches Some(field) ==> {
            &&& field.pixels() == raster_pixels(width as int, height as int, rgb@)
            &&& field@ == field_of(width as int, height as int, rgb@)
        },
{
    assert(3 * width * height <= 3 * u32::MAX * u32::MAX) by (nonlinear_arith)
        requires
            0 <= width <= u32::MAX,
            0 <= height <= u32::MAX,
    ;
    let expected: u128 = 3 * (width as u128) * (height as u128);
    if rgb.len() as u128 != expected {
        return None;
    }
    let first: u64 = if height >= 2 {
        1
    } else {
        0
    };
    let rows: u64 = height as u64 - first;
    assert(0 <= width * rows <= width * height <= u32::MAX * u32::MAX) by (nonlinear_arith)
        requires
            0 <= rows <= height <= u32::MAX,
            0 <= width <= u32::MAX,
    ;
    let total: u64 = (width as u64) * rows;
    let bytes: usize = rgb.len();
    let mut pixels: Vec<Pixel> = Vec::new();
    let mut i: u64 = 0;
    while i < total
        invariant
            i <= total,
            total == width * rows,
            rows == height - first,
            first == first_kept_row(height as int),
            rgb@.len() == 3 * width * height,
            rgb@.len() == bytes,
            pixels@ == Seq::new(
                i as nat,
                |j: int| raster_pixel(width as int, height as int, rgb@, j),
            ),
        decreases total - i,
    {
        proof {
            lemma_raster_index(width as int, rows as int, i as int);
        }
        let row: u64 = first + i / (width as u64);
        let col: u64 = i % (width as u64);
        assert(0 <= row * width && 3 * (row * width + col) + 2 < 3 * width * height)
            by (nonlinear_arith)
            requires
                0 <= row < height,
                0 <= col < width,
        ;
        let base: usize = (3 * (row * (width as u64) + col)) as usize;
        let color = Rgb { r: rgb[base], g: rgb[base + 1], b: rgb[base + 2] };
        let y: u64 = if row > 1 {
            row
        } else {
            0
        };
        let pixel = Pixel { at: Vector2 { x: (2 * col) as i64, y: y as i64 }, color };
        pixels.push(pixel);
        i = i + 1;
        assert(pixels@ =~= Seq::new(
            i as nat,
            |j: int| raster_pixel(width as int, height as int, rgb@, j),
        ));
    }
    proof {
        lemma_raster_field(width as int, height as int, rgb@);
    }
    Some(PixelMap { pixels })
}

/// Row and column of the `i`-th pixel of `rows` rows of `width` pixels.
proof fn lemma_raster_index(width: int, rows: int, i: int)
    requires
        0 <= i < width * rows,
        0 <= width,
        0 <= rows,
    ensures
        width > 0,
        0 <= i / width < rows,
        0 <= i % width < width,
        i == (i / width) * width + i % width,
{
    assert(width > 0) by (nonlinear_arith)
        requires
            0 <= i < width * rows,
            0 <= width,
    ;
    lemma_fundamental_div_mod(i, width);
    let q = i / width;
    let r = i % width;
    assert(0 <= q < rows) by (nonlinear_arith)
        requires
            i == width * q + r,
            0 <= r < width,
            0 <= i < width * rows,
    ;
}

/// The listing of a raster holds no point twice, and stands for the
/// raster's field.
pub proof fn lemma_raster_field(width: int, height: int, rgb: Seq<u8>)
    requires
        0 <= width <= u32::MAX,
        0 <= height <= u32::MAX,
    ensures
        distinct_points(raster_pixels(width, height, rgb)),
        map_of(raster_pixels(width, height, rgb)) == field_of(width, height, rgb),
{
    let pixels = raster_pixels(width, height, rgb);
    let first = first_kept_row(height);
    let rows = height - first;
    assert(width * rows >= 0) by (nonlinear_arith)
        requires
            width >= 0,
            rows >= 0,
    ;
    assert forall|i: int, j: int|
        0 <= i < pixels.len() && 0 <= j < pixels.len() && i != j implies pixels[i].at
        != pixels[j].at by {
        lemma_raster_index(width, rows, i);
        lemma_raster_index(width, rows, j);
    }
    let field = field_of(width, height, rgb);
    assert forall|p: Vector2| #[trigger]
        map_of(pixels).dom().contains(p) implies field.dom().contains(p) by {
        let i = choose|i: int| 0 <= i < pixels.len() && pixels[i].at == p;
        lemma_raster_index(width, rows, i);
    }
    assert forall|p: Vector2| #[trigger]
        field.dom().contains(p) implies map_of(pixels).dom().contains(p) && map_of(pixels)[p]
        == field[p] by {
        let col = p.x as int / 2;
        let row = kept_row(height, p.y as int);
        let i = (row - first) * width + col;
        assert(0 <= i < width * rows) by (nonlinear_arith)
            requires
                i == (row - first) * width + col,
                0 <= col < width,
                0 <= row - first < rows,
        ;
        lemma_fundamental_div_mod_converse(i, width, row - first, col);
        assert(pixels[i].at == p);
    }
}

/// Where a listing holds a pixel, its mapping holds the pixel's colour.
pub proof fn lemma_map_of_entry(pixels: Seq<Pixel>, i: int)
    requires
        distinct_points(pixels),
        0 <= i < pixels.len(),
    ensures
        map_of(pixels).contains_key(pixels[i].at),
        map_of(pixels)[pixels[i].at] == pixels[i].color,
{
}

/// A listing without repeated points stands for a mapping of as many points.
pub proof fn lemma_map_of_size(pixels: Seq<Pixel>)
    requires
        distinct_points(pixels),
    ensures
        map_of(pixels).dom().finite(),
        map_of(pixels).dom().len() == pixels.len(),
{
    let points = pixels.map(|i: int, p: Pixel| p.at);
    points.unique_seq_to_set();
    assert(map_of(pixels).dom() =~= points.to_set()) by {
        assert forall|p: Vector2| map_of(pixels).dom().contains(p) implies points.to_set().contains(
            p,
        ) by {
            let i = choose|i: int| 0 <= i < pixels.len() && pixels[i].at == p;
            assert(points[i] == p);
        }
        assert forall|p: Vector2| points.to_set().contains(p) implies map_of(
            pixels,
        ).dom().contains(p) by {
            let i = choose|i: int| 0 <= i < points.len() && points[i] == p;
            assert(pixels[i].at == p);
        }
    }
}

/// Every source pixel is shown at the point that the squashing rule gives
/// it, and the colour kept there is that of the last row shown at that
/// height: row 1 covers row 0, every other row is alone at its height.
pub proof fn lemma_field_follows_squashing(
    width: int,
    height: int,
    rgb: Seq<u8>,
    col: int,
    row: int,
)
    requires
        0 <= col < width <= u32::MAX,
        0 <= row < height <= u32::MAX,
    ensures
        ({
            let p = Vector2 { x: (2 * col) as i64, y: squashed(row) as i64 };
            let kept = kept_row(height, squashed(row));
            &&& field_of(width, height, rgb).contains_key(p)
            &&& field_of(width, height, rgb)[p] == color_at(width, rgb, col, kept)
            &&& row <= kept < height
            &&& squashed(kept) == squashed(row)
            &&& forall|other: int|
                0 <= other < height && squashed(other) == squashed(row) ==> other <= kept
        }),
{
}

} // verus!
