use vstd::prelude::*;
use crate::error::ConversionError;
use crate::paths::{path_extension, spec_path_extension};
use crate::text::{spec_to_lowercase, str_equal, to_lowercase};

verus! {

/// The arrangement of the colour filters over each 2x2 block of the sensor,
/// read row by row from the top-left photosite.
#[derive(Clone, Copy, Debug, PartialEq, Eq, Structural)]
#[allow(clippy::upper_case_acronyms)]
pub enum BayerPattern {
    RGGB,
    BGGR,
    GRBG,
    GBRG,
}

/// The colour that a photosite measures.
#[derive(Clone, Copy, Debug, PartialEq, Eq, Structural)]
pub enum CfaColor {
    Red,
    Green,
    Blue,
}

/// The colour measured at photosite `(x, y)` under a pattern.
pub open spec fn cfa_color(pattern: BayerPattern, x: int, y: int) -> CfaColor {
    let row_even = y % 2 == 0;
    let col_even = x % 2 == 0;
    match pattern {
        BayerPattern::RGGB => if row_even {
            if col_even { CfaColor::Red } else { CfaColor::Green }
        } else {
            if col_even { CfaColor::Green } else { CfaColor::Blue }
        },
        BayerPattern::BGGR => if row_even {
            if col_even { CfaColor::Blue } else { CfaColor::Green }
        } else {
            if col_even { CfaColor::Green } else { CfaColor::Red }
        },
        BayerPattern::GRBG => if row_even {
            if col_even { CfaColor::Green } else { CfaColor::Red }
        } else {
            if col_even { CfaColor::Blue } else { CfaColor::Green }
        },
        BayerPattern::GBRG => if row_even {
            if col_even { CfaColor::Green } else { CfaColor::Blue }
        } else {
            if col_even { CfaColor::Red } else { CfaColor::Green }
        },
    }
}

/// Whether row `y` holds red photosites (the other rows hold blue ones).
pub open spec fn is_red_row(pattern: BayerPattern, y: int) -> bool {
    match pattern {
        BayerPattern::RGGB | BayerPattern::GRBG => y % 2 == 0,
        BayerPattern::BGGR | BayerPattern::GBRG => y % 2 == 1,
    }
}

/// A coordinate moved to the nearest one inside `0..n`.
pub open spec fn clamp_coord(v: int, n: int) -> int {
    if v < 0 {
        0
    } else if v >= n {
        n - 1
    } else {
        v
    }
}

/// The raw value at `(x, y)`, where positions outside the image read the
/// nearest edge photosite. The data is stored row by row.
pub open spec fn sample(data: Seq<u16>, w: int, h: int, x: int, y: int) -> int {
    data[clamp_coord(y, h) * w + clamp_coord(x, w)] as int
}

pub open spec fn abs_diff(a: int, b: int) -> int {
    if a >= b { a - b } else { b - a }
}

/// Green at a red or blue photosite, four times over: the mean of the two
/// neighbours along the axis with the smaller gradient, or of all four when
/// both gradients are equal.
pub open spec fn green_quarters(data: Seq<u16>, w: int, h: int, x: int, y: int) -> int {
    let n = sample(data, w, h, x, y - 1);
    let s = sample(data, w, h, x, y + 1);
    let wv = sample(data, w, h, x - 1, y);
    let e = sample(data, w, h, x + 1, y);
    let grad_v = abs_diff(n, s);
    let grad_h = abs_diff(wv, e);
    if grad_v < grad_h {
        2 * (n + s)
    } else if grad_h < grad_v {
        2 * (wv + e)
    } else {
        n + s + wv + e
    }
}

/// Four times the mean of the four diagonal neighbours.
pub open spec fn diagonal_quarters(data: Seq<u16>, w: int, h: int, x: int, y: int) -> int {
    sample(data, w, h, x - 1, y - 1) + sample(data, w, h, x + 1, y - 1)
        + sample(data, w, h, x - 1, y + 1) + sample(data, w, h, x + 1, y + 1)
}

/// Four times the mean of the left and right neighbours.
pub open spec fn horizontal_quarters(data: Seq<u16>, w: int, h: int, x: int, y: int) -> int {
    2 * (sample(data, w, h, x - 1, y) + sample(data, w, h, x + 1, y))
}

/// Four times the mean of the upper and lower neighbours.
pub open spec fn vertical_quarters(data: Seq<u16>, w: int, h: int, x: int, y: int) -> int {
    2 * (sample(data, w, h, x, y - 1) + sample(data, w, h, x, y + 1))
}

/// The (red, green, blue) value reconstructed at photosite `(x, y)`, each
/// channel four times over: the channel that the photosite measures is its
/// own value, the others are interpolated from its neighbours.
pub open spec fn demosaic_quarters(
    data: Seq<u16>,
    w: int,
    h: int,
    x: int,
    y: int,
    pattern: BayerPattern,
) -> (int, int, int) {
    let own = 4 * sample(data, w, h, x, y);
    match cfa_color(pattern, x, y) {
        CfaColor::Red => (own, green_quarters(data, w, h, x, y), diagonal_quarters(data, w, h, x, y)),
        CfaColor::Blue => (diagonal_quarters(data, w, h, x, y), green_quarters(data, w, h, x, y), own),
        CfaColor::Green => if is_red_row(pattern, y) {
            (horizontal_quarters(data, w, h, x, y), own, vertical_quarters(data, w, h, x, y))
        } else {
            (vertical_quarters(data, w, h, x, y), own, horizontal_quarters(data, w, h, x, y))
        },
    }
}

/// The integers of a computed pixel.
pub open spec fn quarters_of(p: (u32, u32, u32)) -> (int, int, int) {
    (p.0 as int, p.1 as int, p.2 as int)
}

/// What a raw buffer must satisfy to be read as a `width` x `height` image.
pub open spec fn valid_raw_dims(len: int, width: int, height: int) -> bool {
    &&& 0 < width <= 0x7fff_ffff
    &&& 0 < height <= 0x7fff_ffff
    &&& width * height <= len
    &&& width * height <= u32::MAX
}

proof fn lemma_index_in_bounds(w: int, h: int, cx: int, cy: int)
    requires
        0 <= cx < w,
        0 <= cy < h,
    ensures
        0 <= cy * w + cx < w * h,
{
    assert(cy * w <= (h - 1) * w) by (nonlinear_arith)
        requires
            0 <= cy <= h - 1,
            0 < w,
    ;
    assert((h - 1) * w == h * w - w) by (nonlinear_arith);
    assert(w * h == h * w) by (nonlinear_arith);
    assert(0 <= cy * w) by (nonlinear_arith)
        requires
            0 <= cy,
            0 < w,
    ;
}


/// Every raw value, edge clamping included, is one of the stored values.
proof fn lemma_sample_reads_stored(data: Seq<u16>, w: int, h: int, x: int, y: int)
    requires
        0 < w,
        0 < h,
        w * h <= data.len(),
    ensures
        0 <= clamp_coord(y, h) * w + clamp_coord(x, w) < w * h,
{
    lemma_index_in_bounds(w, h, clamp_coord(x, w), clamp_coord(y, h));
}

/// A raw image whose photosites all hold the same value `v` demosaics to the
/// grey `(v, v, v)` at every pixel (four times over): interpolation invents no
/// colour where there is none.
pub proof fn lemma_flat_field_is_grey(
    data: Seq<u16>,
    w: int,
    h: int,
    x: int,
    y: int,
    pattern: BayerPattern,
    v: u16,
)
    requires
        0 < w,
        0 < h,
        w * h <= data.len(),
        forall|i: int| 0 <= i < w * h ==> data[i] == v,
    ensures
        demosaic_quarters(data, w, h, x, y, pattern) == (4 * v, 4 * v, 4 * v),
{
    assert forall|dx: int, dy: int| #[trigger] sample(data, w, h, dx, dy) == v by {
        lemma_sample_reads_stored(data, w, h, dx, dy);
    }
}

/// The channel that a photosite measures keeps the photosite's own raw value
/// (four times over): only the two missing channels are interpolated.
pub proof fn lemma_measured_channel_is_kept(
    data: Seq<u16>,
    w: int,
    h: int,
    x: int,
    y: int,
    pattern: BayerPattern,
)
    ensures
        ({
            let q = demosaic_quarters(data, w, h, x, y, pattern);
            let own = 4 * sample(data, w, h, x, y);
            match cfa_color(pattern, x, y) {
                CfaColor::Red => q.0 == own,
                CfaColor::Green => q.1 == own,
                CfaColor::Blue => q.2 == own,
            }
        }),
{
}

/// No reconstructed channel exceeds the largest raw value `m` (four times over),
/// nor falls below zero.
pub proof fn lemma_demosaic_bounded(
    data: Seq<u16>,
    w: int,
    h: int,
    x: int,
    y: int,
    pattern: BayerPattern,
    m: u16,
)
    requires
        0 < w,
        0 < h,
        w * h <= data.len(),
        forall|i: int| 0 <= i < w * h ==> data[i] <= m,
    ensures
        ({
            let q = demosaic_quarters(data, w, h, x, y, pattern);
            &&& 0 <= q.0 <= 4 * m
            &&& 0 <= q.1 <= 4 * m
            &&& 0 <= q.2 <= 4 * m
        }),
{
    assert forall|dx: int, dy: int| 0 <= #[trigger] sample(data, w, h, dx, dy) <= m by {
        lemma_sample_reads_stored(data, w, h, dx, dy);
    }
}

/// The pattern with the red and blue photosites exchanged.
pub open spec fn swapped_red_blue(pattern: BayerPattern) -> BayerPattern {
    match pattern {
        BayerPattern::RGGB => BayerPattern::BGGR,
        BayerPattern::BGGR => BayerPattern::RGGB,
        BayerPattern::GRBG => BayerPattern::GBRG,
        BayerPattern::GBRG => BayerPattern::GRBG,
    }
}

/// Exchanging the red and blue photosites of the pattern exchanges the red
/// and blue channels of every reconstructed pixel, and leaves green as it
/// is: demosaicing treats the two colours alike.
pub proof fn lemma_red_blue_exchange(
    data: Seq<u16>,
    w: int,
    h: int,
    x: int,
    y: int,
    pattern: BayerPattern,
)
    ensures
        ({
            let q = demosaic_quarters(data, w, h, x, y, pattern);
            demosaic_quarters(data, w, h, x, y, swapped_red_blue(pattern)) == (q.2, q.1, q.0)
        }),
{
    assert(y % 2 == 0 || y % 2 == 1);
}

/// The letter by which a colour filter array's name writes a colour.
pub open spec fn color_letter(c: CfaColor) -> char {
    match c {
        CfaColor::Red => 'R',
        CfaColor::Green => 'G',
        CfaColor::Blue => 'B',
    }
}

/// The pattern read from a colour filter array's name measures the colours
/// that the name spells, row by row over the top-left 2x2 block; any other
/// name is read as RGGB.
pub proof fn lemma_pattern_spells_its_name(name: Seq<char>)
    ensures
        (name == "RGGB"@ || name == "BGGR"@ || name == "GRBG"@ || name == "GBRG"@) ==> {
            let p = spec_pattern_from_cfa_name(name);
            &&& color_letter(cfa_color(p, 0, 0)) == name[0]
            &&& color_letter(cfa_color(p, 1, 0)) == name[1]
            &&& color_letter(cfa_color(p, 0, 1)) == name[2]
            &&& color_letter(cfa_color(p, 1, 1)) == name[3]
        },
        !(name == "RGGB"@ || name == "BGGR"@ || name == "GRBG"@ || name == "GBRG"@)
            ==> spec_pattern_from_cfa_name(name) == BayerPattern::RGGB,
{
    reveal_strlit("RGGB");
    reveal_strlit("BGGR");
    reveal_strlit("GRBG");
    reveal_strlit("GBRG");
    assert("RGGB"@[0] != "BGGR"@[0] && "RGGB"@[0] != "GRBG"@[0] && "RGGB"@[0] != "GBRG"@[0]);
    assert("BGGR"@[0] != "GRBG"@[0] && "BGGR"@[0] != "GBRG"@[0] && "GRBG"@[1] != "GBRG"@[1]);
}

/// The colour filters repeat every two photosites across and down, a green
/// photosite sits beside every red or blue one in its row, and the rows that
/// `is_red_row` names are those that hold red photosites.
pub proof fn lemma_pattern_layout(pattern: BayerPattern, x: int, y: int)
    ensures
        cfa_color(pattern, x + 2, y) == cfa_color(pattern, x, y),
        cfa_color(pattern, x, y + 2) == cfa_color(pattern, x, y),
        cfa_color(pattern, x, y) != CfaColor::Green ==> cfa_color(pattern, x + 1, y) == CfaColor::Green,
        is_red_row(pattern, y) == (cfa_color(pattern, 0, y) == CfaColor::Red || cfa_color(pattern, 1, y)
            == CfaColor::Red),
        !is_red_row(pattern, y) == (cfa_color(pattern, 0, y) == CfaColor::Blue || cfa_color(pattern, 1, y)
            == CfaColor::Blue),
{
    assert(y % 2 == 0 || y % 2 == 1);
    assert((x + 2) % 2 == x % 2);
    assert((y + 2) % 2 == y % 2);
    assert((x + 1) % 2 != x % 2);
}

/// Green is interpolated along edges, not across them: on an image whose
/// rows are each of one value, the green of a red or blue photosite whose
/// upper and lower neighbours differ is its own row's value (four times
/// over); on an image whose columns are each of one value, the green of one
/// whose left and right neighbours differ is its own column's value.
pub proof fn lemma_green_follows_edges(
    data: Seq<u16>,
    w: int,
    h: int,
    x: int,
    y: int,
    pattern: BayerPattern,
)
    requires
        cfa_color(pattern, x, y) != CfaColor::Green,
    ensures
        (forall|xx: int, yy: int| #[trigger] sample(data, w, h, xx, yy) == sample(data, w, h, 0, yy))
            && sample(data, w, h, x, y - 1) != sample(data, w, h, x, y + 1)
            ==> demosaic_quarters(data, w, h, x, y, pattern).1 == 4 * sample(data, w, h, x, y),
        (forall|xx: int, yy: int| #[trigger] sample(data, w, h, xx, yy) == sample(data, w, h, xx, 0))
            && sample(data, w, h, x - 1, y) != sample(data, w, h, x + 1, y)
            ==> demosaic_quarters(data, w, h, x, y, pattern).1 == 4 * sample(data, w, h, x, y),
{
    if forall|xx: int, yy: int| #[trigger] sample(data, w, h, xx, yy) == sample(data, w, h, 0, yy) {
        assert(sample(data, w, h, x - 1, y) == sample(data, w, h, 0, y));
        assert(sample(data, w, h, x + 1, y) == sample(data, w, h, 0, y));
        assert(sample(data, w, h, x, y) == sample(data, w, h, 0, y));
    }
    if forall|xx: int, yy: int| #[trigger] sample(data, w, h, xx, yy) == sample(data, w, h, xx, 0) {
        assert(sample(data, w, h, x, y - 1) == sample(data, w, h, x, 0));
        assert(sample(data, w, h, x, y + 1) == sample(data, w, h, x, 0));
        assert(sample(data, w, h, x, y) == sample(data, w, h, x, 0));
    }
}

/// Each missing colour comes from the neighbours that measure it: at a green
/// photosite, red and blue are the means of the two red and the two blue
/// neighbours (one pair along the row, the other along the column); at a red
/// or blue photosite, the other of the two is the mean of the four diagonal
/// neighbours, which measure it.
pub proof fn lemma_missing_colours_from_their_sites(
    data: Seq<u16>,
    w: int,
    h: int,
    x: int,
    y: int,
    pattern: BayerPattern,
)
    ensures
        ({
            let q = demosaic_quarters(data, w, h, x, y, pattern);
            let row_pair = 2 * (sample(data, w, h, x - 1, y) + sample(data, w, h, x + 1, y));
            let column_pair = 2 * (sample(data, w, h, x, y - 1) + sample(data, w, h, x, y + 1));
            cfa_color(pattern, x, y) == CfaColor::Green ==> {
                &&& cfa_color(pattern, x - 1, y) == cfa_color(pattern, x + 1, y)
                &&& cfa_color(pattern, x, y - 1) == cfa_color(pattern, x, y + 1)
                &&& cfa_color(pattern, x - 1, y) == CfaColor::Red ==> q.0 == row_pair && q.2 == column_pair
                    && cfa_color(pattern, x, y - 1) == CfaColor::Blue
                &&& cfa_color(pattern, x - 1, y) == CfaColor::Blue ==> q.2 == row_pair && q.0 == column_pair
                    && cfa_color(pattern, x, y - 1) == CfaColor::Red
                &&& cfa_color(pattern, x - 1, y) != CfaColor::Green
            }
        }),
        ({
            let q = demosaic_quarters(data, w, h, x, y, pattern);
            let c = cfa_color(pattern, x, y);
            let other = cfa_color(pattern, x - 1, y - 1);
            c != CfaColor::Green ==> {
                &&& other != CfaColor::Green && other != c
                &&& cfa_color(pattern, x + 1, y - 1) == other
                &&& cfa_color(pattern, x - 1, y + 1) == other
                &&& cfa_color(pattern, x + 1, y + 1) == other
                &&& (if c == CfaColor::Red { q.2 } else { q.0 }) == diagonal_quarters(data, w, h, x, y)
            }
        }),
{
    assert(x % 2 == 0 || x % 2 == 1);
    assert(y % 2 == 0 || y % 2 == 1);
    assert((x - 1) % 2 == (x + 1) % 2 && (x - 1) % 2 != x % 2);
    assert((y - 1) % 2 == (y + 1) % 2 && (y - 1) % 2 != y % 2);
}

/// The raw value at `(x, y)` with coordinates clamped to the image.
fn sample_at(data: &[u16], width: u32, height: u32, x: i64, y: i64) -> (r: u32)
    requires
        valid_raw_dims(data@.len() as int, width as int, height as int),
    ensures
        r as int == sample(data@, width as int, height as int, x as int, y as int),
        r <= u16::MAX,
{
    let cx: u32 = if x < 0 {
        0
    } else if x >= width as i64 {
        width - 1
    } else {
        x as u32
    };
    let cy: u32 = if y < 0 {
        0
    } else if y >= height as i64 {
        height - 1
    } else {
        y as u32
    };
    proof {
        lemma_index_in_bounds(width as int, height as int, cx as int, cy as int);
    }
    let idx: u32 = cy * width + cx;
    data[idx as usize] as u32
}

/// The colour measured at photosite `(x, y)`.
pub fn cfa_color_at(pattern: BayerPattern, x: u32, y: u32) -> (r: CfaColor)
    ensures
        r == cfa_color(pattern, x as int, y as int),
{
    let row_even = y % 2 == 0;
    let col_even = x % 2 == 0;
    match pattern {
        BayerPattern::RGGB => if row_even {
            if col_even { CfaColor::Red } else { CfaColor::Green }
        } else {
            if col_even { CfaColor::Green } else { CfaColor::Blue }
        },
        BayerPattern::BGGR => if row_even {
            if col_even { CfaColor::Blue } else { CfaColor::Green }
        } else {
            if col_even { CfaColor::Green } else { CfaColor::Red }
        },
        BayerPattern::GRBG => if row_even {
            if col_even { CfaColor::Green } else { CfaColor::Red }
        } else {
            if col_even { CfaColor::Blue } else { CfaColor::Green }
        },
        BayerPattern::GBRG => if row_even {
            if col_even { CfaColor::Green } else { CfaColor::Blue }
        } else {
            if col_even { CfaColor::Red } else { CfaColor::Green }
        },
    }
}

/// Reconstructs the colour at photosite `(x, y)` of a Bayer-mosaic raw image
/// stored row by row, by edge-aware bilinear interpolation.
///
/// Each channel is returned four times over, so that every value is an exact
/// integer: the channel's intensity is the returned value divided by 4.
pub fn demosaic_pixel(
    raw_data: &[u16],
    x: u32,
    y: u32,
    width: u32,
    height: u32,
    pattern: BayerPattern,
) -> (r: (u32, u32, u32))
    requires
        valid_raw_dims(raw_data@.len() as int, width as int, height as int),
        x < width,
        y < height,
    ensures
        quarters_of(r) == demosaic_quarters(
            raw_data@,
            width as int,
            height as int,
            x as int,
            y as int,
            pattern,
        ),
{
    let xi = x as i64;
    let yi = y as i64;
    let own = 4 * sample_at(raw_data, width, height, xi, yi);
    match cfa_color_at(pattern, x, y) {
        CfaColor::Red => {
            let g = green_at(raw_data, width, height, xi, yi);
            let b = diagonal_at(raw_data, width, height, xi, yi);
            (own, g, b)
        },
        CfaColor::Blue => {
            let g = green_at(raw_data, width, height, xi, yi);
            let r = diagonal_at(raw_data, width, height, xi, yi);
            (r, g, own)
        },
        CfaColor::Green => {
            let red_row = match pattern {
                BayerPattern::RGGB | BayerPattern::GRBG => y % 2 == 0,
                BayerPattern::BGGR | BayerPattern::GBRG => y % 2 == 1,
            };
            let horizontal = 2 * (sample_at(raw_data, width, height, xi - 1, yi)
                + sample_at(raw_data, width, height, xi + 1, yi));
            let vertical = 2 * (sample_at(raw_data, width, height, xi, yi - 1)
                + sample_at(raw_data, width, height, xi, yi + 1));
            if red_row {
                (horizontal, own, vertical)
            } else {
                (vertical, own, horizontal)
            }
        },
    }
}

fn green_at(raw_data: &[u16], width: u32, height: u32, x: i64, y: i64) -> (r: u32)
    requires
        valid_raw_dims(raw_data@.len() as int, width as int, height as int),
        0 <= x < 0x8000_0000,
        0 <= y < 0x8000_0000,
    ensures
        r as int == green_quarters(raw_data@, width as int, height as int, x as int, y as int),
{
    let n = sample_at(raw_data, width, height, x, y - 1);
    let s = sample_at(raw_data, width, height, x, y + 1);
    let w = sample_at(raw_data, width, height, x - 1, y);
    let e = sample_at(raw_data, width, height, x + 1, y);
    let grad_v = if n >= s { n - s } else { s - n };
    let grad_h = if w >= e { w - e } else { e - w };
    if grad_v < grad_h {
        2 * (n + s)
    } else if grad_h < grad_v {
        2 * (w + e)
    } else {
        n + s + w + e
    }
}

fn diagonal_at(raw_data: &[u16], width: u32, height: u32, x: i64, y: i64) -> (r: u32)
    requires
        valid_raw_dims(raw_data@.len() as int, width as int, height as int),
        0 <= x < 0x8000_0000,
        0 <= y < 0x8000_0000,
    ensures
        r as int == diagonal_quarters(raw_data@, width as int, height as int, x as int, y as int),
{
    sample_at(raw_data, width, height, x - 1, y - 1) + sample_at(raw_data, width, height, x + 1, y - 1)
        + sample_at(raw_data, width, height, x - 1, y + 1) + sample_at(raw_data, width, height, x + 1, y + 1)
}

/// Reconstructs every pixel of row `y`, left to right.
pub fn demosaic_row(
    raw_data: &[u16],
    y: u32,
    width: u32,
    height: u32,
    pattern: BayerPattern,
) -> (r: Vec<(u32, u32, u32)>)
    requires
        valid_raw_dims(raw_data@.len() as int, width as int, height as int),
        y < height,
    ensures
        r@.len() == width,
        forall|x: int|
            0 <= x < width ==> #[trigger] quarters_of(r@[x]) == demosaic_quarters(
                raw_data@,
                width as int,
                height as int,
                x,
                y as int,
                pattern,
            ),
{
    let mut row: Vec<(u32, u32, u32)> = Vec::new();
    let mut x: u32 = 0;
    while x < width
        invariant
            valid_raw_dims(raw_data@.len() as int, width as int, height as int),
            y < height,
            x <= width,
            row@.len() == x,
            forall|i: int|
                0 <= i < x ==> #[trigger] quarters_of(row@[i]) == demosaic_quarters(
                    raw_data@,
                    width as int,
                    height as int,
                    i,
                    y as int,
                    pattern,
                ),
        decreases width - x,
    {
        let p = demosaic_pixel(raw_data, x, y, width, height, pattern);
        row.push(p);
        x = x + 1;
    }
    row
}

/// The lower-case file extensions of the raw formats that are recognised.
pub open spec fn is_raw_extension(e: Seq<char>) -> bool {
    e == "nef"@
        || e == "nrw"@
        || e == "cr2"@
        || e == "cr3"@
        || e == "crw"@
        || e == "arw"@
        || e == "srf"@
        || e == "sr2"@
        || e == "raf"@
        || e == "orf"@
        || e == "rw2"@
        || e == "pef"@
        || e == "x3f"@
        || e == "dng"@
        || e == "raw"@
        || e == "rwl"@
        || e == "mrw"@
        || e == "dcr"@
        || e == "kdc"@
        || e == "3fr"@
        || e == "ari"@
        || e == "bay"@
        || e == "cap"@
        || e == "data"@
        || e == "dcs"@
        || e == "drf"@
        || e == "erf"@
        || e == "fff"@
        || e == "iiq"@
        || e == "mef"@
        || e == "mos"@
        || e == "mdc"@
        || e == "obm"@
        || e == "ptx"@
        || e == "pxn"@
        || e == "qtk"@
        || e == "rdc"@
        || e == "srw"@
        || e == "sti"@
        || e == "rwz"@
}

/// Every raw format of the supported cameras is recognised by its
/// extension: Nikon (NEF, NRW), Canon (CR2, CR3, CRW), Sony (ARW, SRF, SR2),
/// Fujifilm (RAF), Olympus (ORF), Panasonic (RW2), Pentax (PEF), Sigma (X3F),
/// Adobe (DNG), Leica (RAW, RWL), Minolta (MRW), Kodak (DCR, KDC), Hasselblad
/// (3FR), and the others of the list below.
pub proof fn lemma_documented_raw_extensions()
    ensures
        is_raw_extension("nef"@),
        is_raw_extension("nrw"@),
        is_raw_extension("cr2"@),
        is_raw_extension("cr3"@),
        is_raw_extension("crw"@),
        is_raw_extension("arw"@),
        is_raw_extension("srf"@),
        is_raw_extension("sr2"@),
        is_raw_extension("raf"@),
        is_raw_extension("orf"@),
        is_raw_extension("rw2"@),
        is_raw_extension("pef"@),
        is_raw_extension("x3f"@),
        is_raw_extension("dng"@),
        is_raw_extension("raw"@),
        is_raw_extension("rwl"@),
        is_raw_extension("mrw"@),
        is_raw_extension("dcr"@),
        is_raw_extension("kdc"@),
        is_raw_extension("3fr"@),
        is_raw_extension("ari"@),
        is_raw_extension("bay"@),
        is_raw_extension("cap"@),
        is_raw_extension("data"@),
        is_raw_extension("dcs"@),
        is_raw_extension("drf"@),
        is_raw_extension("erf"@),
        is_raw_extension("fff"@),
        is_raw_extension("iiq"@),
        is_raw_extension("mef"@),
        is_raw_extension("mos"@),
        is_raw_extension("mdc"@),
        is_raw_extension("obm"@),
        is_raw_extension("ptx"@),
        is_raw_extension("pxn"@),
        is_raw_extension("qtk"@),
        is_raw_extension("rdc"@),
        is_raw_extension("srw"@),
        is_raw_extension("sti"@),
        is_raw_extension("rwz"@),
{
}


/// Whether a path names a raw camera file: its extension, lower-cased, is one
/// of the raw formats.
pub open spec fn spec_is_raw_file(path: Seq<char>) -> bool {
    match spec_path_extension(path) {
        Some(e) => is_raw_extension(spec_to_lowercase(e)),
        None => false,
    }
}

/// Whether a lower-case extension is one of the raw formats.
pub fn is_raw_extension_name(e: &str) -> (r: bool)
    ensures
        r == is_raw_extension(e@),
{
    str_equal(e, "nef")
        || str_equal(e, "nrw")
        || str_equal(e, "cr2")
        || str_equal(e, "cr3")
        || str_equal(e, "crw")
        || str_equal(e, "arw")
        || str_equal(e, "srf")
        || str_equal(e, "sr2")
        || str_equal(e, "raf")
        || str_equal(e, "orf")
        || str_equal(e, "rw2")
        || str_equal(e, "pef")
        || str_equal(e, "x3f")
        || str_equal(e, "dng")
        || str_equal(e, "raw")
        || str_equal(e, "rwl")
        || str_equal(e, "mrw")
        || str_equal(e, "dcr")
        || str_equal(e, "kdc")
        || str_equal(e, "3fr")
        || str_equal(e, "ari")
        || str_equal(e, "bay")
        || str_equal(e, "cap")
        || str_equal(e, "data")
        || str_equal(e, "dcs")
        || str_equal(e, "drf")
        || str_equal(e, "erf")
        || str_equal(e, "fff")
        || str_equal(e, "iiq")
        || str_equal(e, "mef")
        || str_equal(e, "mos")
        || str_equal(e, "mdc")
        || str_equal(e, "obm")
        || str_equal(e, "ptx")
        || str_equal(e, "pxn")
        || str_equal(e, "qtk")
        || str_equal(e, "rdc")
        || str_equal(e, "srw")
        || str_equal(e, "sti")
        || str_equal(e, "rwz")
}

/// The orientation recorded in a raw file's metadata.
#[derive(Clone, Copy, Debug, PartialEq, Eq, Structural)]
pub enum RawOrientation {
    Normal,
    HorizontalFlip,
    Rotate180,
    VerticalFlip,
    Transpose,
    Rotate90,
    Transverse,
    Rotate270,
    Unknown,
}

/// The EXIF orientation number (1 to 8) of a raw orientation; an unknown
/// orientation counts as the normal one.
pub open spec fn spec_orientation_code(o: RawOrientation) -> u16 {
    match o {
        RawOrientation::Normal => 1,
        RawOrientation::HorizontalFlip => 2,
        RawOrientation::Rotate180 => 3,
        RawOrientation::VerticalFlip => 4,
        RawOrientation::Transpose => 5,
        RawOrientation::Rotate90 => 6,
        RawOrientation::Transverse => 7,
        RawOrientation::Rotate270 => 8,
        RawOrientation::Unknown => 1,
    }
}

/// The EXIF orientation number of a raw orientation.
pub fn orientation_code(o: RawOrientation) -> (r: u16)
    ensures
        r == spec_orientation_code(o),
        1 <= r <= 8,
{
    match o {
        RawOrientation::Normal => 1,
        RawOrientation::HorizontalFlip => 2,
        RawOrientation::Rotate180 => 3,
        RawOrientation::VerticalFlip => 4,
        RawOrientation::Transpose => 5,
        RawOrientation::Rotate90 => 6,
        RawOrientation::Transverse => 7,
        RawOrientation::Rotate270 => 8,
        RawOrientation::Unknown => 1,
    }
}

/// What reading a raw file's orientation gives: its EXIF number, or the
/// decoder's message as a raw-decoding error.
pub open spec fn spec_raw_orientation_result(
    decoded: Result<RawOrientation, String>,
) -> Result<u16, ConversionError> {
    match decoded {
        Ok(o) => Ok(spec_orientation_code(o)),
        Err(msg) => Err(ConversionError::RawDecode(msg)),
    }
}

/// Turns the outcome of decoding a raw file into its EXIF orientation number,
/// or into a raw-decoding error that carries the decoder's message.
pub fn raw_orientation_result(decoded: Result<RawOrientation, String>) -> (r: Result<
    u16,
    ConversionError,
>)
    ensures
        r == spec_raw_orientation_result(decoded),
{
    match decoded {
        Ok(o) => Ok(orientation_code(o)),
        Err(msg) => Err(ConversionError::RawDecode(msg)),
    }
}

#[verifier::external_type_specification]
#[verifier::external_body]
pub struct ExRawImage(rawloader::RawImage);

/// What decoding raw-file bytes with `rawloader::decode` gives, as the plain
/// values that the library reads of the decoded image (see `raw_image_info`):
/// `None` when the bytes do not decode.
pub uninterp spec fn spec_raw_decode(bytes: Seq<u8>) -> Option<
    (usize, usize, Seq<char>, u16, u16, Option<Seq<u16>>, RawOrientation),
>;

/// What the library reads of a decoded raw image: its width, height, colour
/// filter array's name, first black level, first white level, integer
/// samples (`None` for floating-point ones) and orientation.
pub open spec fn raw_image_info(raw: rawloader::RawImage) -> (
    usize,
    usize,
    Seq<char>,
    u16,
    u16,
    Option<Seq<u16>>,
    RawOrientation,
) {
    (
        spec_raw_dimensions(raw).0,
        spec_raw_dimensions(raw).1,
        spec_raw_cfa_name(raw),
        spec_raw_levels(raw).0,
        spec_raw_levels(raw).1,
        spec_raw_integer_data(raw),
        spec_raw_image_orientation(raw),
    )
}

/// The orientation recorded in raw-file bytes, `None` when they do not
/// decode.
pub open spec fn spec_raw_decode_orientation(bytes: Seq<u8>) -> Option<RawOrientation> {
    match spec_raw_decode(bytes) {
        Some(info) => Some(info.6),
        None => None,
    }
}

/// The text of `rawloader::decode`'s error (its `Display`) for raw-file bytes
/// that do not decode.
pub uninterp spec fn spec_raw_decode_message(bytes: Seq<u8>) -> Seq<char>;

/// The message of the raw-decoding error for raw-file bytes that do not
/// decode: the decoder's text after a fixed prefix.
pub open spec fn raw_decode_failure(bytes: Seq<u8>) -> Seq<char> {
    "Failed to decode RAW: "@ + spec_raw_decode_message(bytes)
}

/// The orientation field of a decoded raw image.
pub uninterp spec fn spec_raw_image_orientation(raw: rawloader::RawImage) -> RawOrientation;

/// Calls `rawloader::decode` on raw-file bytes: the decoded image, or the
/// decoder's message. Whether it decodes, and what the library reads of the
/// decoded image, are named by `spec_raw_decode`; the message by
/// `spec_raw_decode_message`.
#[verifier::external_body]
fn decode_raw_bytes(bytes: &[u8]) -> (r: Result<rawloader::RawImage, String>)
    ensures
        r is Ok <==> spec_raw_decode(bytes@) is Some,
        r matches Err(m) ==> m@ == spec_raw_decode_message(bytes@),
        r matches Ok(raw) ==> spec_raw_decode(bytes@) == Some(raw_image_info(raw)),
{
    match rawloader::decode(&mut std::io::Cursor::new(bytes)) {
        Ok(raw) => Ok(raw),
        Err(e) => Err(format!("{}", e)),
    }
}

/// Reads the orientation field of a decoded raw image and tells the variants
/// of `rawloader::Orientation` apart, one for one.
#[verifier::external_body]
fn raw_image_orientation(raw: &rawloader::RawImage) -> (r: RawOrientation)
    ensures
        r == spec_raw_image_orientation(*raw),
{
    match raw.orientation {
        rawloader::Orientation::Normal => RawOrientation::Normal,
        rawloader::Orientation::HorizontalFlip => RawOrientation::HorizontalFlip,
        rawloader::Orientation::Rotate180 => RawOrientation::Rotate180,
        rawloader::Orientation::VerticalFlip => RawOrientation::VerticalFlip,
        rawloader::Orientation::Transpose => RawOrientation::Transpose,
        rawloader::Orientation::Rotate90 => RawOrientation::Rotate90,
        rawloader::Orientation::Transverse => RawOrientation::Transverse,
        rawloader::Orientation::Rotate270 => RawOrientation::Rotate270,
        rawloader::Orientation::Unknown => RawOrientation::Unknown,
    }
}

/// What reading the orientation of raw-file bytes gives: the EXIF number of
/// the orientation they record, or a raw-decoding error carrying the
/// decoder's text.
pub open spec fn raw_orientation_outcome_matches(bytes: Seq<u8>, r: Result<u16, ConversionError>) -> bool {
    match spec_raw_decode_orientation(bytes) {
        Some(o) => r == Ok::<u16, ConversionError>(spec_orientation_code(o)),
        None => r matches Err(ConversionError::RawDecode(m)) && m@ == spec_raw_decode_message(bytes),
    }
}

/// Raw camera files: recognising them and reading their metadata.
pub struct RawDecoder;

impl RawDecoder {
    /// Whether a path names a raw camera file, by its extension in any case.
    pub fn is_raw_file(path: &str) -> (r: bool)
        ensures
            r == spec_is_raw_file(path@),
    {
        match path_extension(path) {
            Some(ext) => {
                let lower = to_lowercase(ext.as_str());
                is_raw_extension_name(lower.as_str())
            },
            None => false,
        }
    }

    /// Decodes raw-file bytes: the image that `spec_raw_decode` describes;
    /// when they do not decode, a raw-decoding error whose message is
    /// "Failed to decode RAW: " and the decoder's text.
    pub fn decode(bytes: &[u8]) -> (r: Result<rawloader::RawImage, ConversionError>)
        ensures
            r is Ok <==> spec_raw_decode(bytes@) is Some,
            r matches Ok(raw) ==> spec_raw_decode(bytes@) == Some(raw_image_info(raw)),
            r matches Err(e) ==> e matches ConversionError::RawDecode(m) && m@ == raw_decode_failure(bytes@),
    {
        match decode_raw_bytes(bytes) {
            Ok(raw) => Ok(raw),
            Err(msg) => Err(ConversionError::RawDecode(String::from_str("Failed to decode RAW: ").concat(msg.as_str()))),
        }
    }

    /// The EXIF orientation number (1 to 8) that raw-file bytes record, or a
    /// raw-decoding error carrying the decoder's message when they do not
    /// decode.
    pub fn get_raw_orientation(bytes: &[u8]) -> (r: Result<u16, ConversionError>)
        ensures
            raw_orientation_outcome_matches(bytes@, r),
    {
        let decoded = match decode_raw_bytes(bytes) {
            Ok(raw) => Ok(raw_image_orientation(&raw)),
            Err(msg) => Err(msg),
        };
        raw_orientation_result(decoded)
    }
}

/// The Bayer pattern named by a colour-filter-array description such as
/// `"RGGB"`; an unrecognised description is read as RGGB.
pub open spec fn spec_pattern_from_cfa_name(name: Seq<char>) -> BayerPattern {
    if name == "BGGR"@ {
        BayerPattern::BGGR
    } else if name == "GRBG"@ {
        BayerPattern::GRBG
    } else if name == "GBRG"@ {
        BayerPattern::GBRG
    } else {
        BayerPattern::RGGB
    }
}

/// The Bayer pattern named by a colour-filter-array description.
pub fn pattern_from_cfa_name(name: &str) -> (r: BayerPattern)
    ensures
        r == spec_pattern_from_cfa_name(name@),
{
    if str_equal(name, "BGGR") {
        BayerPattern::BGGR
    } else if str_equal(name, "GRBG") {
        BayerPattern::GRBG
    } else if str_equal(name, "GBRG") {
        BayerPattern::GBRG
    } else {
        BayerPattern::RGGB
    }
}

/// The stride with which auto-exposure samples the raw data: about ten
/// thousand samples, and every value when there are fewer.
pub open spec fn spec_exposure_step(len: int) -> int {
    if len / 10000 > 1 {
        len / 10000
    } else {
        1
    }
}

/// The stride with which auto-exposure samples `len` raw values.
pub fn exposure_sample_step(len: usize) -> (r: usize)
    ensures
        r == spec_exposure_step(len as int),
        r >= 1,
{
    let q = len / 10000;
    if q > 1 {
        q
    } else {
        1
    }
}

/// Every `step`-th value of a sequence, from the first one on, in order.
pub open spec fn strided(data: Seq<u16>, step: nat) -> Seq<u16>
    decreases data.len(),
{
    if data.len() == 0 {
        Seq::empty()
    } else if data.len() <= step || step == 0 {
        seq![data[0]]
    } else {
        seq![data[0]] + strided(data.skip(step as int), step)
    }
}

/// The length of a strided sampling, and where its `i`-th value comes from.
proof fn lemma_strided_index(data: Seq<u16>, step: nat, i: int)
    requires
        step >= 1,
    ensures
        strided(data, step).len() == (if data.len() == 0 {
            0
        } else {
            (data.len() - 1) / (step as int) + 1
        }),
        0 <= i < strided(data, step).len() ==> 0 <= i * step < data.len() && strided(data, step)[i]
            == data[i * step],
    decreases data.len(),
{
    let n = data.len() as int;
    let s = step as int;
    if n == 0 {
    } else if n <= s {
        assert((n - 1) / s == 0) by (nonlinear_arith)
            requires
                0 <= n - 1 < s,
        ;
        if i == 0 {
            assert(i * s == 0) by (nonlinear_arith)
                requires
                    i == 0,
            ;
        }
    } else {
        let rest = data.skip(s);
        lemma_strided_index(rest, step, i - 1);
        assert((n - s - 1) / s + 1 == (n - 1) / s) by (nonlinear_arith)
            requires
                s >= 1,
                n > s,
        {
            vstd::arithmetic::div_mod::lemma_fundamental_div_mod(n - s - 1, s);
            vstd::arithmetic::div_mod::lemma_fundamental_div_mod(n - 1, s);
        }
        if i == 0 {
            assert(i * s == 0) by (nonlinear_arith)
                requires
                    i == 0,
            ;
        } else if 0 < i < strided(data, step).len() {
            assert(strided(data, step)[i] == strided(rest, step)[i - 1]);
            assert((i - 1) * s + s == i * s) by (nonlinear_arith);
            assert(rest[(i - 1) * s] == data[(i - 1) * s + s]);
        }
    }
}

/// Sampling by a stride takes the values at the multiples of the stride, in
/// order, and nothing else: the `i`-th sample is the value at `i * step`,
/// and there are as many samples as multiples of `step` below the length.
pub proof fn lemma_strided_picks_multiples(data: Seq<u16>, step: nat)
    requires
        step >= 1,
    ensures
        strided(data, step).len() == (if data.len() == 0 {
            0
        } else {
            (data.len() - 1) / (step as int) + 1
        }),
        forall|i: int|
            0 <= i < strided(data, step).len() ==> #[trigger] strided(
                data,
                step,
            )[i] == data[i * step],
{
    lemma_strided_index(data, step, 0);
    assert forall|i: int| 0 <= i < strided(data, step).len() implies #[trigger] strided(
        data,
        step,
    )[i] == data[i * step] by {
        lemma_strided_index(data, step, i);
    }
}

/// The stride of auto-exposure sampling: every value of fewer than twenty
/// thousand, otherwise one value in each block of about ten thousandth of
/// the data, so that some ten thousand values are looked at.
pub proof fn lemma_exposure_step_sizes(len: int)
    requires
        len >= 0,
    ensures
        spec_exposure_step(len) >= 1,
        len < 20000 ==> spec_exposure_step(len) == 1,
        len >= 20000 ==> spec_exposure_step(len) * 10000 <= len < (spec_exposure_step(len) + 1) * 10000,
{
}

/// The raw values that auto-exposure looks at: every `step`-th value from the
/// first one on, in order, where `step` is `spec_exposure_step` of the length.
pub fn exposure_samples(data: &[u16]) -> (r: Vec<u16>)
    ensures
        r@ == strided(data@, spec_exposure_step(data@.len() as int) as nat),
{
    let len = data.len();
    let step = exposure_sample_step(len);
    let ghost st = step as nat;
    let mut samples: Vec<u16> = Vec::new();
    let mut idx: usize = 0;
    assert(data@.skip(0) =~= data@);
    assert(samples@ + strided(data@, st) =~= strided(data@, st));
    while idx < len
        invariant
            len == data@.len(),
            st == step,
            step == spec_exposure_step(len as int),
            step >= 1,
            idx <= len,
            samples@ + strided(data@.skip(idx as int), st) == strided(data@, st),
        decreases len - idx,
    {
        let ghost rest = data@.skip(idx as int);
        samples.push(data[idx]);
        if len - idx <= step {
            assert(data@.skip(len as int) =~= Seq::<u16>::empty());
            idx = len;
        } else {
            assert(rest.skip(step as int) =~= data@.skip(idx + step));
            idx = idx + step;
        }
    }
    proof {
        assert(data@.skip(len as int) =~= Seq::<u16>::empty());
        assert(samples@ + Seq::<u16>::empty() =~= samples@);
    }
    samples
}

/// The width and height fields of a decoded raw image.
pub uninterp spec fn spec_raw_dimensions(raw: rawloader::RawImage) -> (usize, usize);

/// The name of a decoded raw image's colour filter array, such as "RGGB".
pub uninterp spec fn spec_raw_cfa_name(raw: rawloader::RawImage) -> Seq<char>;

/// The first black level and the first white level of a decoded raw image.
pub uninterp spec fn spec_raw_levels(raw: rawloader::RawImage) -> (u16, u16);

/// The sensor samples of a decoded raw image, row by row, where they are
/// integers; `None` where they are floating-point values.
pub uninterp spec fn spec_raw_integer_data(raw: rawloader::RawImage) -> Option<Seq<u16>>;

/// Reads the `width` and `height` fields of a decoded raw image.
#[verifier::external_body]
fn raw_dimensions(raw: &rawloader::RawImage) -> (r: (usize, usize))
    ensures
        r == spec_raw_dimensions(*raw),
{
    (raw.width, raw.height)
}

/// Calls `CFA::to_string` on a decoded raw image's colour filter array,
/// which gives the array's name.
#[verifier::external_body]
fn raw_cfa_name(raw: &rawloader::RawImage) -> (r: String)
    ensures
        r@ == spec_raw_cfa_name(*raw),
{
    raw.cfa.to_string()
}

/// Reads the first entries of the `blacklevels` and `whitelevels` fields of
/// a decoded raw image.
#[verifier::external_body]
fn raw_levels(raw: &rawloader::RawImage) -> (r: (u16, u16))
    ensures
        r == spec_raw_levels(*raw),
{
    (raw.blacklevels[0], raw.whitelevels[0])
}

/// Takes the `data` field out of a decoded raw image and tells the two
/// variants of `RawImageData` apart: the samples of `Integer`, `None` for
/// `Float`.
#[verifier::external_body]
fn raw_into_integer_data(raw: rawloader::RawImage) -> (r: Option<Vec<u16>>)
    ensures
        r is None <==> spec_raw_integer_data(raw) is None,
        r matches Some(d) ==> spec_raw_integer_data(raw) == Some(d@),
{
    match raw.data {
        rawloader::RawImageData::Integer(data) => Some(data),
        rawloader::RawImageData::Float(_) => None,
    }
}

/// The integer data of a raw image that demosaicing works on: its size, its
/// samples row by row, its Bayer pattern, and its black and white levels.
pub struct SensorFrame {
    pub width: usize,
    pub height: usize,
    pub data: Vec<u16>,
    pub pattern: BayerPattern,
    pub black_level: u16,
    pub white_level: u16,
}

impl RawDecoder {
    /// The sensor data of a decoded raw image, with its Bayer pattern read
    /// from the colour filter array's name; a raw-decoding error "Float RAW
    /// data not supported" where the samples are floating-point values.
    pub fn sensor_frame(raw: rawloader::RawImage) -> (r: Result<SensorFrame, ConversionError>)
        ensures
            r is Err <==> spec_raw_integer_data(raw) is None,
            r matches Err(e) ==> e matches ConversionError::RawDecode(m) && m@ == "Float RAW data not supported"@,
            r matches Ok(f) ==> {
                &&& spec_raw_integer_data(raw) == Some(f.data@)
                &&& (f.width, f.height) == spec_raw_dimensions(raw)
                &&& f.pattern == spec_pattern_from_cfa_name(spec_raw_cfa_name(raw))
                &&& (f.black_level, f.white_level) == spec_raw_levels(raw)
            },
    {
        let (width, height) = raw_dimensions(&raw);
        let name = raw_cfa_name(&raw);
        let pattern = pattern_from_cfa_name(name.as_str());
        let (black_level, white_level) = raw_levels(&raw);
        match raw_into_integer_data(raw) {
            Some(data) => Ok(SensorFrame { width, height, data, pattern, black_level, white_level }),
            None => Err(ConversionError::RawDecode(String::from_str("Float RAW data not supported"))),
        }
    }
}

} // verus!
