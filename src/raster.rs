//! The order in which pixels are emitted: rows from the top (the highest row
//! index) down, and within a row from left to right.
use vstd::prelude::*;

verus! {

/// The pixel `(column, row)` emitted `k`-th in an image `width` pixels wide
/// and `height` rows high.
pub open spec fn pixel_of(width: int, height: int, k: int) -> (int, int) {
    (k % width, height - 1 - k / width)
}

/// The position in the emission order of the pixel at `(column, row)`.
pub open spec fn emission_index(width: int, height: int, column: int, row: int) -> int {
    (height - 1 - row) * width + column
}

/// The number of pixels of the image, when it fits in `usize`.
pub fn pixel_count(width: usize, height: usize) -> (r: Option<usize>)
    ensures
        r matches Some(n) ==> n == width * height,
        r is None <==> width * height > usize::MAX,
{
    width.checked_mul(height)
}

/// The pixel emitted `k`-th.
pub fn pixel_at(width: usize, height: usize, k: usize) -> (r: (usize, usize))
    requires
        k < width * height,
    ensures
        (r.0 as int, r.1 as int) == pixel_of(width as int, height as int, k as int),
        r.0 < width,
        r.1 < height,
{
    proof {
        lemma_pixel_in_grid(width as int, height as int, k as int);
    }
    (k % width, height - 1 - k / width)
}

proof fn lemma_pixel_in_grid(width: int, height: int, k: int)
    requires
        0 <= k < width * height,
        0 <= width,
        0 <= height,
    ensures
        width > 0,
        0 <= k / width < height,
        0 <= k % width < width,
{
    if width <= 0 {
        assert(width * height == 0) by (nonlinear_arith) requires width == 0;
    }
    assert(0 <= k / width < height) by (nonlinear_arith)
        requires 0 <= k < width * height, width > 0;
}

/// Every pixel of the grid is emitted exactly once: the emission order and
/// `emission_index` are inverse to each other on the grid.
pub proof fn lemma_emission_order_bijective(width: int, height: int, k: int, column: int, row: int)
    requires
        width > 0,
        height > 0,
    ensures
        0 <= k < width * height ==> {
            let p = pixel_of(width, height, k);
            &&& 0 <= p.0 < width
            &&& 0 <= p.1 < height
            &&& emission_index(width, height, p.0, p.1) == k
        },
        0 <= column < width && 0 <= row < height ==> {
            let e = emission_index(width, height, column, row);
            &&& 0 <= e < width * height
            &&& pixel_of(width, height, e) == (column, row)
        },
{
    if 0 <= k < width * height {
        lemma_pixel_in_grid(width, height, k);
        vstd::arithmetic::div_mod::lemma_fundamental_div_mod(k, width);
        assert((k / width) * width == width * (k / width)) by (nonlinear_arith);
    }
    if 0 <= column < width && 0 <= row < height {
        let q = height - 1 - row;
        assert(0 <= q * width + column < width * height) by (nonlinear_arith)
            requires 0 <= q < height, 0 <= column < width;
        vstd::arithmetic::div_mod::lemma_fundamental_div_mod_converse(q * width + column, width, q, column);
    }
}

} // verus!
