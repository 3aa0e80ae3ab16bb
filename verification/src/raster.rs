//! The order in which the pixels of an image are produced and written.
//!
//! Columns are counted from the left and rows from the bottom, as the
//! camera counts them. The image is written from the top row down, each
//! row from left to right.

use vstd::prelude::*;
use vstd::arithmetic::div_mod::{
    lemma_div_is_ordered,
    lemma_fundamental_div_mod,
    lemma_fundamental_div_mod_converse,
    lemma_mod_bound,
};

verus! {

/// A place in the image.
#[derive(Clone, Copy, Debug, PartialEq, Eq, Hash)]
pub struct Pixel {
    /// Counted from the left, starting at 0.
    pub column: u32,
    /// Counted from the bottom, starting at 0.
    pub row: u32,
}

/// The column and the row of the pixel that is written in place `k`.
pub open spec fn scanned(width: nat, height: nat, k: nat) -> (nat, nat) {
    (k % width, (height - 1 - k / width) as nat)
}

/// The place in which the pixel of the given column and row is written.
pub open spec fn place(width: nat, height: nat, column: nat, row: nat) -> nat {
    ((height - 1 - row) * width + column) as nat
}

/// The quotient of a place by the width is a line of the image.
proof fn line_in_image(width: nat, height: nat, k: nat)
    requires
        k < width * height,
    ensures
        width > 0,
        0 <= k / width < height,
        0 <= k % width < width,
        k == width * (k / width) + k % width,
{
    assert(width > 0) by (nonlinear_arith)
        requires
            k < width * height,
    ;
    let w = width as int;
    let q = k as int / w;
    lemma_fundamental_div_mod(k as int, w);
    lemma_mod_bound(k as int, w);
    assert(0 <= q) by (nonlinear_arith)
        requires
            k == w * q + (k as int % w),
            (k as int % w) < w,
            w > 0,
            k >= 0,
    ;
    assert(q < height) by (nonlinear_arith)
        requires
            k == w * q + (k as int % w),
            0 <= (k as int % w),
            k < w * height,
            w > 0,
    ;
}

/// Every pixel of the image is written, in the place that `place` gives.
pub proof fn scan_reaches_every_pixel(width: nat, height: nat, column: nat, row: nat)
    requires
        column < width,
        row < height,
    ensures
        place(width, height, column, row) < width * height,
        scanned(width, height, place(width, height, column, row)) == (column, row),
{
    let w = width as int;
    let line = height - 1 - row;
    let k = line * w + column;
    assert(0 <= line * w && k < w * height) by (nonlinear_arith)
        requires
            0 <= line <= height - 1,
            0 <= column < w,
            k == line * w + column,
    ;
    lemma_fundamental_div_mod_converse(k, w, line, column as int);
}

/// No pixel is written twice: the place of the pixel that is written in
/// place `k` is `k`, and that pixel lies in the image.
pub proof fn scan_writes_each_pixel_once(width: nat, height: nat, k: nat)
    requires
        k < width * height,
    ensures
        scanned(width, height, k).0 < width,
        scanned(width, height, k).1 < height,
        place(width, height, scanned(width, height, k).0, scanned(width, height, k).1) == k,
{
    line_in_image(width, height, k);
    let w = width as int;
    let q = k as int / w;
    assert(q * w == w * q) by (nonlinear_arith);
}

/// The rows are written from the top one down, and each row from left to
/// right.
pub proof fn scan_runs_top_down(width: nat, height: nat, j: nat, k: nat)
    requires
        j < k < width * height,
    ensures
        scanned(width, height, j).1 >= scanned(width, height, k).1,
        scanned(width, height, j).1 == scanned(width, height, k).1 ==> scanned(
            width,
            height,
            j,
        ).0 < scanned(width, height, k).0,
{
    line_in_image(width, height, j);
    line_in_image(width, height, k);
    lemma_div_is_ordered(j as int, k as int, width as int);
}

/// The number of pixels of an image.
pub fn pixel_count(width: u32, height: u32) -> (n: u64)
    ensures
        n == width * height,
{
    assert(width * height <= u64::MAX) by (nonlinear_arith)
        requires
            width <= u32::MAX,
            height <= u32::MAX,
    ;
    (width as u64) * (height as u64)
}

/// The pixel that is written in place `k` of an image of the given size,
/// or `None` where the image has no such place.
pub fn pixel_at(width: u32, height: u32, k: u64) -> (p: Option<Pixel>)
    ensures
        p is Some <==> k < width * height,
        p matches Some(pixel) ==> {
            &&& pixel.column < width
            &&& pixel.row < height
            &&& (pixel.column as nat, pixel.row as nat) == scanned(
                width as nat,
                height as nat,
                k as nat,
            )
        },
{
    if k >= pixel_count(width, height) {
        None
    } else {
        proof {
            line_in_image(width as nat, height as nat, k as nat);
        }
        let column = k % (width as u64);
        let line = k / (width as u64);
        Some(Pixel { column: column as u32, row: height - 1 - (line as u32) })
    }
}

} // verus!
