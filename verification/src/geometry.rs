//! Viewport geometry: the row-major layout of a frame and its centre.

use vstd::prelude::*;

verus! {

/// A viewport has at least one pixel each way, and its pixel count can index a buffer.
pub open spec fn valid_dimensions(width: nat, height: nat) -> bool {
    &&& width > 0
    &&& height > 0
    &&& width * height <= usize::MAX
}

/// The buffer index of the pixel in column `width / 2` of row `height / 2`.
pub open spec fn center_index_spec(width: nat, height: nat) -> nat {
    width / 2 + (height / 2) * width
}

/// The buffer index of the pixel at `column` in `row`, rows laid end to end.
pub open spec fn pixel_index_spec(column: nat, row: nat, width: nat) -> nat {
    column + row * width
}

/// Twice the offset of the pixel with this buffer index from the middle of
/// the viewport, across and down: `column - width / 2` and `row - height / 2`
/// with exact halves, doubled so that an odd size needs no fraction.
pub open spec fn screen_offset_spec(index: nat, width: nat, height: nat) -> (int, int) {
    (2 * (index % width) - width, 2 * (index / width) - height)
}

/// The centre pixel lies inside the frame.
pub proof fn lemma_center_in_frame(width: nat, height: nat)
    requires
        width > 0,
        height > 0,
    ensures
        center_index_spec(width, height) < width * height,
        center_index_spec(width, height) == pixel_index_spec(width / 2, height / 2, width),
{
    lemma_index_in_frame(width / 2, height / 2, width, height);
}

/// A pixel inside the viewport has its index inside the frame.
pub proof fn lemma_index_in_frame(column: nat, row: nat, width: nat, height: nat)
    requires
        column < width,
        row < height,
    ensures
        pixel_index_spec(column, row, width) < width * height,
{
    assert(row * width + width <= height * width) by (nonlinear_arith)
        requires
            row + 1 <= height,
    ;
    assert(height * width == width * height) by (nonlinear_arith);
}

/// An index and its column and row determine each other: the column is the
/// remainder by the width, the row the quotient.
pub proof fn lemma_position_of_index(column: nat, row: nat, width: nat)
    requires
        column < width,
    ensures
        pixel_index_spec(column, row, width) % width == column,
        pixel_index_spec(column, row, width) / width == row,
{
    let index = pixel_index_spec(column, row, width) as int;
    let w = width as int;
    assert(index == w * (index / w) + index % w && 0 <= index % w < w) by (nonlinear_arith)
        requires
            w > 0,
    ;
    let q = index / w;
    assert(q == row) by (nonlinear_arith)
        requires
            column + row * w == w * q + index % w,
            0 <= index % w < w,
            0 <= column < w,
    ;
    assert((row as int) * w == w * (row as int)) by (nonlinear_arith);
}

/// Whether a viewport of this size can be rendered.
pub fn dimensions_fit(width: usize, height: usize) -> (fits: bool)
    ensures
        fits == valid_dimensions(width as nat, height as nat),
{
    width > 0 && height > 0 && width.checked_mul(height).is_some()
}

/// The number of pixels in a frame.
pub fn pixel_count(width: usize, height: usize) -> (count: usize)
    requires
        valid_dimensions(width as nat, height as nat),
    ensures
        count == width * height,
        count > 0,
{
    assert(width * height >= width) by (nonlinear_arith)
        requires
            width > 0,
            height > 0,
    ;
    width * height
}

/// The buffer index of the centre pixel.
pub fn center_index(width: usize, height: usize) -> (index: usize)
    requires
        valid_dimensions(width as nat, height as nat),
    ensures
        index == center_index_spec(width as nat, height as nat),
        index < width * height,
{
    proof {
        lemma_center_in_frame(width as nat, height as nat);
        assert((height / 2) * width <= center_index_spec(width as nat, height as nat));
    }
    width / 2 + (height / 2) * width
}

/// The column and row of the pixel with this buffer index.
pub fn pixel_position(index: usize, width: usize) -> (position: (usize, usize))
    requires
        width > 0,
    ensures
        position.0 == index % width,
        position.1 == index / width,
        position.0 < width,
        pixel_index_spec(position.0 as nat, position.1 as nat, width as nat) == index,
{
    proof {
        let i = index as int;
        let w = width as int;
        assert(i == w * (i / w) + i % w && 0 <= i % w < w) by (nonlinear_arith)
            requires
                w > 0,
        ;
        assert((i / w) * w == w * (i / w)) by (nonlinear_arith);
    }
    (index % width, index / width)
}

/// Twice the offset of a pixel from the middle of the viewport, across and
/// down. Halved and divided by the scale, it is the pixel's place in the
/// plane before panning.
pub fn screen_offset(index: usize, width: usize, height: usize) -> (doubled: (i128, i128))
    requires
        width > 0,
    ensures
        doubled.0 == screen_offset_spec(index as nat, width as nat, height as nat).0,
        doubled.1 == screen_offset_spec(index as nat, width as nat, height as nat).1,
        -(width as int) <= doubled.0 < width,
{
    let (column, row) = pixel_position(index, width);
    (2 * (column as i128) - (width as i128), 2 * (row as i128) - (height as i128))
}

/// The centre pixel has no offset across or down in a viewport of even
/// size, and half a pixel less than none each way that the size is odd.
pub proof fn lemma_center_offset(width: nat, height: nat)
    requires
        width > 0,
        height > 0,
    ensures
        screen_offset_spec(center_index_spec(width, height), width, height) == (
            -((width % 2) as int),
            -((height % 2) as int),
        ),
{
    lemma_position_of_index(width / 2, height / 2, width);
}

/// The buffer index of the pixel at `column` in `row`.
pub fn pixel_index(column: usize, row: usize, width: usize, height: usize) -> (index: usize)
    requires
        valid_dimensions(width as nat, height as nat),
        column < width,
        row < height,
    ensures
        index == pixel_index_spec(column as nat, row as nat, width as nat),
        index < width * height,
{
    proof {
        lemma_index_in_frame(column as nat, row as nat, width as nat, height as nat);
        assert(row * width <= pixel_index_spec(column as nat, row as nat, width as nat));
    }
    column + row * width
}

} // verus!
