use crate::fraction::Fraction;
use vstd::prelude::*;

verus! {

/// The extent of one cell along an axis: the viewport's length shared out over
/// the divisions, less the padding on both sides.
pub open spec fn spec_cell_extent(view_len: u32, divisions: u32, padding: u32) -> real {
    view_len as real / divisions as real - 2real * (padding as real)
}

/// The centre of the cell at `index` along an axis: cells follow one another at
/// a pitch of one extent plus one padding, and the whole is shifted back by a
/// third of the viewport's length.
pub open spec fn spec_cell_centre(view_len: u32, divisions: u32, padding: u32, index: u32) -> real {
    index as real * (spec_cell_extent(view_len, divisions, padding) + padding as real)
        - view_len as real / 3real
}

/// The fraction that `cell_extent` returns.
pub open spec fn spec_extent_fraction(view_len: u32, divisions: u32, padding: u32) -> Fraction {
    Fraction { num: (view_len - 2 * padding * divisions) as i128, den: divisions as u64 }
}

/// The fraction that `cell_centre` returns.
pub open spec fn spec_centre_fraction(
    view_len: u32,
    divisions: u32,
    padding: u32,
    index: u32,
) -> Fraction {
    Fraction {
        num: (3 * index * (view_len - padding * divisions) - view_len * divisions) as i128,
        den: (3 * divisions) as u64,
    }
}

/// The extent fraction stands for the extent of a cell.
pub proof fn lemma_extent_value(view_len: u32, divisions: u32, padding: u32)
    requires
        divisions > 0,
    ensures
        spec_extent_fraction(view_len, divisions, padding).wf(),
        spec_extent_fraction(view_len, divisions, padding).value() == spec_cell_extent(
            view_len,
            divisions,
            padding,
        ),
{
    let w = view_len as int;
    let n = divisions as int;
    let p = padding as int;
    assert(-0x2_0000_0000_0000_0000 <= w - 2 * p * n <= 0x1_0000_0000) by (nonlinear_arith)
        requires
            0 <= w < 0x1_0000_0000,
            0 < n < 0x1_0000_0000,
            0 <= p < 0x1_0000_0000,
    ;
    let wr = w as real;
    let nr = n as real;
    let pr = p as real;
    assert((w - 2 * p * n) as real == wr - 2real * pr * nr) by (nonlinear_arith)
        requires
            wr == w as real,
            nr == n as real,
            pr == p as real,
    ;
    assert((wr - 2real * pr * nr) / nr == wr / nr - 2real * pr) by (nonlinear_arith)
        requires
            nr > 0real,
    ;
}

/// The centre fraction stands for the centre of a cell.
pub proof fn lemma_centre_value(view_len: u32, divisions: u32, padding: u32, index: u32)
    requires
        divisions > 0,
    ensures
        spec_centre_fraction(view_len, divisions, padding, index).wf(),
        spec_centre_fraction(view_len, divisions, padding, index).value() == spec_cell_centre(
            view_len,
            divisions,
            padding,
            index,
        ),
{
    let w = view_len as int;
    let n = divisions as int;
    let p = padding as int;
    let i = index as int;
    assert(-0x4_0000_0000_0000_0000_0000_0000 <= 3 * i * (w - p * n) - w * n
        <= 0x4_0000_0000_0000_0000) by (nonlinear_arith)
        requires
            0 <= w < 0x1_0000_0000,
            0 < n < 0x1_0000_0000,
            0 <= p < 0x1_0000_0000,
            0 <= i < 0x1_0000_0000,
    ;
    let wr = w as real;
    let nr = n as real;
    let pr = p as real;
    let ir = i as real;
    assert((3 * i * (w - p * n) - w * n) as real == 3real * ir * (wr - pr * nr) - wr * nr
        && (3 * n) as real == 3real * nr) by (nonlinear_arith)
        requires
            wr == w as real,
            nr == n as real,
            pr == p as real,
            ir == i as real,
    ;
    assert((3real * ir * (wr - pr * nr) - wr * nr) / (3real * nr) == ir * ((wr / nr - 2real * pr)
        + pr) - wr / 3real) by (nonlinear_arith)
        requires
            nr > 0real,
    ;
}

/// The extent of one cell along an axis of `view_len` with `divisions` divisions.
pub fn cell_extent(view_len: u32, divisions: u32, padding: u32) -> (r: Fraction)
    requires
        divisions > 0,
    ensures
        r == spec_extent_fraction(view_len, divisions, padding),
        r.wf(),
        r.value() == spec_cell_extent(view_len, divisions, padding),
{
    proof {
        lemma_extent_value(view_len, divisions, padding);
    }
    let w: i128 = view_len as i128;
    let n: i128 = divisions as i128;
    let p: i128 = padding as i128;
    assert(0 <= p * n <= 0xffff_ffff * 0xffff_ffff) by (nonlinear_arith)
        requires
            0 <= p <= 0xffff_ffff,
            0 <= n <= 0xffff_ffff,
    ;
    assert(2 * padding * divisions == 2 * (p * n)) by (nonlinear_arith)
        requires
            p == padding,
            n == divisions,
    ;
    Fraction { num: w - 2 * (p * n), den: divisions as u64 }
}

/// The centre of the cell at `index` along an axis of `view_len` with `divisions`
/// divisions.
pub fn cell_centre(view_len: u32, divisions: u32, padding: u32, index: u32) -> (r: Fraction)
    requires
        divisions > 0,
    ensures
        r == spec_centre_fraction(view_len, divisions, padding, index),
        r.wf(),
        r.value() == spec_cell_centre(view_len, divisions, padding, index),
{
    proof {
        lemma_centre_value(view_len, divisions, padding, index);
    }
    let w: i128 = view_len as i128;
    let n: i128 = divisions as i128;
    let p: i128 = padding as i128;
    let i: i128 = index as i128;
    assert(0 <= p * n <= 0xffff_ffff * 0xffff_ffff && 0 <= w * n <= 0xffff_ffff * 0xffff_ffff)
        by (nonlinear_arith)
        requires
            0 <= p <= 0xffff_ffff,
            0 <= n <= 0xffff_ffff,
            0 <= w <= 0xffff_ffff,
    ;
    let step: i128 = w - p * n;
    let reach: i128 = 3 * i;
    assert(-0x3_0000_0000_0000_0000_0000_0000 <= reach * step <= 0x3_0000_0000_0000_0000)
        by (nonlinear_arith)
        requires
            0 <= reach <= 3 * 0xffff_ffff,
            -0xffff_ffff * 0xffff_ffff <= step <= 0xffff_ffff,
    ;
    assert(3 * index * (view_len - padding * divisions) - view_len * divisions == reach * step - w
        * n) by (nonlinear_arith)
        requires
            reach == 3 * index,
            step == view_len - padding * divisions,
            w == view_len,
            n == divisions,
    ;
    Fraction { num: reach * step - w * n, den: 3 * (divisions as u64) }
}

} // verus!
