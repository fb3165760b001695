//! Grayscale coloring of iteration results.
use crate::fractal::FractalBehavior;
use vstd::prelude::*;

verus! {

/// Intensity of a result: black for a bounded orbit, and
/// `floor(i / max_iter * 256)` clamped to `[0, 255]` for one that escaped at step `i`.
pub open spec fn shade<C, F>(b: FractalBehavior<C, F>, max_iter: u32) -> u8 {
    match b {
        FractalBehavior::Converges(..) => 0,
        FractalBehavior::Diverges(_, _, i) => {
            let v = (i as int * 256) / (max_iter as int);
            if v > 255 {
                255
            } else {
                v as u8
            }
        },
    }
}

/// The gray intensity written to each of the R, G and B channels for `b`
/// under budget `max_iter`.
pub fn color_of<C, F>(b: &FractalBehavior<C, F>, max_iter: u32) -> (r: u8)
    requires
        b.well_formed(max_iter),
    ensures
        r == shade(*b, max_iter),
        b is Converges ==> r == 0,
        b is Diverges ==> r as int == (b.count() as int * 256) / (max_iter as int),
{
    match b {
        FractalBehavior::Converges(..) => 0,
        FractalBehavior::Diverges(_, _, i) => {
            let i = *i;
            let v: u64 = (i as u64 * 256) / (max_iter as u64);
            proof {
                assert(i as int * 256 < max_iter as int * 256) by (nonlinear_arith)
                    requires
                        (i as int) < (max_iter as int),
                ;
                assert(v < 256) by (nonlinear_arith)
                    requires
                        i as int * 256 < max_iter as int * 256,
                        v == (i as int * 256) / (max_iter as int),
                        max_iter > 0,
                ;
            }
            if v > 255 {
                255
            } else {
                v as u8
            }
        },
    }
}

} // verus!
