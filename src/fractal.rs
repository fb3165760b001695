//! Fractal variants and the escape-time bookkeeping of one orbit.
use vstd::prelude::*;

verus! {

/// The two supported escape-time fractals.
#[derive(Clone, Copy, Debug, PartialEq, Eq, Structural)]
pub enum Fractal {
    Mandelbrot,
    BurningShip,
}

/// The update rule one iteration step applies to `z`.
#[derive(Clone, Copy, Debug, PartialEq, Eq, Structural)]
pub enum StepRule {
    /// `z' = z^2 + c`.
    Square,
    /// `z' = (|Re z| + i|Im z|)^2 + c`.
    FoldedSquare,
    /// `z' = 2 X z + z^2 + c`, with `X` the tile's reference endpoint.
    PerturbedSquare,
}

/// How an orbit ended: its last point, that point's magnitude and an iteration count.
///
/// `Converges` carries the full budget; `Diverges` carries the 0-based step at
/// which the magnitude first exceeded the escape radius 2.
#[derive(Debug)]
pub enum FractalBehavior<C, F> {
    Converges(C, F, u32),
    Diverges(C, F, u32),
}

/// An orbit still under way: the current point, its magnitude, the number of
/// steps taken so far and the iteration budget.
#[derive(Debug)]
pub struct Orbit<C, F> {
    pub z: C,
    pub mag: F,
    pub steps: u32,
    pub max_iter: u32,
}

/// The orbit after a decision: still running, or finished with its behavior.
#[derive(Debug)]
pub enum OrbitStep<C, F> {
    Running(Orbit<C, F>),
    Finished(FractalBehavior<C, F>),
}

pub open spec fn rule_of(f: Fractal, perturbed: bool) -> StepRule {
    match f {
        Fractal::Mandelbrot => if perturbed {
            StepRule::PerturbedSquare
        } else {
            StepRule::Square
        },
        Fractal::BurningShip => StepRule::FoldedSquare,
    }
}

impl Fractal {
    /// The update rule of this fractal, on the full-precision path or on the
    /// perturbation path. Burning Ship's absolute values break the
    /// linearisation, so its perturbation path keeps the folded square.
    pub fn step_rule(&self, perturbed: bool) -> (r: StepRule)
        ensures
            r == rule_of(*self, perturbed),
    {
        match self {
            Fractal::Mandelbrot => if perturbed {
                StepRule::PerturbedSquare
            } else {
                StepRule::Square
            },
            Fractal::BurningShip => StepRule::FoldedSquare,
        }
    }
}

impl<C, F> FractalBehavior<C, F> {
    pub open spec fn count(&self) -> u32 {
        match self {
            FractalBehavior::Converges(_, _, n) => *n,
            FractalBehavior::Diverges(_, _, n) => *n,
        }
    }

    /// The invariant of a result under budget `max_iter`.
    pub open spec fn well_formed(&self, max_iter: u32) -> bool {
        match self {
            FractalBehavior::Converges(_, _, n) => *n == max_iter,
            FractalBehavior::Diverges(_, _, n) => *n < max_iter,
        }
    }

    /// Whether the orbit escaped.
    pub fn diverges(&self) -> (r: bool)
        ensures
            r == (self is Diverges),
    {
        match self {
            FractalBehavior::Converges(..) => false,
            FractalBehavior::Diverges(..) => true,
        }
    }

    /// The iteration count this result carries.
    pub fn iterations(&self) -> (r: u32)
        ensures
            r == self.count(),
    {
        match self {
            FractalBehavior::Converges(_, _, n) => *n,
            FractalBehavior::Diverges(_, _, n) => *n,
        }
    }
}

impl<C, F> Orbit<C, F> {
    /// A running orbit has steps left in its budget.
    pub open spec fn well_formed(&self) -> bool {
        self.steps < self.max_iter
    }

    /// Starts an orbit at `z0` (the origin, of magnitude `mag0`). With a zero
    /// budget no step is taken and the orbit converges with 0 iterations run.
    pub fn start(z0: C, mag0: F, max_iter: u32) -> (r: OrbitStep<C, F>)
        ensures
            max_iter == 0 ==> r == OrbitStep::Finished(FractalBehavior::Converges(z0, mag0, 0)),
            max_iter > 0 ==> r == OrbitStep::Running(
                (Orbit { z: z0, mag: mag0, steps: 0, max_iter }),
            ),
            r.well_formed(max_iter),
    {
        if max_iter == 0 {
            OrbitStep::Finished(FractalBehavior::Converges(z0, mag0, 0))
        } else {
            OrbitStep::Running(Orbit { z: z0, mag: mag0, steps: 0, max_iter })
        }
    }

    /// Takes in the next point `z` of the orbit and its magnitude `mag`;
    /// `escaped` tells whether `mag` exceeds the escape radius 2. An escape
    /// ends the orbit at the current step; otherwise the orbit converges once
    /// the budget is spent.
    pub fn advance(self, z: C, mag: F, escaped: bool) -> (r: OrbitStep<C, F>)
        requires
            self.well_formed(),
        ensures
            escaped ==> r == OrbitStep::Finished(FractalBehavior::Diverges(z, mag, self.steps)),
            !escaped && self.steps + 1 == self.max_iter ==> r == OrbitStep::Finished(
                FractalBehavior::Converges(z, mag, self.max_iter),
            ),
            !escaped && self.steps + 1 < self.max_iter ==> r == OrbitStep::Running(
                (Orbit { z, mag, steps: (self.steps + 1) as u32, max_iter: self.max_iter }),
            ),
            r.well_formed(self.max_iter),
    {
        if escaped {
            OrbitStep::Finished(FractalBehavior::Diverges(z, mag, self.steps))
        } else if self.steps + 1 == self.max_iter {
            OrbitStep::Finished(FractalBehavior::Converges(z, mag, self.max_iter))
        } else {
            OrbitStep::Running(Orbit { z, mag, steps: self.steps + 1, max_iter: self.max_iter })
        }
    }
}

impl<C, F> OrbitStep<C, F> {
    /// A running orbit is within its budget; a finished one meets the result invariant.
    pub open spec fn well_formed(&self, max_iter: u32) -> bool {
        match self {
            OrbitStep::Running(o) => o.well_formed() && o.max_iter == max_iter,
            OrbitStep::Finished(b) => b.well_formed(max_iter),
        }
    }
}

} // verus!
