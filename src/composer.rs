//! Combines the outputs of several transfer-function branches into one power.
//!
//! Each branch is a chain of transfer functions evaluated in series, each fed
//! by the output of the one before it; what reaches this module is the output
//! of each branch's last transfer function, a dimensionless ratio. A branch's
//! power is that ratio taken as a temperature interval (times one kelvin),
//! times the branch's gain, a thermal conductance. The parallel sum adds the
//! branch powers and a fixed bias, and clips the result to a floor: a power
//! below the floor (a negative heater power) is replaced by the floor.
use vstd::prelude::*;
use crate::units::{fits_i64, Power, Ratio, ThermalConductance};

verus! {

/// Why the branch outputs could not be combined.
#[derive(Clone, Copy, Debug, PartialEq, Eq, Structural)]
pub enum ComposeError {
    /// The number of branch outputs differs from the number of gains.
    BranchCountMismatch { expected: usize, found: usize },
    /// A branch power or a partial sum does not fit in an `i64`.
    Overflow,
}

/// The fixed configuration of a parallel sum.
#[derive(Clone, Debug)]
pub struct ParallelSum {
    pub gains: Vec<ThermalConductance>,
    pub bias: Power,
    pub floor: Power,
}

/// The power of one branch, in microwatts: milliwatts per kelvin times the
/// output taken as millikelvin.
pub open spec fn branch_power(g: ThermalConductance, o: Ratio) -> int {
    g.milliwatts_per_kelvin * o.thousandths
}

/// The sum of the first `n` branch powers.
pub open spec fn sum_branches(gs: Seq<ThermalConductance>, os: Seq<Ratio>, n: int) -> int
    decreases n,
{
    if n <= 0 {
        0
    } else {
        sum_branches(gs, os, n - 1) + branch_power(gs[n - 1], os[n - 1])
    }
}

/// Each of the first `n` branch powers, and each sum of the first ones, fits in an `i64`.
pub open spec fn sums_fit(gs: Seq<ThermalConductance>, os: Seq<Ratio>, n: int) -> bool
    decreases n,
{
    n <= 0 || {
        &&& sums_fit(gs, os, n - 1)
        &&& fits_i64(branch_power(gs[n - 1], os[n - 1]))
        &&& fits_i64(sum_branches(gs, os, n))
    }
}

/// `v`, or `floor` when `v` lies below it.
pub open spec fn clip_to_floor(v: int, floor: int) -> int {
    if v < floor {
        floor
    } else {
        v
    }
}

/// The combined power, in microwatts, before any overflow is considered.
pub open spec fn parallel_sum_power(gs: Seq<ThermalConductance>, os: Seq<Ratio>, bias: int, floor: int) -> int {
    clip_to_floor(sum_branches(gs, os, gs.len() as int) + bias, floor)
}

proof fn lemma_sums_fit_prefix(gs: Seq<ThermalConductance>, os: Seq<Ratio>, i: int, n: int)
    requires
        0 <= i <= n,
        sums_fit(gs, os, n),
    ensures
        sums_fit(gs, os, i),
    decreases n - i,
{
    if i < n {
        lemma_sums_fit_prefix(gs, os, i, n - 1);
    }
}

impl ParallelSum {
    /// Sums the branch powers of `outputs` (one per gain, in order), adds the
    /// bias, and clips to the floor.
    pub fn compose(&self, outputs: &Vec<Ratio>) -> (r: Result<Power, ComposeError>)
        ensures
            outputs@.len() != self.gains@.len() <==> r == Err::<Power, ComposeError>(
                ComposeError::BranchCountMismatch { expected: self.gains@.len() as usize, found: outputs@.len() as usize },
            ),
            outputs@.len() == self.gains@.len() ==> {
                let total = sum_branches(self.gains@, outputs@, outputs@.len() as int) + self.bias.microwatts;
                if sums_fit(self.gains@, outputs@, outputs@.len() as int) && fits_i64(total) {
                    r == Ok::<Power, ComposeError>(Power {
                        microwatts: parallel_sum_power(self.gains@, outputs@, self.bias.microwatts as int, self.floor.microwatts as int) as i64,
                    })
                } else {
                    r == Err::<Power, ComposeError>(ComposeError::Overflow)
                }
            },
    {
        let n = self.gains.len();
        if outputs.len() != n {
            return Err(ComposeError::BranchCountMismatch { expected: n, found: outputs.len() });
        }
        let ghost gs = self.gains@;
        let ghost os = outputs@;
        let mut sum = Power::from_microwatts(0);
        let mut i: usize = 0;
        while i < n
            invariant
                n == gs.len(),
                n == os.len(),
                gs == self.gains@,
                os == outputs@,
                i <= n,
                sums_fit(gs, os, i as int),
                sum.microwatts == sum_branches(gs, os, i as int),
            decreases n - i,
        {
            let term = match self.gains[i].times_interval(outputs[i].times_kelvin()) {
                Some(p) => p,
                None => {
                    proof {
                        if sums_fit(gs, os, n as int) {
                            lemma_sums_fit_prefix(gs, os, i + 1, n as int);
                        }
                    }
                    return Err(ComposeError::Overflow);
                },
            };
            sum = match sum.checked_add(term) {
                Some(s) => s,
                None => {
                    proof {
                        if sums_fit(gs, os, n as int) {
                            lemma_sums_fit_prefix(gs, os, i + 1, n as int);
                        }
                    }
                    return Err(ComposeError::Overflow);
                },
            };
            i = i + 1;
        }
        let total = match sum.checked_add(self.bias) {
            Some(t) => t,
            None => {
                return Err(ComposeError::Overflow);
            },
        };
        if total.microwatts < self.floor.microwatts {
            Ok(self.floor)
        } else {
            Ok(total)
        }
    }
}

/// One input driven through transfer functions in series: stage `k + 1` is
/// fed the output of stage `k`, and the chain's output is that of its last
/// stage.
pub struct SeriesChain {
    stages: usize,
    next: usize,
    signal: Ratio,
}

/// A series chain as a mathematical value.
pub struct ChainModel {
    pub stages: nat,
    /// The stage to evaluate next; `stages` once all have been.
    pub next: nat,
    /// The input of the next stage, or the chain's output once complete.
    pub signal: Ratio,
}

impl View for SeriesChain {
    type V = ChainModel;

    closed spec fn view(&self) -> ChainModel {
        ChainModel { stages: self.stages as nat, next: self.next as nat, signal: self.signal }
    }
}

impl SeriesChain {
    /// A chain of `stages` transfer functions fed with `input`.
    pub fn start(stages: usize, input: Ratio) -> (r: SeriesChain)
        ensures
            r@ == (ChainModel { stages: stages as nat, next: 0, signal: input }),
    {
        SeriesChain { stages, next: 0, signal: input }
    }

    /// The stage to evaluate next and its input, while stages remain.
    pub fn next_input(&self) -> (r: Option<(usize, Ratio)>)
        ensures
            r == (if self@.next < self@.stages {
                Some((self@.next as usize, self@.signal))
            } else {
                None::<(usize, Ratio)>
            }),
    {
        if self.next < self.stages {
            Some((self.next, self.signal))
        } else {
            None
        }
    }

    /// Hands back the output of the stage last asked for: it becomes the
    /// input of the next stage.
    pub fn supply(&mut self, output: Ratio)
        requires
            old(self)@.next < old(self)@.stages,
        ensures
            final(self)@ == (ChainModel { next: old(self)@.next + 1, signal: output, ..old(self)@ }),
    {
        self.next = self.next + 1;
        self.signal = output;
    }

    /// The chain's output, once every stage has been evaluated.
    pub fn output(&self) -> (r: Option<Ratio>)
        ensures
            r == (if self@.next >= self@.stages {
                Some(self@.signal)
            } else {
                None::<Ratio>
            }),
    {
        if self.next >= self.stages {
            Some(self.signal)
        } else {
            None
        }
    }
}

/// Floor clip: whatever the branch outputs, the combined power is never below
/// the floor, and when the branch powers and the bias add up to less than the
/// floor it is exactly the floor.
pub proof fn lemma_floor_clip(gs: Seq<ThermalConductance>, os: Seq<Ratio>, bias: int, floor: int)
    ensures
        parallel_sum_power(gs, os, bias, floor) >= floor,
        sum_branches(gs, os, gs.len() as int) + bias < floor ==> parallel_sum_power(gs, os, bias, floor) == floor,
        sum_branches(gs, os, gs.len() as int) + bias >= floor ==> parallel_sum_power(gs, os, bias, floor)
            == sum_branches(gs, os, gs.len() as int) + bias,
{
}

} // verus!
