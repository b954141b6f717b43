//! The sweep plan and the spectral window: set-point arithmetic, the
//! analyzer trace geometry, and the wavelength interpolation across the
//! window.

use vstd::prelude::*;

use crate::scaled::parse_uint_spec;
use crate::scaled::parse_uint;

verus! {

/// Bound on the currents a plan may hold, in hundredths of a milliampere:
/// a machine limit keeping set-point arithmetic and the ampere rendering
/// inside `i64`, far above any current the hardware accepts.
pub const MAX_ABS_CMA: i64 = 1000000000;

/// The set-point plan of a sweep. Currents are in hundredths of a
/// milliampere, the resolution the summary rows carry.
pub struct SweepPlan {
    /// First set-point, hundredths of a milliampere.
    pub start_cma: i64,
    /// Upper bound of the sweep, hundredths of a milliampere.
    pub stop_cma: i64,
    /// Distance between set-points, hundredths of a milliampere.
    pub step_cma: i64,
    /// Settling time after each current change, milliseconds.
    pub dwell_ms: u64,
}

impl SweepPlan {
    pub open spec fn wf(self) -> bool {
        &&& self.step_cma > 0
        &&& self.start_cma <= self.stop_cma
        &&& -MAX_ABS_CMA <= self.start_cma
        &&& self.stop_cma <= MAX_ABS_CMA
    }

    /// How many set-points the plan yields: `floor((stop-start)/step) + 1`.
    pub open spec fn spec_num_points(self) -> int {
        (self.stop_cma - self.start_cma) / (self.step_cma as int) + 1
    }

    /// The current of set-point `i`: `start + i * step`.
    pub open spec fn spec_current(self, i: int) -> int {
        self.start_cma + i * (self.step_cma as int)
    }

    /// Build a plan; `None` exactly where the parameters break the plan's
    /// invariant (a non-positive step, a stop below the start, or a
    /// current outside the machine bound).
    pub fn new(start_cma: i64, stop_cma: i64, step_cma: i64, dwell_ms: u64) -> (r: Option<
        SweepPlan,
    >)
        ensures
            r is Some <==> step_cma > 0 && start_cma <= stop_cma && -MAX_ABS_CMA <= start_cma
                && stop_cma <= MAX_ABS_CMA,
            r matches Some(p) ==> p == (SweepPlan { start_cma, stop_cma, step_cma, dwell_ms })
                && p.wf(),
    {
        if step_cma > 0 && start_cma <= stop_cma && -MAX_ABS_CMA <= start_cma && stop_cma
            <= MAX_ABS_CMA {
            Some(SweepPlan { start_cma, stop_cma, step_cma, dwell_ms })
        } else {
            None
        }
    }

    /// The number of set-points: `floor((stop-start)/step) + 1`, never
    /// below one.
    pub fn num_points(&self) -> (r: usize)
        requires
            self.wf(),
        ensures
            r == self.spec_num_points(),
            r >= 1,
    {
        let diff = (self.stop_cma - self.start_cma) as u64;
        let q = diff / (self.step_cma as u64);
        proof {
            vstd::arithmetic::div_mod::lemma_div_nonincreasing(
                diff as int,
                self.step_cma as int,
            );
        }
        (q + 1) as usize
    }

    /// The current of set-point `i`, within `[start, stop]`.
    pub fn current_at(&self, i: usize) -> (r: i64)
        requires
            self.wf(),
            i < self.spec_num_points(),
        ensures
            r == self.spec_current(i as int),
            self.start_cma <= r <= self.stop_cma,
    {
        let diff = (self.stop_cma - self.start_cma) as u64;
        let step = self.step_cma as u64;
        proof {
            vstd::arithmetic::div_mod::lemma_fundamental_div_mod(diff as int, step as int);
            vstd::arithmetic::div_mod::lemma_mod_bound(diff as int, step as int);
            vstd::arithmetic::mul::lemma_mul_inequality(
                i as int,
                diff as int / step as int,
                step as int,
            );
        }
        let prod = (i as u64) * step;
        self.start_cma + (prod as i64)
    }
}

/// How many trace samples stand in where the analyzer's reply to the
/// trace-size query is unusable.
pub const DEFAULT_TRACE_POINTS: u64 = 800;

/// The trace-sample count a size reply yields: the reply parsed as a
/// positive integer, or the default where it does not parse or is zero.
pub open spec fn trace_points_spec(s: Seq<char>) -> nat {
    match parse_uint_spec(s) {
        Some(v) => if v > 0 {
            v
        } else {
            DEFAULT_TRACE_POINTS as nat
        },
        None => DEFAULT_TRACE_POINTS as nat,
    }
}

/// Read the analyzer's trace-size reply, falling back to the default on
/// anything unusable; the result is always at least one.
pub fn trace_points_of_response(s: &str) -> (r: u64)
    ensures
        r as nat == trace_points_spec(s@),
        r >= 1,
{
    match parse_uint(s) {
        Some(v) => if v > 0 {
            v
        } else {
            DEFAULT_TRACE_POINTS
        },
        None => DEFAULT_TRACE_POINTS,
    }
}

/// Bound on the wavelengths a window may hold, in ten-thousandths of a
/// nanometre: a machine limit keeping interpolation inside `i64`.
pub const MAX_WL_E4: i64 = 1000000000000;

/// The analyzer's spectral window, in ten-thousandths of a nanometre
/// (the resolution the trace rows carry). The window never changes during
/// a run.
pub struct SpectrumWindow {
    /// Centre wavelength.
    pub center_e4: i64,
    /// Full span, symmetric about the centre.
    pub span_e4: i64,
}

impl SpectrumWindow {
    pub open spec fn wf(self) -> bool {
        &&& 0 <= self.span_e4
        &&& self.span_e4 <= self.center_e4
        &&& self.center_e4 + self.span_e4 <= MAX_WL_E4
    }

    /// The low edge of the window: `center - span / 2`.
    pub open spec fn spec_start(self) -> int {
        self.center_e4 - (self.span_e4 as int) / 2
    }

    /// The high edge of the window: `center + span / 2`.
    pub open spec fn spec_stop(self) -> int {
        self.center_e4 + (self.span_e4 as int) / 2
    }

    /// Build a window; `None` exactly where the parameters break the
    /// window's invariant.
    pub fn new(center_e4: i64, span_e4: i64) -> (r: Option<SpectrumWindow>)
        ensures
            r is Some <==> 0 <= span_e4 && span_e4 <= center_e4 && center_e4 + span_e4
                <= MAX_WL_E4,
            r matches Some(w) ==> w == (SpectrumWindow { center_e4, span_e4 }) && w.wf(),
    {
        if 0 <= span_e4 && span_e4 <= center_e4 && center_e4 <= MAX_WL_E4 - span_e4 {
            Some(SpectrumWindow { center_e4, span_e4 })
        } else {
            None
        }
    }

    pub fn start_wl_e4(&self) -> (r: i64)
        requires
            self.wf(),
        ensures
            r == self.spec_start(),
    {
        self.center_e4 - ((self.span_e4 as u64 / 2) as i64)
    }

    pub fn stop_wl_e4(&self) -> (r: i64)
        requires
            self.wf(),
        ensures
            r == self.spec_stop(),
    {
        self.center_e4 + ((self.span_e4 as u64 / 2) as i64)
    }
}

/// The wavelength of sample `j` among `n`, linear across the window:
/// `start + j * (stop - start) / (n - 1)`, and the low edge itself where
/// the trace has a single sample.
pub open spec fn spec_wavelength_at(win: SpectrumWindow, n: int, j: int) -> int {
    if n <= 1 {
        win.spec_start()
    } else {
        win.spec_start() + (j * (win.spec_stop() - win.spec_start())) / (n - 1)
    }
}

/// Interpolate the wavelength of trace sample `j`; the result never
/// leaves the window.
pub fn wavelength_at(win: &SpectrumWindow, n: u64, j: u64) -> (r: i64)
    requires
        win.wf(),
        1 <= n,
        j < n,
    ensures
        r == spec_wavelength_at(*win, n as int, j as int),
        win.spec_start() <= r <= win.spec_stop(),
{
    let start = win.start_wl_e4();
    if n == 1 {
        start
    } else {
        let stop = win.stop_wl_e4();
        let width = (stop - start) as u128;
        proof {
            vstd::arithmetic::mul::lemma_mul_upper_bound(
                j as int,
                u64::MAX as int,
                width as int,
                MAX_WL_E4 as int,
            );
        }
        let prod = (j as u128) * width;
        let q = prod / ((n - 1) as u128);
        proof {
            vstd::arithmetic::mul::lemma_mul_inequality(j as int, (n - 1) as int, width as int);
            vstd::arithmetic::div_mod::lemma_div_multiples_vanish(width as int, (n - 1) as int);
            vstd::arithmetic::div_mod::lemma_div_is_ordered(
                prod as int,
                (n - 1) as int * width as int,
                (n - 1) as int,
            );
            vstd::arithmetic::div_mod::lemma_div_pos_is_pos(prod as int, (n - 1) as int);
        }
        start + (q as i64)
    }
}

} // verus!
