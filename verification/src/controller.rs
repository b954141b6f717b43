//! The sweep controller: a state machine over the fixed measurement
//! procedure. The caller runs the loop: it performs each `Action` the
//! controller hands out (instrument I/O, delays, file writes) and answers
//! with an `Event`; the controller decides everything else. A transport
//! fault aborts the run at once; a reply line that does not parse never
//! does — each numeric site has its fallback value.

use vstd::prelude::*;

use crate::plan::SweepPlan;
use crate::plan::SpectrumWindow;
use crate::plan::trace_points_spec;
use crate::plan::trace_points_of_response;
use crate::scaled::fixed_str;
use crate::scaled::fmt_fixed;
use crate::scaled::parse_scaled_or_spec;
use crate::scaled::parse_scaled_or;
use crate::sink::summary_header_str;
use crate::sink::summary_header;
use crate::sink::summary_row_str;
use crate::sink::summary_row;
use crate::sink::trace_header_str;
use crate::sink::trace_header;
use crate::sink::trace_file_name_str;
use crate::sink::trace_file_name;
use crate::sink::trace_rows_spec;
use crate::sink::trace_rows;
use crate::text::trimmed;
use crate::text::trim;

verus! {

/// The two instruments the procedure drives.
#[derive(Clone, Copy, PartialEq, Eq, Structural, Debug)]
pub enum Device {
    /// The laser-diode current source.
    Source,
    /// The optical spectrum analyzer.
    Analyzer,
}

/// One step of outside work the caller performs for the controller.
pub enum Action {
    /// Send command text to a device; no reply is read.
    Send { dev: Device, cmd: String },
    /// Send command text to a device, then read one reply line.
    Query { dev: Device, cmd: String },
    /// Block for the given time.
    SleepMs { ms: u64 },
    /// Append one line to the summary file.
    WriteSummary { line: String },
    /// Write one whole per-point trace file: its name and every line.
    WriteTrace { name: String, lines: Vec<String> },
}

/// What the caller reports back about the last action.
pub enum Event {
    /// The action was performed; no text came back.
    Ack,
    /// The action was performed and this line was read.
    Line(String),
    /// The transport failed: a write or read error, or a timeout.
    Fault,
}

/// What the controller says after taking an event.
pub enum Outcome {
    /// Perform this next action and report back.
    Continue(Action),
    /// The run is complete.
    Finished,
    /// The run is aborted on a transport fault.
    Failed,
}

/// Where the procedure stands: the action currently outstanding, or a
/// terminal state.
#[derive(Clone, Copy, PartialEq, Eq, Structural, Debug)]
pub enum Phase {
    WriteHeader,
    ConfigSourceMode,
    ConfigSourceLimit,
    ConfigOsaSingle,
    ConfigOsaWindow,
    QueryTraceCount,
    LaserOffFirst,
    TecOn,
    TecSettle,
    LaserOn,
    LaserSettle,
    SetCurrent,
    Dwell,
    TakeSweep,
    PeakSearch,
    QueryPeakWl,
    QueryPeakPower,
    WriteSummaryRow,
    QueryTrace,
    WriteTraceFile,
    LaserOffLast,
    SweepOff,
    SourceErrors,
    AnalyzerErrors,
    Done,
    Aborted,
}

/// The fixed thermal stabilization delay, milliseconds.
pub const STABILIZE_MS: u64 = 100;

/// Peak wavelength standing in where the reply does not parse.
pub const PEAK_WL_FALLBACK_E4: i64 = 0;

/// Peak power standing in where the reply does not parse: -100 dBm.
pub const PEAK_POWER_FALLBACK_E2: i64 = -10000;

/// A wavelength reply is metres; ten-thousandths of a nanometre sit
/// thirteen decimal places below.
pub const METERS_TO_NM_E4: u32 = 13;

pub open spec fn cmd_source_mode() -> Seq<char> {
    "SOURce:FUNCtion:MODE CURRent\n"@
}

pub open spec fn cmd_source_limit() -> Seq<char> {
    "SOURce:CURRent:LIMit:AMPLitude 100MA\n"@
}

pub open spec fn cmd_osa_single() -> Seq<char> {
    "SNGLS;\n"@
}

pub open spec fn cmd_osa_window(win: SpectrumWindow) -> Seq<char> {
    "CENTERWL "@ + fixed_str(win.center_e4 as int, 4) + "NM;SPANWL "@ + fixed_str(
        win.span_e4 as int,
        4,
    ) + "NM;\n"@
}

pub open spec fn cmd_query_trace_count() -> Seq<char> {
    "MDS?;\n"@
}

pub open spec fn cmd_laser_off() -> Seq<char> {
    "OUTPut:STATe 0\n"@
}

pub open spec fn cmd_tec_on() -> Seq<char> {
    "OUTPut2:STATe 1\n"@
}

pub open spec fn cmd_laser_on() -> Seq<char> {
    "OUTPut:STATe 1\n"@
}

/// The set-current command carries amperes with six fraction digits; a
/// current of `c` hundredths of a milliampere is `10 * c` millionths of
/// an ampere.
pub open spec fn cmd_set_current(c_cma: int) -> Seq<char> {
    "SOURce:CURRent:LEVel:IMMediate:AMPLitude "@ + fixed_str(10 * c_cma, 6) + "\n"@
}

pub open spec fn cmd_take_sweep() -> Seq<char> {
    "TS;DONE?;\n"@
}

pub open spec fn cmd_peak_search() -> Seq<char> {
    "MKPK HI;\n"@
}

pub open spec fn cmd_query_peak_wl() -> Seq<char> {
    "MKWL?;\n"@
}

pub open spec fn cmd_query_peak_power() -> Seq<char> {
    "MKA?;\n"@
}

pub open spec fn cmd_query_trace() -> Seq<char> {
    "TRA?;\n"@
}

pub open spec fn cmd_sweep_off() -> Seq<char> {
    "SWEEP OFF;\n"@
}

pub open spec fn cmd_source_errors() -> Seq<char> {
    "SYST:ERR?\n"@
}

pub open spec fn cmd_osa_errors() -> Seq<char> {
    "XERR?;\n"@
}

pub open spec fn sends(r: Outcome, d: Device, c: Seq<char>) -> bool {
    match r {
        Outcome::Continue(Action::Send { dev, cmd }) => dev == d && cmd@ == c,
        _ => false,
    }
}

pub open spec fn queries(r: Outcome, d: Device, c: Seq<char>) -> bool {
    match r {
        Outcome::Continue(Action::Query { dev, cmd }) => dev == d && cmd@ == c,
        _ => false,
    }
}

pub open spec fn sleeps(r: Outcome, ms: int) -> bool {
    match r {
        Outcome::Continue(Action::SleepMs { ms: m }) => m == ms,
        _ => false,
    }
}

pub open spec fn writes_summary(r: Outcome, line: Seq<char>) -> bool {
    match r {
        Outcome::Continue(Action::WriteSummary { line: l }) => l@ == line,
        _ => false,
    }
}

pub open spec fn writes_trace(r: Outcome, name: Seq<char>, lines: Seq<Seq<char>>) -> bool {
    match r {
        Outcome::Continue(Action::WriteTrace { name: nm, lines: ls }) => nm@ == name
            && ls.deep_view() == lines,
        _ => false,
    }
}

/// The sweep controller. The caller obtains the first action from
/// `start` and then alternates: perform the action, answer with the
/// event, take the next action from `next`.
pub struct Controller {
    /// The set-point plan, fixed for the run.
    pub plan: SweepPlan,
    /// The spectral window, fixed for the run.
    pub window: SpectrumWindow,
    /// Where the procedure stands.
    pub phase: Phase,
    /// The set-point being measured.
    pub idx: usize,
    /// Trace samples per sweep, from the analyzer's size reply.
    pub trace_points: u64,
    /// Peak wavelength of the current point, ten-thousandths of a nanometre.
    pub peak_wl_e4: i64,
    /// Peak power of the current point, hundredths of a dBm.
    pub peak_pow_e2: i64,
    /// Summary data rows handed out so far (the header not counted).
    pub rows_written: usize,
    /// Sweeps whose completion the analyzer did not confirm.
    pub warnings: usize,
    /// The current source's error-queue report, once queried.
    pub source_error_report: Option<String>,
    /// The analyzer's error-queue report, once queried.
    pub analyzer_error_report: Option<String>,
}

/// Phases whose outstanding action ends in reading one line.
pub open spec fn awaits_line(p: Phase) -> bool {
    match p {
        Phase::QueryTraceCount | Phase::TakeSweep | Phase::QueryPeakWl | Phase::QueryPeakPower
            | Phase::QueryTrace | Phase::SourceErrors | Phase::AnalyzerErrors => true,
        _ => false,
    }
}

/// Which events the caller may answer with: a fault always, otherwise a
/// line exactly after a query and an acknowledgement after anything else.
pub open spec fn event_fits(p: Phase, ev: Event) -> bool {
    ||| ev is Fault
    ||| (if awaits_line(p) {
        ev is Line
    } else {
        ev is Ack
    })
}

impl Controller {
    pub open spec fn spec_terminal(self) -> bool {
        self.phase == Phase::Done || self.phase == Phase::Aborted
    }

    pub open spec fn inv(self) -> bool {
        &&& self.plan.wf()
        &&& self.window.wf()
        &&& 1 <= self.trace_points
        &&& 0 <= self.idx < self.plan.spec_num_points()
        &&& match self.phase {
            Phase::WriteHeader | Phase::ConfigSourceMode | Phase::ConfigSourceLimit
                | Phase::ConfigOsaSingle | Phase::ConfigOsaWindow | Phase::QueryTraceCount
                | Phase::LaserOffFirst | Phase::TecOn | Phase::TecSettle | Phase::LaserOn
                | Phase::LaserSettle => self.rows_written == 0 && self.idx == 0
                && self.warnings == 0,
            Phase::SetCurrent | Phase::Dwell | Phase::TakeSweep => self.rows_written == self.idx
                && self.warnings <= self.idx,
            Phase::PeakSearch | Phase::QueryPeakWl | Phase::QueryPeakPower => self.rows_written
                == self.idx && self.warnings <= self.idx + 1,
            Phase::WriteSummaryRow | Phase::QueryTrace | Phase::WriteTraceFile
                => self.rows_written == self.idx + 1 && self.warnings <= self.idx + 1,
            Phase::LaserOffLast | Phase::SweepOff | Phase::SourceErrors | Phase::AnalyzerErrors
                | Phase::Done => self.rows_written == self.plan.spec_num_points() && self.idx + 1
                == self.plan.spec_num_points() && self.warnings
                <= self.plan.spec_num_points(),
            Phase::Aborted => true,
        }
    }
}

/// The transition relation of the controller: what one step does to the
/// state and which outcome it hands out, for every phase and event.
pub open spec fn next_rel(pre: Controller, ev: Event, post: Controller, r: Outcome) -> bool {
    if ev is Fault {
        &&& post == (Controller { phase: Phase::Aborted, ..pre })
        &&& r is Failed
    } else {
        match pre.phase {
            Phase::WriteHeader => {
                &&& ev is Ack
                &&& post == (Controller { phase: Phase::ConfigSourceMode, ..pre })
                &&& sends(r, Device::Source, cmd_source_mode())
            },
            Phase::ConfigSourceMode => {
                &&& ev is Ack
                &&& post == (Controller { phase: Phase::ConfigSourceLimit, ..pre })
                &&& sends(r, Device::Source, cmd_source_limit())
            },
            Phase::ConfigSourceLimit => {
                &&& ev is Ack
                &&& post == (Controller { phase: Phase::ConfigOsaSingle, ..pre })
                &&& sends(r, Device::Analyzer, cmd_osa_single())
            },
            Phase::ConfigOsaSingle => {
                &&& ev is Ack
                &&& post == (Controller { phase: Phase::ConfigOsaWindow, ..pre })
                &&& sends(r, Device::Analyzer, cmd_osa_window(pre.window))
            },
            Phase::ConfigOsaWindow => {
                &&& ev is Ack
                &&& post == (Controller { phase: Phase::QueryTraceCount, ..pre })
                &&& queries(r, Device::Analyzer, cmd_query_trace_count())
            },
            Phase::QueryTraceCount => match ev {
                Event::Line(l) => {
                    &&& post == (Controller {
                        phase: Phase::LaserOffFirst,
                        trace_points: post.trace_points,
                        ..pre
                    })
                    &&& post.trace_points as nat == trace_points_spec(l@)
                    &&& sends(r, Device::Source, cmd_laser_off())
                },
                _ => false,
            },
            Phase::LaserOffFirst => {
                &&& ev is Ack
                &&& post == (Controller { phase: Phase::TecOn, ..pre })
                &&& sends(r, Device::Source, cmd_tec_on())
            },
            Phase::TecOn => {
                &&& ev is Ack
                &&& post == (Controller { phase: Phase::TecSettle, ..pre })
                &&& sleeps(r, STABILIZE_MS as int)
            },
            Phase::TecSettle => {
                &&& ev is Ack
                &&& post == (Controller { phase: Phase::LaserOn, ..pre })
                &&& sends(r, Device::Source, cmd_laser_on())
            },
            Phase::LaserOn => {
                &&& ev is Ack
                &&& post == (Controller { phase: Phase::LaserSettle, ..pre })
                &&& sleeps(r, STABILIZE_MS as int)
            },
            Phase::LaserSettle => {
                &&& ev is Ack
                &&& post == (Controller { phase: Phase::SetCurrent, ..pre })
                &&& sends(r, Device::Source, cmd_set_current(pre.plan.spec_current(pre.idx as int)))
            },
            Phase::SetCurrent => {
                &&& ev is Ack
                &&& post == (Controller { phase: Phase::Dwell, ..pre })
                &&& sleeps(r, pre.plan.dwell_ms as int)
            },
            Phase::Dwell => {
                &&& ev is Ack
                &&& post == (Controller { phase: Phase::TakeSweep, ..pre })
                &&& queries(r, Device::Analyzer, cmd_take_sweep())
            },
            Phase::TakeSweep => match ev {
                Event::Line(l) => {
                    &&& post == (Controller {
                        phase: Phase::PeakSearch,
                        warnings: post.warnings,
                        ..pre
                    })
                    &&& post.warnings as int == pre.warnings as int + (if trimmed(l@) == "1"@ {
                        0int
                    } else {
                        1int
                    })
                    &&& sends(r, Device::Analyzer, cmd_peak_search())
                },
                _ => false,
            },
            Phase::PeakSearch => {
                &&& ev is Ack
                &&& post == (Controller { phase: Phase::QueryPeakWl, ..pre })
                &&& queries(r, Device::Analyzer, cmd_query_peak_wl())
            },
            Phase::QueryPeakWl => match ev {
                Event::Line(l) => {
                    &&& post == (Controller {
                        phase: Phase::QueryPeakPower,
                        peak_wl_e4: post.peak_wl_e4,
                        ..pre
                    })
                    &&& post.peak_wl_e4 as int == parse_scaled_or_spec(
                        l@,
                        METERS_TO_NM_E4 as int,
                        PEAK_WL_FALLBACK_E4 as int,
                    )
                    &&& queries(r, Device::Analyzer, cmd_query_peak_power())
                },
                _ => false,
            },
            Phase::QueryPeakPower => match ev {
                Event::Line(l) => {
                    &&& post == (Controller {
                        phase: Phase::WriteSummaryRow,
                        peak_pow_e2: post.peak_pow_e2,
                        rows_written: post.rows_written,
                        ..pre
                    })
                    &&& post.peak_pow_e2 as int == parse_scaled_or_spec(
                        l@,
                        2,
                        PEAK_POWER_FALLBACK_E2 as int,
                    )
                    &&& post.rows_written == pre.rows_written + 1
                    &&& writes_summary(
                        r,
                        summary_row_str(
                            pre.plan.spec_current(pre.idx as int),
                            pre.peak_wl_e4 as int,
                            post.peak_pow_e2 as int,
                        ),
                    )
                },
                _ => false,
            },
            Phase::WriteSummaryRow => {
                &&& ev is Ack
                &&& post == (Controller { phase: Phase::QueryTrace, ..pre })
                &&& queries(r, Device::Analyzer, cmd_query_trace())
            },
            Phase::QueryTrace => match ev {
                Event::Line(l) => {
                    &&& post == (Controller { phase: Phase::WriteTraceFile, ..pre })
                    &&& writes_trace(
                        r,
                        trace_file_name_str(pre.plan.spec_current(pre.idx as int)),
                        seq![trace_header_str()] + trace_rows_spec(
                            pre.window,
                            pre.trace_points as int,
                            l@,
                        ),
                    )
                },
                _ => false,
            },
            Phase::WriteTraceFile => {
                &&& ev is Ack
                &&& if pre.idx + 1 < pre.plan.spec_num_points() {
                    &&& post == (Controller { phase: Phase::SetCurrent, idx: post.idx, ..pre })
                    &&& post.idx == pre.idx + 1
                    &&& sends(
                        r,
                        Device::Source,
                        cmd_set_current(pre.plan.spec_current(pre.idx + 1)),
                    )
                } else {
                    &&& post == (Controller { phase: Phase::LaserOffLast, ..pre })
                    &&& sends(r, Device::Source, cmd_laser_off())
                }
            },
            Phase::LaserOffLast => {
                &&& ev is Ack
                &&& post == (Controller { phase: Phase::SweepOff, ..pre })
                &&& sends(r, Device::Analyzer, cmd_sweep_off())
            },
            Phase::SweepOff => {
                &&& ev is Ack
                &&& post == (Controller { phase: Phase::SourceErrors, ..pre })
                &&& queries(r, Device::Source, cmd_source_errors())
            },
            Phase::SourceErrors => match ev {
                Event::Line(l) => {
                    &&& post == (Controller {
                        phase: Phase::AnalyzerErrors,
                        source_error_report: post.source_error_report,
                        ..pre
                    })
                    &&& (match post.source_error_report {
                        Some(t) => t@ == trimmed(l@),
                        None => false,
                    })
                    &&& queries(r, Device::Analyzer, cmd_osa_errors())
                },
                _ => false,
            },
            Phase::AnalyzerErrors => match ev {
                Event::Line(l) => {
                    &&& post == (Controller {
                        phase: Phase::Done,
                        analyzer_error_report: post.analyzer_error_report,
                        ..pre
                    })
                    &&& (match post.analyzer_error_report {
                        Some(t) => t@ == trimmed(l@),
                        None => false,
                    })
                    &&& r is Finished
                },
                _ => false,
            },
            Phase::Done | Phase::Aborted => false,
        }
    }
}

pub proof fn lemma_num_points_bound(p: SweepPlan)
    requires
        p.wf(),
    ensures
        1 <= p.spec_num_points() <= 2000000001,
{
    vstd::arithmetic::div_mod::lemma_div_pos_is_pos(
        p.stop_cma - p.start_cma,
        p.step_cma as int,
    );
    vstd::arithmetic::div_mod::lemma_div_nonincreasing(
        p.stop_cma - p.start_cma,
        p.step_cma as int,
    );
}

fn window_cmd(win: &SpectrumWindow) -> (r: String)
    ensures
        r@ == cmd_osa_window(*win),
{
    let mut out = String::from_str("CENTERWL ");
    let c = fmt_fixed(win.center_e4, 4);
    out.append(c.as_str());
    out.append("NM;SPANWL ");
    let sp = fmt_fixed(win.span_e4, 4);
    out.append(sp.as_str());
    out.append("NM;\n");
    proof {
        assert(out@ =~= cmd_osa_window(*win));
    }
    out
}

fn set_current_cmd(c_cma: i64) -> (r: String)
    requires
        -1000000000 <= c_cma <= 1000000000,
    ensures
        r@ == cmd_set_current(c_cma as int),
{
    let mut out = String::from_str("SOURce:CURRent:LEVel:IMMediate:AMPLitude ");
    let amps = fmt_fixed(10 * c_cma, 6);
    out.append(amps.as_str());
    out.append("\n");
    proof {
        assert(out@ =~= cmd_set_current(c_cma as int));
    }
    out
}

/// Whether a completion reply confirms the sweep: its trimmed text is the
/// literal success value.
fn confirms_sweep(l: &str) -> (r: bool)
    ensures
        r == (trimmed(l@) == "1"@),
{
    let t = trim(l);
    proof {
        reveal_strlit("1");
    }
    if t.unicode_len() == 1 && t.get_char(0) == '1' {
        proof {
            assert(t@ =~= "1"@);
        }
        true
    } else {
        false
    }
}

impl Controller {
    /// Begin a run: the controller and its first action, the summary
    /// header line.
    pub fn start(plan: SweepPlan, window: SpectrumWindow) -> (r: (Controller, Action))
        requires
            plan.wf(),
            window.wf(),
        ensures
            r.0.inv(),
            r.0.plan == plan,
            r.0.window == window,
            r.0.phase == Phase::WriteHeader,
            r.0.idx == 0,
            r.0.rows_written == 0,
            r.0.warnings == 0,
            r.0.trace_points == crate::plan::DEFAULT_TRACE_POINTS,
            r.0.peak_wl_e4 == PEAK_WL_FALLBACK_E4,
            r.0.peak_pow_e2 == PEAK_POWER_FALLBACK_E2,
            r.0.source_error_report is None,
            r.0.analyzer_error_report is None,
            (r.1 matches Action::WriteSummary { line } && line@ == summary_header_str()),
    {
        proof {
            lemma_num_points_bound(plan);
        }
        let c = Controller {
            plan,
            window,
            phase: Phase::WriteHeader,
            idx: 0,
            trace_points: crate::plan::DEFAULT_TRACE_POINTS,
            peak_wl_e4: PEAK_WL_FALLBACK_E4,
            peak_pow_e2: PEAK_POWER_FALLBACK_E2,
            rows_written: 0,
            warnings: 0,
            source_error_report: None,
            analyzer_error_report: None,
        };
        let header = summary_header();
        (c, Action::WriteSummary { line: header })
    }

    /// Take the event answering the outstanding action; move one step and
    /// hand out the next action, or a terminal outcome. A fault aborts at
    /// once and adds no row; any reply line continues the run.
    pub fn next(&mut self, ev: Event) -> (r: Outcome)
        requires
            old(self).inv(),
            !old(self).spec_terminal(),
            event_fits(old(self).phase, ev),
        ensures
            final(self).inv(),
            next_rel(*old(self), ev, *final(self), r),
            ev is Fault ==> r is Failed && final(self).phase == Phase::Aborted
                && final(self).rows_written == old(self).rows_written,
            !(ev is Fault) ==> !(r is Failed) && final(self).phase != Phase::Aborted,
            r is Finished <==> final(self).phase == Phase::Done,
    {
        proof {
            lemma_num_points_bound(self.plan);
        }
        match ev {
            Event::Fault => {
                self.phase = Phase::Aborted;
                Outcome::Failed
            },
            Event::Ack => {
                match self.phase {
                    Phase::WriteHeader => {
                        self.phase = Phase::ConfigSourceMode;
                        Outcome::Continue(
                            Action::Send {
                                dev: Device::Source,
                                cmd: String::from_str("SOURce:FUNCtion:MODE CURRent\n"),
                            },
                        )
                    },
                    Phase::ConfigSourceMode => {
                        self.phase = Phase::ConfigSourceLimit;
                        Outcome::Continue(
                            Action::Send {
                                dev: Device::Source,
                                cmd: String::from_str("SOURce:CURRent:LIMit:AMPLitude 100MA\n"),
                            },
                        )
                    },
                    Phase::ConfigSourceLimit => {
                        self.phase = Phase::ConfigOsaSingle;
                        Outcome::Continue(
                            Action::Send {
                                dev: Device::Analyzer,
                                cmd: String::from_str("SNGLS;\n"),
                            },
                        )
                    },
                    Phase::ConfigOsaSingle => {
                        self.phase = Phase::ConfigOsaWindow;
                        let cmd = window_cmd(&self.window);
                        Outcome::Continue(Action::Send { dev: Device::Analyzer, cmd })
                    },
                    Phase::ConfigOsaWindow => {
                        self.phase = Phase::QueryTraceCount;
                        Outcome::Continue(
                            Action::Query {
                                dev: Device::Analyzer,
                                cmd: String::from_str("MDS?;\n"),
                            },
                        )
                    },
                    Phase::LaserOffFirst => {
                        self.phase = Phase::TecOn;
                        Outcome::Continue(
                            Action::Send {
                                dev: Device::Source,
                                cmd: String::from_str("OUTPut2:STATe 1\n"),
                            },
                        )
                    },
                    Phase::TecOn => {
                        self.phase = Phase::TecSettle;
                        Outcome::Continue(Action::SleepMs { ms: STABILIZE_MS })
                    },
                    Phase::TecSettle => {
                        self.phase = Phase::LaserOn;
                        Outcome::Continue(
                            Action::Send {
                                dev: Device::Source,
                                cmd: String::from_str("OUTPut:STATe 1\n"),
                            },
                        )
                    },
                    Phase::LaserOn => {
                        self.phase = Phase::LaserSettle;
                        Outcome::Continue(Action::SleepMs { ms: STABILIZE_MS })
                    },
                    Phase::LaserSettle => {
                        self.phase = Phase::SetCurrent;
                        let c = self.plan.current_at(self.idx);
                        let cmd = set_current_cmd(c);
                        Outcome::Continue(Action::Send { dev: Device::Source, cmd })
                    },
                    Phase::SetCurrent => {
                        self.phase = Phase::Dwell;
                        Outcome::Continue(Action::SleepMs { ms: self.plan.dwell_ms })
                    },
                    Phase::Dwell => {
                        self.phase = Phase::TakeSweep;
                        Outcome::Continue(
                            Action::Query {
                                dev: Device::Analyzer,
                                cmd: String::from_str("TS;DONE?;\n"),
                            },
                        )
                    },
                    Phase::PeakSearch => {
                        self.phase = Phase::QueryPeakWl;
                        Outcome::Continue(
                            Action::Query {
                                dev: Device::Analyzer,
                                cmd: String::from_str("MKWL?;\n"),
                            },
                        )
                    },
                    Phase::WriteSummaryRow => {
                        self.phase = Phase::QueryTrace;
                        Outcome::Continue(
                            Action::Query {
                                dev: Device::Analyzer,
                                cmd: String::from_str("TRA?;\n"),
                            },
                        )
                    },
                    Phase::WriteTraceFile => {
                        let n = self.plan.num_points();
                        if self.idx + 1 < n {
                            self.idx = self.idx + 1;
                            self.phase = Phase::SetCurrent;
                            let c = self.plan.current_at(self.idx);
                            let cmd = set_current_cmd(c);
                            Outcome::Continue(Action::Send { dev: Device::Source, cmd })
                        } else {
                            self.phase = Phase::LaserOffLast;
                            Outcome::Continue(
                                Action::Send {
                                    dev: Device::Source,
                                    cmd: String::from_str("OUTPut:STATe 0\n"),
                                },
                            )
                        }
                    },
                    Phase::LaserOffLast => {
                        self.phase = Phase::SweepOff;
                        Outcome::Continue(
                            Action::Send {
                                dev: Device::Analyzer,
                                cmd: String::from_str("SWEEP OFF;\n"),
                            },
                        )
                    },
                    Phase::SweepOff => {
                        self.phase = Phase::SourceErrors;
                        Outcome::Continue(
                            Action::Query {
                                dev: Device::Source,
                                cmd: String::from_str("SYST:ERR?\n"),
                            },
                        )
                    },
                    _ => vstd::pervasive::unreached(),
                }
            },
            Event::Line(l) => {
                match self.phase {
                    Phase::QueryTraceCount => {
                        self.trace_points = trace_points_of_response(l.as_str());
                        self.phase = Phase::LaserOffFirst;
                        Outcome::Continue(
                            Action::Send {
                                dev: Device::Source,
                                cmd: String::from_str("OUTPut:STATe 0\n"),
                            },
                        )
                    },
                    Phase::TakeSweep => {
                        if !confirms_sweep(l.as_str()) {
                            self.warnings = self.warnings + 1;
                        }
                        self.phase = Phase::PeakSearch;
                        Outcome::Continue(
                            Action::Send {
                                dev: Device::Analyzer,
                                cmd: String::from_str("MKPK HI;\n"),
                            },
                        )
                    },
                    Phase::QueryPeakWl => {
                        self.peak_wl_e4 = parse_scaled_or(
                            l.as_str(),
                            METERS_TO_NM_E4,
                            PEAK_WL_FALLBACK_E4,
                        );
                        self.phase = Phase::QueryPeakPower;
                        Outcome::Continue(
                            Action::Query {
                                dev: Device::Analyzer,
                                cmd: String::from_str("MKA?;\n"),
                            },
                        )
                    },
                    Phase::QueryPeakPower => {
                        self.peak_pow_e2 = parse_scaled_or(l.as_str(), 2, PEAK_POWER_FALLBACK_E2);
                        let c = self.plan.current_at(self.idx);
                        let line = summary_row(c, self.peak_wl_e4, self.peak_pow_e2);
                        self.rows_written = self.rows_written + 1;
                        self.phase = Phase::WriteSummaryRow;
                        Outcome::Continue(Action::WriteSummary { line })
                    },
                    Phase::QueryTrace => {
                        let c = self.plan.current_at(self.idx);
                        let name = trace_file_name(c);
                        let mut lines: Vec<String> = Vec::new();
                        lines.push(trace_header());
                        let mut rows = trace_rows(&self.window, self.trace_points, l.as_str());
                        let ghost with_header = lines.deep_view();
                        let mut ri: usize = 0;
                        let rn = rows.len();
                        proof {
                            assert(with_header =~= seq![trace_header_str()]);
                        }
                        while ri < rn
                            invariant
                                0 <= ri <= rn == rows.deep_view().len(),
                                lines.deep_view() =~= with_header + rows.deep_view().subrange(
                                    0,
                                    ri as int,
                                ),
                            decreases rn - ri,
                        {
                            let ghost before = lines.deep_view();
                            let row = rows[ri].clone();
                            proof {
                                assert(row@ == rows.deep_view()[ri as int]);
                            }
                            lines.push(row);
                            proof {
                                assert(lines.deep_view() =~= before.push(
                                    rows.deep_view()[ri as int],
                                ));
                                assert(lines.deep_view() =~= with_header
                                    + rows.deep_view().subrange(0, ri as int + 1));
                            }
                            ri = ri + 1;
                        }
                        proof {
                            assert(rows.deep_view().subrange(0, rn as int) =~= rows.deep_view());
                            assert(lines.deep_view() =~= seq![trace_header_str()]
                                + trace_rows_spec(
                                self.window,
                                self.trace_points as int,
                                l@,
                            ));
                        }
                        self.phase = Phase::WriteTraceFile;
                        Outcome::Continue(Action::WriteTrace { name, lines })
                    },
                    Phase::SourceErrors => {
                        let t = String::from_str(trim(l.as_str()));
                        self.source_error_report = Some(t);
                        self.phase = Phase::AnalyzerErrors;
                        Outcome::Continue(
                            Action::Query {
                                dev: Device::Analyzer,
                                cmd: String::from_str("XERR?;\n"),
                            },
                        )
                    },
                    Phase::AnalyzerErrors => {
                        let t = String::from_str(trim(l.as_str()));
                        self.analyzer_error_report = Some(t);
                        self.phase = Phase::Done;
                        Outcome::Finished
                    },
                    _ => vstd::pervasive::unreached(),
                }
            },
        }
    }
}

/// A transport fault on any command aborts the run at once: the step
/// fails, the controller is terminal, and neither a summary row nor a
/// warning is added — nothing follows the last successful point.
pub proof fn lemma_fault_aborts(pre: Controller, ev: Event, post: Controller, r: Outcome)
    requires
        next_rel(pre, ev, post, r),
        ev is Fault,
    ensures
        r is Failed,
        post.phase == Phase::Aborted,
        post.rows_written == pre.rows_written,
        post.warnings == pre.warnings,
{
}

/// A reply line never aborts the run, whatever its text: every numeric
/// site has a fallback value, so a step fails only on a transport fault.
pub proof fn lemma_reply_never_fails(pre: Controller, ev: Event, post: Controller, r: Outcome)
    requires
        next_rel(pre, ev, post, r),
        !(ev is Fault),
    ensures
        !(r is Failed),
        post.phase != Phase::Aborted,
{
}

/// An unconfirmed sweep completion is a warning, never a halt: on any
/// completion reply the point proceeds to the peak search, and the
/// warning count grows exactly when the trimmed reply is not the literal
/// success value.
pub proof fn lemma_unconfirmed_sweep_continues(
    pre: Controller,
    ev: Event,
    post: Controller,
    r: Outcome,
)
    requires
        next_rel(pre, ev, post, r),
        pre.phase == Phase::TakeSweep,
        !(ev is Fault),
    ensures
        post.phase == Phase::PeakSearch,
        sends(r, Device::Analyzer, cmd_peak_search()),
        post.rows_written == pre.rows_written,
        ev matches Event::Line(l) ==> post.warnings as int == pre.warnings as int + (
        if trimmed(l@) == "1"@ {
            0int
        } else {
            1int
        }),
{
}

/// A completed run has handed out exactly one summary data row per
/// set-point: with the header line, the summary holds one line more than
/// the plan has points.
pub proof fn lemma_complete_run_rows(c: Controller)
    requires
        c.inv(),
        c.phase == Phase::Done,
    ensures
        c.rows_written == c.plan.spec_num_points(),
{
}

} // verus!
