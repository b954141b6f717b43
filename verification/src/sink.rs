//! The text the result sink persists: the summary CSV header and rows,
//! the per-point trace file name and rows. Every line carries its final
//! newline, so the caller appends each string verbatim.

use vstd::prelude::*;

use crate::scaled::fixed_str;
use crate::scaled::fmt_fixed;
use crate::scaled::parse_scaled_or_spec;
use crate::scaled::parse_scaled_or;
use crate::text::split_commas;
use crate::text::trimmed;
use crate::text::split;
use crate::text::trim;
use crate::plan::SpectrumWindow;
use crate::plan::spec_wavelength_at;
use crate::plan::wavelength_at;

verus! {

/// The power standing in for a trace sample that does not parse, in
/// ten-thousandths of a dBm: -100 dBm, no detectable signal.
pub const TRACE_POWER_FALLBACK_E4: i64 = -1000000;

pub open spec fn summary_header_str() -> Seq<char> {
    "Current (mA),Peak Wavelength (nm),Peak Power (dBm)\n"@
}

/// The first line of the summary file.
pub fn summary_header() -> (r: String)
    ensures
        r@ == summary_header_str(),
{
    String::from_str("Current (mA),Peak Wavelength (nm),Peak Power (dBm)\n")
}

/// One summary row: the current with two fraction digits, the peak
/// wavelength with four, the peak power with two, comma separated.
pub open spec fn summary_row_str(c_cma: int, wl_e4: int, p_e2: int) -> Seq<char> {
    fixed_str(c_cma, 2) + ","@ + fixed_str(wl_e4, 4) + ","@ + fixed_str(p_e2, 2) + "\n"@
}

pub fn summary_row(c_cma: i64, wl_e4: i64, p_e2: i64) -> (r: String)
    ensures
        r@ == summary_row_str(c_cma as int, wl_e4 as int, p_e2 as int),
{
    let mut out = fmt_fixed(c_cma, 2);
    out.append(",");
    let wl = fmt_fixed(wl_e4, 4);
    out.append(wl.as_str());
    out.append(",");
    let p = fmt_fixed(p_e2, 2);
    out.append(p.as_str());
    out.append("\n");
    proof {
        assert(out@ =~= summary_row_str(c_cma as int, wl_e4 as int, p_e2 as int));
    }
    out
}

pub open spec fn trace_header_str() -> Seq<char> {
    "Wavelength (nm),Power (dBm)\n"@
}

/// The first line of each trace file.
pub fn trace_header() -> (r: String)
    ensures
        r@ == trace_header_str(),
{
    String::from_str("Wavelength (nm),Power (dBm)\n")
}

/// The name of the trace file for one set-point, from its current with
/// two fraction digits.
pub open spec fn trace_file_name_str(c_cma: int) -> Seq<char> {
    "trace_"@ + fixed_str(c_cma, 2) + "mA.csv"@
}

pub fn trace_file_name(c_cma: i64) -> (r: String)
    ensures
        r@ == trace_file_name_str(c_cma as int),
{
    let mut out = String::from_str("trace_");
    let c = fmt_fixed(c_cma, 2);
    out.append(c.as_str());
    out.append("mA.csv");
    proof {
        assert(out@ =~= trace_file_name_str(c_cma as int));
    }
    out
}

/// One trace row: the interpolated wavelength of sample `j` and the
/// sample's text parsed as dBm, both with four fraction digits; the
/// fallback power stands in where the text does not parse.
pub open spec fn trace_row_str(win: SpectrumWindow, n: int, field: Seq<char>, j: int) -> Seq<
    char,
> {
    fixed_str(spec_wavelength_at(win, n, j), 4) + ","@ + fixed_str(
        parse_scaled_or_spec(field, 4, TRACE_POWER_FALLBACK_E4 as int),
        4,
    ) + "\n"@
}

/// The data rows of one trace file for the analyzer's trace reply: one
/// row per comma-separated sample of the trimmed reply, in order, but
/// never more than the trace's sample count.
pub open spec fn trace_rows_spec(win: SpectrumWindow, n: int, line: Seq<char>) -> Seq<Seq<char>> {
    let fields = split_commas(trimmed(line));
    let count = if fields.len() <= n {
        fields.len() as int
    } else {
        n
    };
    Seq::new(count as nat, |j: int| trace_row_str(win, n, fields[j], j))
}

pub fn trace_rows(win: &SpectrumWindow, n: u64, line: &str) -> (r: Vec<String>)
    requires
        win.wf(),
        n >= 1,
    ensures
        r.deep_view() == trace_rows_spec(*win, n as int, line@),
{
    let t = trim(line);
    let fields = split(t);
    let count = if fields.len() as u64 <= n {
        fields.len()
    } else {
        n as usize
    };
    let mut rows: Vec<String> = Vec::new();
    let mut j: usize = 0;
    while j < count
        invariant
            0 <= j <= count,
            count <= fields.len(),
            count as int == (if fields.deep_view().len() <= n as int {
                fields.deep_view().len() as int
            } else {
                n as int
            }),
            count <= n,
            win.wf(),
            n >= 1,
            fields.deep_view() == split_commas(trimmed(line@)),
            rows.deep_view().len() == j as int,
            forall|k: int|
                0 <= k < j ==> rows.deep_view()[k] == trace_row_str(
                    *win,
                    n as int,
                    fields.deep_view()[k],
                    k,
                ),
        decreases count - j,
    {
        let wl = wavelength_at(win, n, j as u64);
        let p = parse_scaled_or(fields[j].as_str(), 4, TRACE_POWER_FALLBACK_E4);
        let mut row = fmt_fixed(wl, 4);
        row.append(",");
        let ps = fmt_fixed(p, 4);
        row.append(ps.as_str());
        row.append("\n");
        proof {
            assert(row@ =~= trace_row_str(*win, n as int, fields.deep_view()[j as int], j as int));
        }
        let ghost done = rows.deep_view();
        rows.push(row);
        proof {
            assert(rows.deep_view() =~= done.push(row@));
        }
        j = j + 1;
    }
    proof {
        assert(rows.deep_view() =~= trace_rows_spec(*win, n as int, line@));
    }
    rows
}

} // verus!
