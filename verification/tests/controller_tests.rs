use laser_sweep::controller::{Action, Controller, Device, Event, Outcome, Phase};
use laser_sweep::plan::{SpectrumWindow, SweepPlan};

/// Scripted replies of the fake transport, one per query command.
struct Replies {
    mds: String,
    done: String,
    peak_wl: String,
    peak_power: String,
    trace: String,
}

impl Replies {
    fn nominal() -> Replies {
        Replies {
            mds: "3\n".to_string(),
            done: "1\n".to_string(),
            peak_wl: "9.747E-7\n".to_string(),
            peak_power: "-12.34\n".to_string(),
            trace: "-50.0,-40.5,-30.25\n".to_string(),
        }
    }
}

/// Everything the fake transport observed while driving one run.
#[derive(Default)]
struct RunLog {
    summary: Vec<String>,
    traces: Vec<(String, Vec<String>)>,
    source_cmds: Vec<String>,
    analyzer_cmds: Vec<String>,
    sleeps: Vec<u64>,
}

fn reply_for(replies: &Replies, cmd: &str) -> String {
    match cmd {
        "MDS?;\n" => replies.mds.clone(),
        "TS;DONE?;\n" => replies.done.clone(),
        "MKWL?;\n" => replies.peak_wl.clone(),
        "MKA?;\n" => replies.peak_power.clone(),
        "TRA?;\n" => replies.trace.clone(),
        "SYST:ERR?\n" => "+0,\"No error\"\n".to_string(),
        "XERR?;\n" => "0\n".to_string(),
        other => panic!("unexpected query: {other:?}"),
    }
}

fn perform(log: &mut RunLog, replies: &Replies, action: &Action) -> Event {
    match action {
        Action::Send { dev, cmd } => {
            match dev {
                Device::Source => log.source_cmds.push(cmd.clone()),
                Device::Analyzer => log.analyzer_cmds.push(cmd.clone()),
            }
            Event::Ack
        }
        Action::Query { dev, cmd } => {
            match dev {
                Device::Source => log.source_cmds.push(cmd.clone()),
                Device::Analyzer => log.analyzer_cmds.push(cmd.clone()),
            }
            Event::Line(reply_for(replies, cmd.as_str()))
        }
        Action::SleepMs { ms } => {
            log.sleeps.push(*ms);
            Event::Ack
        }
        Action::WriteSummary { line } => {
            log.summary.push(line.clone());
            Event::Ack
        }
        Action::WriteTrace { name, lines } => {
            log.traces.push((name.clone(), lines.clone()));
            Event::Ack
        }
    }
}

/// Drive a whole run against the scripted transport. `fault_at` makes the
/// transport fail on the n-th action instead of performing it.
fn run(plan: SweepPlan, replies: &Replies, fault_at: Option<usize>) -> (Controller, RunLog, bool) {
    let window = SpectrumWindow::new(9747000, 20000).unwrap();
    let (mut c, first) = Controller::start(plan, window);
    let mut log = RunLog::default();
    let mut action = first;
    let mut step: usize = 0;
    loop {
        step += 1;
        let ev = if fault_at == Some(step) {
            Event::Fault
        } else {
            perform(&mut log, replies, &action)
        };
        match c.next(ev) {
            Outcome::Continue(a) => action = a,
            Outcome::Finished => return (c, log, true),
            Outcome::Failed => return (c, log, false),
        }
    }
}

fn six_point_plan() -> SweepPlan {
    // 0 mA to 10 mA in 2 mA steps, 50 ms dwell.
    SweepPlan::new(0, 1000, 200, 50).unwrap()
}

#[test]
fn complete_run_writes_header_plus_one_row_per_point() {
    let (c, log, finished) = run(six_point_plan(), &Replies::nominal(), None);
    assert!(finished);
    assert!(matches!(c.phase, Phase::Done));
    assert_eq!(c.rows_written, 6);
    // Exactly numPoints + 1 summary lines: the header and one per point.
    assert_eq!(log.summary.len(), 7);
    assert_eq!(
        log.summary[0].as_str(),
        "Current (mA),Peak Wavelength (nm),Peak Power (dBm)\n"
    );
    assert_eq!(log.summary[1].as_str(), "0.00,974.7000,-12.34\n");
    assert_eq!(log.summary[6].as_str(), "10.00,974.7000,-12.34\n");
    assert_eq!(c.warnings, 0);
}

#[test]
fn trace_files_carry_header_and_interpolated_rows() {
    let (_, log, finished) = run(six_point_plan(), &Replies::nominal(), None);
    assert!(finished);
    assert_eq!(log.traces.len(), 6);
    let (name, lines) = &log.traces[0];
    assert_eq!(name.as_str(), "trace_0.00mA.csv");
    assert_eq!(lines.len(), 4);
    assert_eq!(lines[0].as_str(), "Wavelength (nm),Power (dBm)\n");
    assert_eq!(lines[1].as_str(), "973.7000,-50.0000\n");
    assert_eq!(lines[2].as_str(), "974.7000,-40.5000\n");
    assert_eq!(lines[3].as_str(), "975.7000,-30.2500\n");
    let (last_name, _) = &log.traces[5];
    assert_eq!(last_name.as_str(), "trace_10.00mA.csv");
}

#[test]
fn setup_orders_safety_commands_tec_before_laser() {
    let (_, log, _) = run(six_point_plan(), &Replies::nominal(), None);
    // The source is put in constant-current mode with the hard limit
    // before anything else, and before any current is applied.
    assert_eq!(log.source_cmds[0].as_str(), "SOURce:FUNCtion:MODE CURRent\n");
    assert_eq!(
        log.source_cmds[1].as_str(),
        "SOURce:CURRent:LIMit:AMPLitude 100MA\n"
    );
    // Laser off, then TEC on, then (after settling) laser on.
    assert_eq!(log.source_cmds[2].as_str(), "OUTPut:STATe 0\n");
    assert_eq!(log.source_cmds[3].as_str(), "OUTPut2:STATe 1\n");
    assert_eq!(log.source_cmds[4].as_str(), "OUTPut:STATe 1\n");
    // The two stabilization delays come before the first dwell.
    assert_eq!(log.sleeps[0], 100);
    assert_eq!(log.sleeps[1], 100);
    assert_eq!(log.sleeps[2], 50);
    // The first applied current is the plan's start.
    assert_eq!(
        log.source_cmds[5].as_str(),
        "SOURce:CURRent:LEVel:IMMediate:AMPLitude 0.000000\n"
    );
    assert_eq!(
        log.source_cmds[6].as_str(),
        "SOURce:CURRent:LEVel:IMMediate:AMPLitude 0.002000\n"
    );
    // Teardown: laser off again, then the two error-queue queries.
    let last = log.source_cmds.len() - 1;
    assert_eq!(log.source_cmds[last].as_str(), "SYST:ERR?\n");
    assert_eq!(log.source_cmds[last - 1].as_str(), "OUTPut:STATe 0\n");
    let alast = log.analyzer_cmds.len() - 1;
    assert_eq!(log.analyzer_cmds[alast].as_str(), "XERR?;\n");
    assert_eq!(log.analyzer_cmds[alast - 1].as_str(), "SWEEP OFF;\n");
}

#[test]
fn unparsable_peak_power_uses_fallback_and_run_completes() {
    let mut replies = Replies::nominal();
    replies.peak_power = "N/A\n".to_string();
    let (c, log, finished) = run(six_point_plan(), &replies, None);
    assert!(finished);
    assert!(matches!(c.phase, Phase::Done));
    assert_eq!(log.summary.len(), 7);
    assert_eq!(log.summary[1].as_str(), "0.00,974.7000,-100.00\n");
}

#[test]
fn unparsable_peak_wavelength_uses_zero_and_run_completes() {
    let mut replies = Replies::nominal();
    replies.peak_wl = "???\n".to_string();
    let (_, log, finished) = run(six_point_plan(), &replies, None);
    assert!(finished);
    assert_eq!(log.summary[1].as_str(), "0.00,0.0000,-12.34\n");
}

#[test]
fn unconfirmed_sweep_warns_but_run_continues() {
    let mut replies = Replies::nominal();
    replies.done = "0\n".to_string();
    let (c, log, finished) = run(six_point_plan(), &replies, None);
    assert!(finished);
    assert!(matches!(c.phase, Phase::Done));
    assert_eq!(c.warnings, 6);
    assert_eq!(log.summary.len(), 7);
}

#[test]
fn unusable_trace_count_reply_falls_back_to_default() {
    let mut replies = Replies::nominal();
    replies.mds = "garbage\n".to_string();
    let (c, log, finished) = run(six_point_plan(), &replies, None);
    assert!(finished);
    assert_eq!(c.trace_points, 800);
    // Only three samples came back, so each trace holds three data rows.
    let (_, lines) = &log.traces[0];
    assert_eq!(lines.len(), 4);
}

#[test]
fn transport_fault_aborts_with_no_further_rows() {
    // Fail mid-run, well after setup: the run stops at once and the
    // summary holds the header plus only the rows already written.
    let (c, log, finished) = run(six_point_plan(), &Replies::nominal(), Some(25));
    assert!(!finished);
    assert!(matches!(c.phase, Phase::Aborted));
    assert!(c.rows_written < 6);
    assert_eq!(log.summary.len(), c.rows_written + 1);
}

#[test]
fn transport_fault_on_first_command_aborts_immediately() {
    let (c, log, finished) = run(six_point_plan(), &Replies::nominal(), Some(1));
    assert!(!finished);
    assert!(matches!(c.phase, Phase::Aborted));
    assert_eq!(c.rows_written, 0);
    assert_eq!(log.summary.len(), 0);
    assert_eq!(log.traces.len(), 0);
}

#[test]
fn error_queue_replies_are_recorded_trimmed() {
    let (c, _, finished) = run(six_point_plan(), &Replies::nominal(), None);
    assert!(finished);
    assert_eq!(c.source_error_report.unwrap().as_str(), "+0,\"No error\"");
    assert_eq!(c.analyzer_error_report.unwrap().as_str(), "0");
}
