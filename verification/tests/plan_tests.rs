use laser_sweep::plan::{SpectrumWindow, SweepPlan, trace_points_of_response, wavelength_at};
use laser_sweep::sink::{summary_row, trace_file_name, trace_rows};

#[test]
fn point_count_is_floor_quotient_plus_one() {
    // start 0 mA, stop 10 mA, step 2 mA: six points 0,2,4,6,8,10.
    let p = SweepPlan::new(0, 1000, 200, 50).unwrap();
    assert_eq!(p.num_points(), 6);
    let expect = [0i64, 200, 400, 600, 800, 1000];
    for (i, want) in expect.iter().enumerate() {
        assert_eq!(p.current_at(i), *want);
    }
    // A step that does not divide the range still lands inside it.
    let q = SweepPlan::new(0, 1000, 300, 50).unwrap();
    assert_eq!(q.num_points(), 4);
    assert_eq!(q.current_at(3), 900);
    // A degenerate range has a single point.
    let r = SweepPlan::new(500, 500, 100, 50).unwrap();
    assert_eq!(r.num_points(), 1);
    assert_eq!(r.current_at(0), 500);
}

#[test]
fn invalid_plans_are_rejected() {
    assert!(SweepPlan::new(0, 1000, 0, 50).is_none());
    assert!(SweepPlan::new(0, 1000, -5, 50).is_none());
    assert!(SweepPlan::new(1000, 0, 100, 50).is_none());
    assert!(SweepPlan::new(0, 2000000000, 100, 50).is_none());
}

#[test]
fn window_edges_are_center_plus_minus_half_span() {
    let w = SpectrumWindow::new(9747000, 20000).unwrap();
    assert_eq!(w.start_wl_e4(), 9737000);
    assert_eq!(w.stop_wl_e4(), 9757000);
    assert!(SpectrumWindow::new(-1, 5).is_none());
    assert!(SpectrumWindow::new(5, 10).is_none());
}

#[test]
fn trace_wavelengths_interpolate_linearly() {
    // Three samples across 973.7 .. 975.7 nm land on 973.7, 974.7, 975.7.
    let w = SpectrumWindow::new(9747000, 20000).unwrap();
    assert_eq!(wavelength_at(&w, 3, 0), 9737000);
    assert_eq!(wavelength_at(&w, 3, 1), 9747000);
    assert_eq!(wavelength_at(&w, 3, 2), 9757000);
    // A single sample sits on the low edge.
    assert_eq!(wavelength_at(&w, 1, 0), 9737000);
}

#[test]
fn trace_point_count_falls_back_on_bad_replies() {
    assert_eq!(trace_points_of_response("3\n"), 3);
    assert_eq!(trace_points_of_response(" 800 "), 800);
    assert_eq!(trace_points_of_response("0"), 800);
    assert_eq!(trace_points_of_response("junk"), 800);
    assert_eq!(trace_points_of_response(""), 800);
}

#[test]
fn summary_rows_and_trace_names_render_exactly() {
    assert_eq!(
        summary_row(0, 9747000, -1234).as_str(),
        "0.00,974.7000,-12.34\n"
    );
    assert_eq!(
        summary_row(1000, 0, -10000).as_str(),
        "10.00,0.0000,-100.00\n"
    );
    assert_eq!(trace_file_name(1000).as_str(), "trace_10.00mA.csv");
    assert_eq!(trace_file_name(50).as_str(), "trace_0.50mA.csv");
}

#[test]
fn trace_rows_pair_wavelengths_with_parsed_powers() {
    let w = SpectrumWindow::new(9747000, 20000).unwrap();
    let rows = trace_rows(&w, 3, "-50.0,-40.5,-30.25\n");
    assert_eq!(rows.len(), 3);
    assert_eq!(rows[0].as_str(), "973.7000,-50.0000\n");
    assert_eq!(rows[1].as_str(), "974.7000,-40.5000\n");
    assert_eq!(rows[2].as_str(), "975.7000,-30.2500\n");
    // More samples than the trace has points: the extras are dropped.
    let clipped = trace_rows(&w, 2, "-1,-2,-3");
    assert_eq!(clipped.len(), 2);
    // Fewer samples than points: only the received samples are written.
    let short = trace_rows(&w, 800, "-1,-2");
    assert_eq!(short.len(), 2);
    // An unparsable sample falls back to -100 dBm.
    let bad = trace_rows(&w, 3, "oops,-40.5,-30.25");
    assert_eq!(bad[0].as_str(), "973.7000,-100.0000\n");
}
