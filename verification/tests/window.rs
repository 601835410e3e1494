use nanalogue_node::error::ValidationError;
use nanalogue_node::seq_table::{plan_seq_table, seq_table_options};
use nanalogue_node::source::AlignmentSource;
use nanalogue_node::threshold::{Band, ThresholdPolicy};
use nanalogue_node::window::{check_window, parse_window_op, plan_window, WindowOp, WindowShape};
use nanalogue_node::{PeekOptions, ReadOptions, SimulateOptions, WindowOptions};

fn window_options(win: i32, step: i32, op: Option<&str>) -> WindowOptions {
    let mut options = WindowOptions::default();
    options.bam_path = "w.bam".to_string();
    options.win = win;
    options.step = step;
    options.win_op = op.map(str::to_string);
    options
}

#[test]
fn window_of_zero_is_rejected() {
    assert_eq!(check_window(0, 5, &None), Err(ValidationError::WindowSizeNotPositive));
    assert_eq!(check_window(-3, 5, &None), Err(ValidationError::WindowSizeNotPositive));
    assert_eq!(
        plan_window(&window_options(0, 1, None)).unwrap_err(),
        ValidationError::WindowSizeNotPositive
    );
}

#[test]
fn step_of_zero_is_rejected() {
    assert_eq!(check_window(5, 0, &None), Err(ValidationError::StepSizeNotPositive));
    assert_eq!(check_window(5, i32::MIN, &None), Err(ValidationError::StepSizeNotPositive));
    assert_eq!(
        plan_window(&window_options(1, 0, None)).unwrap_err(),
        ValidationError::StepSizeNotPositive
    );
}

#[test]
fn window_is_checked_before_step_and_step_before_op() {
    assert_eq!(
        check_window(0, 0, &Some("nope".to_string())),
        Err(ValidationError::WindowSizeNotPositive)
    );
    assert_eq!(
        check_window(1, 0, &Some("nope".to_string())),
        Err(ValidationError::StepSizeNotPositive)
    );
    assert_eq!(
        check_window(1, 1, &Some("nope".to_string())),
        Err(ValidationError::UnknownWindowOp)
    );
}

#[test]
fn positive_sizes_are_accepted() {
    for (win, step) in [(1, 1), (10, 5), (300, 7), (i32::MAX, i32::MAX)] {
        assert_eq!(
            check_window(win, step, &None),
            Ok(WindowShape { win: win as u32, step: step as u32, op: WindowOp::Density })
        );
    }
}

#[test]
fn window_op_names_are_recognised() {
    assert_eq!(parse_window_op(&None), Ok(WindowOp::Density));
    assert_eq!(parse_window_op(&Some("density".to_string())), Ok(WindowOp::Density));
    assert_eq!(parse_window_op(&Some("grad_density".to_string())), Ok(WindowOp::GradDensity));
    for other in ["", "Density", "density ", "grad-density", "gradient", "mean"] {
        assert_eq!(
            parse_window_op(&Some(other.to_string())),
            Err(ValidationError::UnknownWindowOp),
            "op {other:?}"
        );
    }
}

#[test]
fn window_plan_carries_filters_and_shape() {
    let mut options = window_options(300, 150, Some("grad_density"));
    options.threads = Some(8);
    options.min_seq_len = Some(1000);
    options.min_mod_qual = Some(10);
    options.reject_mod_qual_non_inclusive = Some(vec![100, 150]);
    options.tag = Some("T".to_string());
    let plan = plan_window(&options).unwrap();
    assert!(matches!(&plan.alignment.source, AlignmentSource::Path(p) if p == "w.bam"));
    assert_eq!(plan.alignment.threads, Some(8));
    assert_eq!(plan.alignment.min_seq_len, Some(1000));
    assert_eq!(plan.mods.threshold, ThresholdPolicy::AtLeastExcluding(10, Band { lo: 101, hi: 149 }));
    assert_eq!(plan.mods.tag.as_deref(), Some("T"));
    assert_eq!(plan.shape, WindowShape { win: 300, step: 150, op: WindowOp::GradDensity });
}

#[test]
fn filter_violations_come_before_window_violations() {
    let mut options = window_options(0, 0, Some("nope"));
    options.threads = Some(0);
    assert_eq!(plan_window(&options).unwrap_err(), ValidationError::ThreadsZero);
    options.threads = None;
    options.reject_mod_qual_non_inclusive = Some(vec![1]);
    assert_eq!(plan_window(&options).unwrap_err(), ValidationError::RejectRangeMalformed);
    options.reject_mod_qual_non_inclusive = None;
    options.include_zero_len = Some(true);
    assert_eq!(plan_window(&options).unwrap_err(), ValidationError::ZeroLengthReads);
}

#[test]
fn read_options_from_window_options_copies_every_filter_field() {
    let mut w = window_options(5, 2, Some("density"));
    w.treat_as_url = Some(false);
    w.min_seq_len = Some(1);
    w.min_align_len = Some(2);
    w.read_id_set = Some(vec!["x".to_string(), "y".to_string()]);
    w.threads = Some(3);
    w.include_zero_len = Some(false);
    w.read_filter = Some("unmapped".to_string());
    w.sample_fraction = Some(0.75f64.to_bits());
    w.mapq_filter = Some(4);
    w.exclude_mapq_unavail = Some(true);
    w.region = Some("chr1".to_string());
    w.full_region = Some(true);
    w.tag = Some("m".to_string());
    w.mod_strand = Some("bc_comp".to_string());
    w.min_mod_qual = Some(5);
    w.reject_mod_qual_non_inclusive = Some(vec![6, 9]);
    w.trim_read_ends_mod = Some(7);
    w.base_qual_filter_mod = Some(8);
    w.mod_region = Some("chr1:1-2".to_string());
    let r = ReadOptions::from(&w);
    assert_eq!(r.bam_path, "w.bam");
    assert_eq!(r.treat_as_url, Some(false));
    assert_eq!(r.min_seq_len, Some(1));
    assert_eq!(r.min_align_len, Some(2));
    assert_eq!(r.read_id_set, Some(vec!["x".to_string(), "y".to_string()]));
    assert_eq!(r.threads, Some(3));
    assert_eq!(r.include_zero_len, Some(false));
    assert_eq!(r.read_filter.as_deref(), Some("unmapped"));
    assert_eq!(r.sample_fraction, Some(0.75f64.to_bits()));
    assert_eq!(r.mapq_filter, Some(4));
    assert_eq!(r.exclude_mapq_unavail, Some(true));
    assert_eq!(r.region.as_deref(), Some("chr1"));
    assert_eq!(r.full_region, Some(true));
    assert_eq!(r.tag.as_deref(), Some("m"));
    assert_eq!(r.mod_strand.as_deref(), Some("bc_comp"));
    assert_eq!(r.min_mod_qual, Some(5));
    assert_eq!(r.reject_mod_qual_non_inclusive, Some(vec![6, 9]));
    assert_eq!(r.trim_read_ends_mod, Some(7));
    assert_eq!(r.base_qual_filter_mod, Some(8));
    assert_eq!(r.mod_region.as_deref(), Some("chr1:1-2"));
}

#[test]
fn read_options_clone_keeps_every_field() {
    let mut o = ReadOptions::default();
    o.bam_path = "p".to_string();
    o.read_id_set = Some(vec!["x".to_string()]);
    o.reject_mod_qual_non_inclusive = Some(vec![1, 9]);
    o.region = Some("chr9".to_string());
    o.threads = Some(2);
    let c = o.clone();
    assert_eq!(format!("{c:?}"), format!("{o:?}"));
}

#[test]
fn other_option_records_default_to_unset() {
    let p = PeekOptions::default();
    assert_eq!((p.bam_path.as_str(), p.treat_as_url), ("", None));
    let s = SimulateOptions::default();
    assert_eq!((s.json_config.as_str(), s.bam_path.as_str(), s.fasta_path.as_str()), ("", "", ""));
    let w = WindowOptions::default();
    assert_eq!((w.win, w.step, w.win_op), (0, 0, None));
}

#[test]
fn seq_table_needs_a_region() {
    let mut options = ReadOptions::default();
    options.bam_path = "t.bam".to_string();
    assert_eq!(seq_table_options(&options).unwrap_err(), ValidationError::RegionRequired);
    assert_eq!(plan_seq_table(&options).unwrap_err(), ValidationError::RegionRequired);
    options.region = Some(String::new());
    assert_eq!(seq_table_options(&options).unwrap_err(), ValidationError::RegionRequired);
    assert_eq!(plan_seq_table(&options).unwrap_err(), ValidationError::RegionRequired);
}

#[test]
fn seq_table_region_is_checked_before_other_fields() {
    let mut options = ReadOptions::default();
    options.include_zero_len = Some(true);
    options.threads = Some(0);
    assert_eq!(plan_seq_table(&options).unwrap_err(), ValidationError::RegionRequired);
    options.region = Some("chr1:1-5".to_string());
    assert_eq!(plan_seq_table(&options).unwrap_err(), ValidationError::ZeroLengthReads);
    options.include_zero_len = None;
    assert_eq!(plan_seq_table(&options).unwrap_err(), ValidationError::ThreadsZero);
}

#[test]
fn seq_table_forces_full_region_and_mod_region() {
    for (full, mod_region) in [
        (None, None),
        (Some(false), Some("chr7:1-2".to_string())),
        (Some(true), Some(String::new())),
    ] {
        let mut options = ReadOptions::default();
        options.bam_path = "t.bam".to_string();
        options.region = Some("chr1:1000-2000".to_string());
        options.full_region = full;
        options.mod_region = mod_region;
        options.mapq_filter = Some(11);
        let fixed = seq_table_options(&options).unwrap();
        assert_eq!(fixed.full_region, Some(true));
        assert_eq!(fixed.mod_region.as_deref(), Some("chr1:1000-2000"));
        assert_eq!(fixed.region.as_deref(), Some("chr1:1000-2000"));
        assert_eq!(fixed.mapq_filter, Some(11));
        assert_eq!(fixed.bam_path, "t.bam");
        let plan = plan_seq_table(&options).unwrap();
        assert_eq!(plan.region, "chr1:1000-2000");
        assert_eq!(plan.alignment.region.as_deref(), Some("chr1:1000-2000"));
        assert_eq!(plan.alignment.full_region, Some(true));
        assert_eq!(plan.mods.mod_region.as_deref(), Some("chr1:1000-2000"));
        assert_eq!(plan.alignment.mapq_filter, Some(11));
    }
}

#[test]
fn seq_table_accepts_any_non_empty_region() {
    for region in ["x", " ", "chr1", "chr1:5-", "not:a:region", "\u{4e2d}"] {
        let mut options = ReadOptions::default();
        options.region = Some(region.to_string());
        let plan = plan_seq_table(&options).unwrap();
        assert_eq!(plan.region, region);
    }
}
