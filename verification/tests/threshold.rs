use nanalogue_node::config::ModConfig;
use nanalogue_node::error::ValidationError;
use nanalogue_node::threshold::{Band, ThresholdPolicy};
use nanalogue_node::ReadOptions;

#[test]
fn absent_range_gives_minimum_only() {
    assert_eq!(ThresholdPolicy::derive(Some(7), &None), Ok(ThresholdPolicy::AtLeast(7)));
}

#[test]
fn absent_minimum_counts_as_zero() {
    assert_eq!(ThresholdPolicy::derive(None, &None), Ok(ThresholdPolicy::AtLeast(0)));
    assert_eq!(
        ThresholdPolicy::derive(None, &Some(vec![0, 3])),
        Ok(ThresholdPolicy::AtLeastExcluding(0, Band { lo: 1, hi: 2 }))
    );
}

#[test]
fn range_zero_to_three_excludes_one_to_two() {
    assert_eq!(
        ThresholdPolicy::derive(Some(0), &Some(vec![0, 3])),
        Ok(ThresholdPolicy::AtLeastExcluding(0, Band { lo: 1, hi: 2 }))
    );
}

#[test]
fn range_ten_to_hundred_excludes_eleven_to_ninety_nine() {
    assert_eq!(
        ThresholdPolicy::derive(Some(5), &Some(vec![10, 100])),
        Ok(ThresholdPolicy::AtLeastExcluding(5, Band { lo: 11, hi: 99 }))
    );
}

#[test]
fn range_of_width_two_excludes_one_point() {
    assert_eq!(
        ThresholdPolicy::derive(Some(0), &Some(vec![100, 102])),
        Ok(ThresholdPolicy::AtLeastExcluding(0, Band { lo: 101, hi: 101 }))
    );
}

#[test]
fn full_range_excludes_all_but_the_ends() {
    assert_eq!(
        ThresholdPolicy::derive(Some(0), &Some(vec![0, 255])),
        Ok(ThresholdPolicy::AtLeastExcluding(0, Band { lo: 1, hi: 254 }))
    );
}

#[test]
fn narrow_ranges_equal_no_range_for_every_pair() {
    for min in [None, Some(0u8), Some(17), Some(255)] {
        let plain = ThresholdPolicy::derive(min, &None);
        for low in 0..=255u8 {
            assert_eq!(ThresholdPolicy::derive(min, &Some(vec![low, low])), plain);
            if low < 255 {
                assert_eq!(ThresholdPolicy::derive(min, &Some(vec![low, low + 1])), plain);
            }
        }
    }
}

#[test]
fn wide_ranges_exclude_the_interior_for_every_pair() {
    for low in 0..=253u8 {
        for high in (low + 2)..=255u8 {
            assert_eq!(
                ThresholdPolicy::derive(Some(3), &Some(vec![low, high])),
                Ok(ThresholdPolicy::AtLeastExcluding(3, Band { lo: low + 1, hi: high - 1 }))
            );
        }
    }
}

#[test]
fn inverted_range_is_rejected() {
    assert_eq!(
        ThresholdPolicy::derive(Some(0), &Some(vec![5, 3])),
        Err(ValidationError::RejectRangeInverted)
    );
}

#[test]
fn range_of_one_or_three_entries_is_malformed() {
    assert_eq!(
        ThresholdPolicy::derive(Some(0), &Some(vec![5])),
        Err(ValidationError::RejectRangeMalformed)
    );
    assert_eq!(
        ThresholdPolicy::derive(Some(0), &Some(vec![1, 2, 3])),
        Err(ValidationError::RejectRangeMalformed)
    );
    assert_eq!(
        ThresholdPolicy::derive(Some(0), &Some(vec![])),
        Err(ValidationError::RejectRangeMalformed)
    );
}

#[test]
fn accepts_follows_the_policy() {
    let plain = ThresholdPolicy::AtLeast(10);
    assert!(!plain.accepts(9));
    assert!(plain.accepts(10));
    assert!(plain.accepts(255));
    let banded = ThresholdPolicy::AtLeastExcluding(10, Band { lo: 20, hi: 30 });
    assert!(!banded.accepts(9));
    assert!(banded.accepts(10));
    assert!(banded.accepts(19));
    assert!(!banded.accepts(20));
    assert!(!banded.accepts(25));
    assert!(!banded.accepts(30));
    assert!(banded.accepts(31));
}

#[test]
fn derived_policy_rejects_strictly_between_the_ends() {
    for (low, high) in [(0u8, 0u8), (4, 5), (4, 6), (10, 100), (0, 255), (254, 255)] {
        let policy = ThresholdPolicy::derive(Some(2), &Some(vec![low, high])).unwrap();
        for q in 0..=255u8 {
            let expected = q >= 2 && !(low < q && q < high);
            assert_eq!(policy.accepts(q), expected, "low {low} high {high} q {q}");
        }
    }
}

#[test]
fn mod_config_copies_fields_and_derives_threshold() {
    let mut options = ReadOptions::default();
    options.mod_strand = Some("bc".to_string());
    options.min_mod_qual = Some(128);
    options.reject_mod_qual_non_inclusive = Some(vec![100, 200]);
    options.trim_read_ends_mod = Some(12);
    options.base_qual_filter_mod = Some(9);
    options.tag = Some("m".to_string());
    options.mod_region = Some("chr2:5-10".to_string());
    let mods = ModConfig::from_options(&options).unwrap();
    assert_eq!(mods.mod_strand.as_deref(), Some("bc"));
    assert_eq!(mods.threshold, ThresholdPolicy::AtLeastExcluding(128, Band { lo: 101, hi: 199 }));
    assert_eq!(mods.trim_read_ends_mod, Some(12));
    assert_eq!(mods.base_qual_filter_mod, Some(9));
    assert_eq!(mods.tag.as_deref(), Some("m"));
    assert_eq!(mods.mod_region.as_deref(), Some("chr2:5-10"));
}

#[test]
fn mod_config_of_empty_options_is_unset() {
    let mods = ModConfig::from_options(&ReadOptions::default()).unwrap();
    assert_eq!(mods.mod_strand, None);
    assert_eq!(mods.threshold, ThresholdPolicy::AtLeast(0));
    assert_eq!(mods.trim_read_ends_mod, None);
    assert_eq!(mods.base_qual_filter_mod, None);
    assert_eq!(mods.tag, None);
    assert_eq!(mods.mod_region, None);
}

#[test]
fn mod_config_reports_range_errors() {
    let mut options = ReadOptions::default();
    options.reject_mod_qual_non_inclusive = Some(vec![5, 3]);
    assert_eq!(
        ModConfig::from_options(&options).unwrap_err(),
        ValidationError::RejectRangeInverted
    );
    options.reject_mod_qual_non_inclusive = Some(vec![1, 2, 3]);
    assert_eq!(
        ModConfig::from_options(&options).unwrap_err(),
        ValidationError::RejectRangeMalformed
    );
}

#[test]
fn band_needs_ordered_ends() {
    assert_eq!(Band::new(3, 5), Some(Band { lo: 3, hi: 5 }));
    assert_eq!(Band::new(4, 4), Some(Band { lo: 4, hi: 4 }));
    assert_eq!(Band::new(5, 3), None);
    let band = Band { lo: 3, hi: 5 };
    assert!(!band.contains(2));
    assert!(band.contains(3));
    assert!(band.contains(4));
    assert!(band.contains(5));
    assert!(!band.contains(6));
}
