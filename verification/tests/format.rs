use takehome::report::{format_yen, LogConfig};

#[test]
fn formats_small_amounts() {
    assert_eq!(format_yen(0), "\u{a5}0");
    assert_eq!(format_yen(7), "\u{a5}7");
    assert_eq!(format_yen(999), "\u{a5}999");
}

#[test]
fn groups_thousands_with_commas() {
    assert_eq!(format_yen(1_000), "\u{a5}1,000");
    assert_eq!(format_yen(1_234), "\u{a5}1,234");
    assert_eq!(format_yen(15_000_000), "\u{a5}15,000,000");
    assert_eq!(format_yen(840_418), "\u{a5}840,418");
    assert_eq!(format_yen(i64::MAX), "\u{a5}9,223,372,036,854,775,807");
}

#[test]
fn groups_negative_amounts_over_the_signed_rendering() {
    assert_eq!(format_yen(-12), "\u{a5}-12");
    // the sign takes part in the grouping, so a comma can follow it directly
    assert_eq!(format_yen(-500), "\u{a5}-,500");
    assert_eq!(format_yen(-1_234_567), "\u{a5}-1,234,567");
}

#[test]
fn silent_log_config() {
    let config = LogConfig::none();
    assert!(!config.show_deductions);
    assert!(!config.show_tax_breakdown);
    assert!(!config.show_insurance_breakdown);
    assert!(!config.show_summary);
}
