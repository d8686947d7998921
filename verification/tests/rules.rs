use unmapped_window::{ColumnWidth, ResolvedWindowRules};

#[test]
fn default_rules_are_all_unset() {
    let rules = ResolvedWindowRules::default();
    assert_eq!(rules.default_width, None);
    assert_eq!(rules.open_on_output, None);
    assert_eq!(rules.open_maximized, None);
    assert_eq!(rules.open_fullscreen, None);
}

#[test]
fn default_rules_do_not_depend_on_earlier_rules() {
    let first = ResolvedWindowRules::default();
    let matched = ResolvedWindowRules {
        default_width: Some(Some(ColumnWidth::Fixed(1280))),
        open_on_output: Some(String::from("DP-1")),
        open_maximized: Some(true),
        open_fullscreen: Some(true),
    };
    assert_eq!(matched.open_maximized, Some(true));
    let second = ResolvedWindowRules::default();
    assert_eq!(first.default_width, second.default_width);
    assert_eq!(first.open_on_output, second.open_on_output);
    assert_eq!(first.open_maximized, second.open_maximized);
    assert_eq!(first.open_fullscreen, second.open_fullscreen);
    assert_eq!(second.default_width, None);
    assert_eq!(second.open_on_output, None);
    assert_eq!(second.open_maximized, None);
    assert_eq!(second.open_fullscreen, None);
}

#[test]
fn default_widths_stay_apart() {
    let widths = [None, Some(None), Some(Some(ColumnWidth::Fixed(800)))];
    for (i, width) in widths.iter().enumerate() {
        let rules = ResolvedWindowRules { default_width: *width, ..ResolvedWindowRules::default() };
        for (j, other) in widths.iter().enumerate() {
            assert_eq!(rules.default_width == *other, i == j);
        }
        assert_eq!(rules.open_on_output, None);
        assert_eq!(rules.open_maximized, None);
        assert_eq!(rules.open_fullscreen, None);
    }
}

#[test]
fn rules_fields_are_set_one_by_one() {
    let rules = ResolvedWindowRules { open_maximized: Some(false), ..ResolvedWindowRules::default() };
    assert_eq!(rules.open_maximized, Some(false));
    assert_eq!(rules.open_fullscreen, None);
    let rules = ResolvedWindowRules { open_fullscreen: Some(true), ..ResolvedWindowRules::default() };
    assert_eq!(rules.open_fullscreen, Some(true));
    assert_eq!(rules.open_maximized, None);
    let rules = ResolvedWindowRules {
        open_on_output: Some(String::from("eDP-1")),
        ..ResolvedWindowRules::default()
    };
    assert_eq!(rules.open_on_output.as_deref(), Some("eDP-1"));
    assert_eq!(rules.default_width, None);
}

#[test]
fn rules_print_their_fields() {
    let text = format!("{:?}", ResolvedWindowRules::default());
    assert!(text.contains("default_width: None"));
    assert!(text.contains("open_on_output: None"));
    assert!(text.contains("open_maximized: None"));
    assert!(text.contains("open_fullscreen: None"));
}

#[test]
fn column_widths_compare_by_kind_and_value() {
    assert_eq!(ColumnWidth::Fixed(800), ColumnWidth::Fixed(800));
    assert_ne!(ColumnWidth::Fixed(800), ColumnWidth::Fixed(801));
    assert_ne!(ColumnWidth::Fixed(2), ColumnWidth::Preset(2));
    assert_ne!(ColumnWidth::Preset(0), ColumnWidth::Proportion(0));
}

#[test]
fn proportion_carries_a_double_unchanged() {
    for share in [0.0f64, 1.0 / 3.0, 0.5, 2.0 / 3.0, 1.0] {
        let width = ColumnWidth::Proportion(share.to_bits());
        let copy = width;
        match copy {
            ColumnWidth::Proportion(bits) => assert_eq!(f64::from_bits(bits), share),
            other => panic!("unexpected width {:?}", other),
        }
    }
}
