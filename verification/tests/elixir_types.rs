use mdex_native::elixir_types::{convert_line_specs, ExFormatterOption, ExLineSpec, SteppedLines, ThemeOrString};

#[test]
fn partitions_contiguous_and_genuinely_stepped_line_specs() {
    let (contiguous, stepped) = convert_line_specs(vec![
        ExLineSpec::Single(2),
        ExLineSpec::Range {
            start: 3,
            end: 5,
            step: 1,
        },
        ExLineSpec::Range {
            start: 9,
            end: 7,
            step: -1,
        },
        ExLineSpec::Range {
            start: 1,
            end: 9,
            step: 2,
        },
    ]);

    assert_eq!(contiguous, [2..=2, 3..=5, 7..=9]);
    assert_eq!(stepped.len(), 1);
    assert!(stepped[0].contains(7));
    assert!(!stepped[0].contains(8));
}

#[test]
fn refused_stepped_ranges_are_dropped() {
    let (contiguous, stepped) = convert_line_specs(vec![
        ExLineSpec::Range {
            start: 5,
            end: 3,
            step: 1,
        },
        ExLineSpec::Range {
            start: 1,
            end: 4,
            step: 0,
        },
        ExLineSpec::Range {
            start: 1,
            end: 4,
            step: -2,
        },
        ExLineSpec::Range {
            start: 9,
            end: 1,
            step: -3,
        },
    ]);
    assert!(contiguous.is_empty());
    assert_eq!(stepped.len(), 1);
    assert!(stepped[0].contains(3));
    assert!(stepped[0].contains(9));
    assert!(!stepped[0].contains(4));
    assert!(ExLineSpec::Single(4).to_stepped_line_range().is_some());
    assert!(ExLineSpec::Range { start: 2, end: 1, step: 1 }
        .to_stepped_line_range()
        .is_none());
}

#[test]
fn defaults_match_lumis() {
    assert!(matches!(
        ThemeOrString::default(),
        ThemeOrString::String(ref name) if name == "onedark"
    ));
    assert!(matches!(
        ExFormatterOption::default(),
        ExFormatterOption::HtmlInline { theme: None, highlight_lines: None, header: None, .. }
    ));
}

#[test]
fn stepped_lines_pull_the_end_back_to_the_last_step() {
    let up = SteppedLines::new(1, 10, 3).unwrap();
    assert!(up.contains(1));
    assert!(up.contains(4));
    assert!(up.contains(10));
    assert!(!up.contains(11));
    assert!(!up.contains(0));
    assert!(!up.contains(5));
    let short = SteppedLines::new(2, 6, 3).unwrap();
    assert!(short.contains(5));
    assert!(!short.contains(6));
    assert!(!short.contains(8));
}

#[test]
fn descending_stepped_lines_count_from_the_end() {
    let down = SteppedLines::new(9, 2, -3).unwrap();
    assert!(down.contains(9));
    assert!(down.contains(6));
    assert!(down.contains(3));
    assert!(!down.contains(2));
    assert!(!down.contains(7));
}

#[test]
fn stepped_lines_refuse_a_zero_or_backwards_step() {
    assert!(SteppedLines::new(1, 5, 0).is_none());
    assert!(SteppedLines::new(5, 1, 2).is_none());
    assert!(SteppedLines::new(1, 5, -2).is_none());
    assert!(SteppedLines::new(4, 4, -1).is_some());
}

#[test]
fn unit_stepped_lines_match_the_plain_span() {
    let up = SteppedLines::new(3, 5, 1).unwrap();
    let down = SteppedLines::new(9, 7, -1).unwrap();
    for line in 0..12 {
        assert_eq!(up.contains(line), (3..=5).contains(&line));
        assert_eq!(down.contains(line), (7..=9).contains(&line));
    }
}
