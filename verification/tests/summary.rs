use h5parm_inspector::summary::{
    first_direction_of, push_percentage, solset_summary_text, soltab_summary_text,
    MISSING_DIRECTION,
};
use h5parm_inspector::{Axis, SolTab};

fn strings(items: &[&str]) -> Vec<String> {
    items.iter().map(|s| s.to_string()).collect()
}

/// An axis as the inspector holds it, from its samples.
fn axis(samples: &[f64]) -> Axis {
    let step = if samples.len() > 1 { format!("{}", samples[1] - samples[0]) } else { String::new() };
    Axis { samples: samples.len(), step }
}

/// A flagged fraction in hundredths of a percent.
fn hundredths(fraction: f64) -> u32 {
    (fraction * 100.0 * 100.0).round() as u32
}

fn table(name: &str, kind: &str, polarisations: &[&str], antennas: &[&str]) -> SolTab {
    SolTab {
        name: name.to_string(),
        kind: kind.to_string(),
        polarisations: strings(polarisations),
        antennas: strings(antennas),
        axes: strings(&["time", "freq", "ant", "pol"]),
        directions: Some(strings(&["pointing"])),
        flagged: 0,
        times: axis(&[0.0, 8.0, 16.0]),
        frequencies: Some(axis(&[120.0e6, 120.1953125e6])),
    }
}

fn header() -> String {
    format!("{:<21} {:<16} {:<13} {:<13}\n", "Solutions", "Type", "Polarisations", "Antennas")
}

#[test]
fn solset_summary_of_no_tables_is_the_header() {
    let text = solset_summary_text(&Vec::new());
    assert_eq!(text, header());
    assert_eq!(
        text,
        "Solutions             Type             Polarisations Antennas     \n"
    );
}

#[test]
fn solset_summary_of_two_tables() {
    let tables = vec![
        table("phase000", "phase", &["XX", "YY"], &["CS001", "RS205", "DE601"]),
        table("amplitude000", "amplitude", &["XX", "YY"], &["CS001", "RS205", "DE601"]),
    ];
    let text = solset_summary_text(&tables);
    let lines: Vec<&str> = text.lines().collect();
    assert_eq!(lines.len(), 3);
    assert!(text.ends_with('\n'));
    assert!(lines[1].starts_with("phase000 "));
    assert!(lines[1].ends_with("3 ( 1/1/1)"));
    assert!(lines[2].starts_with("amplitude000 "));
    assert_eq!(
        lines[1],
        "phase000              phase            XX,YY         3 ( 1/1/1)"
    );
    assert_eq!(
        lines[2],
        "amplitude000          amplitude        XX,YY         3 ( 1/1/1)"
    );
}

#[test]
fn solset_summary_rows_agree_with_std_formatting() {
    let tables = vec![
        table("phase000", "phase", &["XX", "XY", "YX", "YY"], &["CS001", "CS002", "ST001"]),
        table("tec000", "tec", &[], &[]),
        table(
            "a_table_with_a_very_long_name",
            "rotationmeasure_kind",
            &["XX", "XY", "YX", "YY", "I"],
            &["RS106", "RS205", "DE601", "DE602", "UK608"],
        ),
    ];
    let text = solset_summary_text(&tables);
    let mut expected = header();
    expected.push_str(&format!(
        "{:<21} {:<16} {:<13} {} ({:>2}/{}/{})\n",
        "phase000", "phase", "XX,XY,YX,YY", 3, 3, 0, 0
    ));
    expected.push_str(&format!(
        "{:<21} {:<16} {:<13} {} ({:>2}/{}/{})\n",
        "tec000", "tec", "", 0, 0, 0, 0
    ));
    expected.push_str(&format!(
        "{:<21} {:<16} {:<13} {} ({:>2}/{}/{})\n",
        "a_table_with_a_very_long_name",
        "rotationmeasure_kind",
        "XX,XY,YX,YY,I",
        5,
        0,
        2,
        3
    ));
    assert_eq!(text, expected);
}

#[test]
fn solset_summary_keeps_the_order_of_the_tables() {
    let tables = vec![
        table("zeta", "phase", &["XX"], &["CS001"]),
        table("alpha", "phase", &["XX"], &["CS001"]),
        table("mid", "phase", &["XX"], &["CS001"]),
    ];
    let text = solset_summary_text(&tables);
    let first_words: Vec<&str> =
        text.lines().skip(1).map(|l| l.split(' ').next().unwrap()).collect();
    assert_eq!(first_words, vec!["zeta", "alpha", "mid"]);
}

#[test]
fn many_core_stations_fill_the_two_character_field() {
    let names: Vec<String> = (0..48).map(|i| format!("CS{:03}", i)).collect();
    let refs: Vec<&str> = names.iter().map(|s| s.as_str()).collect();
    let mut all = refs.clone();
    all.extend_from_slice(&["RS106", "DE601"]);
    let text = solset_summary_text(&vec![table("phase000", "phase", &["XX"], &all)]);
    assert!(text.lines().nth(1).unwrap().ends_with("50 (48/1/1)"));
}

#[test]
fn soltab_summary_in_full() {
    let mut t = table("phase000", "phase", &["XX", "YY"], &["CS001", "RS205", "DE601"]);
    t.flagged = hundredths(0.2567);
    let text = soltab_summary_text(&t);
    assert_eq!(
        text,
        "Dimensions: time, freq, ant, pol\n\
         \n\
         Directions: pointing\n\
         \n\
         Overall flagged fraction: 25.67%\n\
         \n\
         Time interval: 8 s\n\
         \n\
         Frequency interval: 195312.5 Hz\n\
         \n\
         Stations present:\n\
         CS001, RS205, DE601"
    );
}

#[test]
fn time_interval_is_the_spacing_of_the_first_two_samples() {
    let mut t = table("phase000", "phase", &["XX"], &["CS001"]);
    t.times = axis(&[0.0, 8.0, 16.0]);
    let text = soltab_summary_text(&t);
    assert!(text.lines().any(|l| l == "Time interval: 8 s"));
}

#[test]
fn missing_frequency_axis_is_not_applicable() {
    let mut t = table("phase000", "phase", &["XX"], &["CS001"]);
    t.frequencies = None;
    let text = soltab_summary_text(&t);
    assert!(text.lines().any(|l| l == "Frequency interval: N/A"));
    assert!(!text.contains(" Hz"));
}

#[test]
fn frequency_axis_of_one_sample_is_not_applicable() {
    let mut t = table("phase000", "phase", &["XX"], &["CS001"]);
    t.frequencies = Some(axis(&[150.0e6]));
    let text = soltab_summary_text(&t);
    assert!(text.lines().any(|l| l == "Frequency interval: N/A"));
    t.frequencies = Some(axis(&[]));
    let text = soltab_summary_text(&t);
    assert!(text.lines().any(|l| l == "Frequency interval: N/A"));
}

#[test]
fn frequency_axis_of_two_samples_shows_its_spacing() {
    let mut t = table("phase000", "phase", &["XX"], &["CS001"]);
    t.frequencies = Some(axis(&[100.0, 148.5]));
    let text = soltab_summary_text(&t);
    assert!(text.lines().any(|l| l == "Frequency interval: 48.5 Hz"));
}

#[test]
fn empty_direction_list_shows_the_marker() {
    let mut t = table("phase000", "phase", &["XX"], &["CS001"]);
    t.directions = Some(Vec::new());
    assert!(first_direction_of(&t).is_none());
    let text = soltab_summary_text(&t);
    assert!(text.lines().any(|l| l == "Directions: AAAAAAAAH BUG"));
}

#[test]
fn the_marker_of_a_missing_direction_is_kept_verbatim() {
    assert_eq!(MISSING_DIRECTION, "AAAAAAAAH BUG");
}

#[test]
fn absent_direction_list_shows_the_marker() {
    let mut t = table("phase000", "phase", &["XX"], &["CS001"]);
    t.directions = None;
    assert!(first_direction_of(&t).is_none());
    let text = soltab_summary_text(&t);
    assert!(text.lines().any(|l| l == "Directions: AAAAAAAAH BUG"));
}

#[test]
fn only_the_first_direction_is_shown() {
    let mut t = table("phase000", "phase", &["XX"], &["CS001"]);
    t.directions = Some(strings(&["Dir00", "Dir01", "Dir02"]));
    assert_eq!(first_direction_of(&t).map(|s| s.as_str()), Some("Dir00"));
    let text = soltab_summary_text(&t);
    assert!(text.lines().any(|l| l == "Directions: Dir00"));
    assert!(!text.contains("Dir01"));
}

#[test]
fn flagged_fraction_has_two_decimals() {
    let mut t = table("phase000", "phase", &["XX"], &["CS001"]);
    t.flagged = hundredths(0.2567);
    assert_eq!(t.flagged, 2567);
    let text = soltab_summary_text(&t);
    assert!(text.lines().any(|l| l == "Overall flagged fraction: 25.67%"));
}

#[test]
fn percentages_at_the_edges() {
    let cases: [(u32, &str); 9] = [
        (0, "0.00"),
        (5, "0.05"),
        (50, "0.50"),
        (99, "0.99"),
        (100, "1.00"),
        (999, "9.99"),
        (2507, "25.07"),
        (10000, "100.00"),
        (u32::MAX, "42949672.95"),
    ];
    for (value, shown) in cases {
        let mut buf = String::new();
        push_percentage(&mut buf, value);
        assert_eq!(buf, shown);
    }
}

#[test]
fn percentages_agree_with_std_formatting() {
    for fraction in [0.0, 0.0001, 0.01, 0.1, 0.2567, 0.5, 0.3333, 0.9999, 1.0] {
        let mut buf = String::new();
        push_percentage(&mut buf, hundredths(fraction));
        assert_eq!(buf, format!("{:.2}", fraction * 100.0));
    }
}

#[test]
fn stations_are_listed_by_name_alone() {
    let t = table("phase000", "phase", &["XX"], &["CS001HBA0", "RS205HBA", "DE601HBA"]);
    let text = soltab_summary_text(&t);
    assert!(text.ends_with("\n\nStations present:\nCS001HBA0, RS205HBA, DE601HBA"));
}

#[test]
fn no_stations_leave_the_list_empty() {
    let t = table("phase000", "phase", &["XX"], &[]);
    let text = soltab_summary_text(&t);
    assert!(text.ends_with("Stations present:\n"));
}

#[test]
fn sections_come_in_order_with_an_empty_line_between() {
    let t = table("phase000", "phase", &["XX"], &["CS001"]);
    let text = soltab_summary_text(&t);
    let sections: Vec<&str> = text.split("\n\n").collect();
    assert_eq!(sections.len(), 6);
    assert!(sections[0].starts_with("Dimensions: "));
    assert!(sections[1].starts_with("Directions: "));
    assert!(sections[2].starts_with("Overall flagged fraction: "));
    assert!(sections[3].starts_with("Time interval: "));
    assert!(sections[4].starts_with("Frequency interval: "));
    assert!(sections[5].starts_with("Stations present:\n"));
}
