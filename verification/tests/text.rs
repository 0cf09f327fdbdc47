use h5parm_inspector::text::{
    decimal_text, digit_text, join, push_blanks, push_decimal, push_joined, push_left_justified,
    push_right_justified, starts_with,
};

fn strings(items: &[&str]) -> Vec<String> {
    items.iter().map(|s| s.to_string()).collect()
}

#[test]
fn blanks_are_appended() {
    let mut buf = String::from("ab");
    push_blanks(&mut buf, 3);
    assert_eq!(buf, "ab   ");
    push_blanks(&mut buf, 0);
    assert_eq!(buf, "ab   ");
}

#[test]
fn left_justified_pads_on_the_right() {
    let mut buf = String::new();
    push_left_justified(&mut buf, "Type", 16);
    assert_eq!(buf, format!("{:<16}", "Type"));
    assert_eq!(buf.len(), 16);
}

#[test]
fn left_justified_keeps_a_long_text_whole() {
    let mut buf = String::from(">");
    push_left_justified(&mut buf, "Polarisations", 13);
    assert_eq!(buf, ">Polarisations");
    push_left_justified(&mut buf, "a_very_long_table_name_indeed", 21);
    assert_eq!(buf, ">Polarisationsa_very_long_table_name_indeed");
}

#[test]
fn left_justified_counts_characters_not_bytes() {
    let mut buf = String::new();
    push_left_justified(&mut buf, "αβγ", 5);
    assert_eq!(buf, format!("{:<5}", "αβγ"));
    assert_eq!(buf.chars().count(), 5);
}

#[test]
fn right_justified_pads_on_the_left() {
    let mut buf = String::new();
    push_right_justified(&mut buf, "1", 2);
    assert_eq!(buf, " 1");
    let mut buf = String::new();
    push_right_justified(&mut buf, "12", 2);
    assert_eq!(buf, "12");
    let mut buf = String::new();
    push_right_justified(&mut buf, "123", 2);
    assert_eq!(buf, "123");
}

#[test]
fn right_justified_agrees_with_std() {
    for n in [0usize, 5, 9, 10, 42, 99, 100, 2048] {
        let mut buf = String::new();
        push_right_justified(&mut buf, &decimal_text(n), 2);
        assert_eq!(buf, format!("{:>2}", n));
    }
}

#[test]
fn digits_are_the_ten_numerals() {
    let all: Vec<&str> = (0..10).map(digit_text).collect();
    assert_eq!(all, vec!["0", "1", "2", "3", "4", "5", "6", "7", "8", "9"]);
}

#[test]
fn decimal_of_small_numbers() {
    assert_eq!(decimal_text(0), "0");
    assert_eq!(decimal_text(7), "7");
    assert_eq!(decimal_text(9), "9");
    assert_eq!(decimal_text(10), "10");
    assert_eq!(decimal_text(11), "11");
    assert_eq!(decimal_text(100), "100");
    assert_eq!(decimal_text(12345), "12345");
    assert_eq!(decimal_text(90_010), "90010");
}

#[test]
fn decimal_agrees_with_std() {
    for n in [0usize, 1, 19, 20, 99, 101, 999, 1000, 65_535, 1_000_000, usize::MAX] {
        assert_eq!(decimal_text(n), n.to_string());
    }
}

#[test]
fn decimal_is_appended() {
    let mut buf = String::from("n=");
    push_decimal(&mut buf, 62);
    assert_eq!(buf, "n=62");
}

#[test]
fn join_of_nothing_is_empty() {
    assert_eq!(join(&Vec::new(), ", "), "");
}

#[test]
fn join_of_one_has_no_separator() {
    assert_eq!(join(&strings(&["XX"]), ","), "XX");
}

#[test]
fn join_puts_the_separator_between_neighbours() {
    assert_eq!(join(&strings(&["XX", "XY", "YX", "YY"]), ","), "XX,XY,YX,YY");
    assert_eq!(join(&strings(&["time", "freq", "ant"]), ", "), "time, freq, ant");
    assert_eq!(join(&strings(&["a", "", "b"]), "-"), "a--b");
}

#[test]
fn join_agrees_with_std() {
    let parts = strings(&["CS001HBA0", "RS205HBA", "DE601HBA", ""]);
    assert_eq!(join(&parts, ", "), parts.join(", "));
    assert_eq!(join(&parts, ""), parts.join(""));
}

#[test]
fn joined_is_appended() {
    let mut buf = String::from("Dimensions: ");
    push_joined(&mut buf, &strings(&["time", "ant"]), ", ");
    assert_eq!(buf, "Dimensions: time, ant");
}

#[test]
fn starts_with_tells_prefixes() {
    assert!(starts_with("CS001HBA0", "CS"));
    assert!(!starts_with("RS205HBA", "CS"));
    assert!(starts_with("CS", "CS"));
    assert!(!starts_with("C", "CS"));
    assert!(!starts_with("", "CS"));
    assert!(starts_with("anything", ""));
    assert!(starts_with("", ""));
    assert!(!starts_with("cs001", "CS"));
    assert!(!starts_with("XCS", "CS"));
}

#[test]
fn starts_with_agrees_with_std() {
    let names = ["CS001", "ST001", "RS106", "DE601", "S", "Ünïcode", "", "CSÜ"];
    let prefixes = ["CS", "ST", "RS", "", "Ü", "CSÜ", "Ün"];
    for name in names {
        for prefix in prefixes {
            assert_eq!(starts_with(name, prefix), name.starts_with(prefix), "{name} {prefix}");
        }
    }
}
