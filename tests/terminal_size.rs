use faketty::size::{parse_dimension, read_overrides, resolve_size, term_size, SizeOverrides, TerminalSize};

#[test]
fn parses_plain_number() {
    assert_eq!(parse_dimension("120"), Some(120));
}

#[test]
fn parses_number_with_plus() {
    assert_eq!(parse_dimension("+7"), Some(7));
}

#[test]
fn parses_largest_dimension() {
    assert_eq!(parse_dimension("65535"), Some(65535));
}

#[test]
fn rejects_zero() {
    assert_eq!(parse_dimension("0"), None);
    assert_eq!(parse_dimension("000"), None);
}

#[test]
fn rejects_too_large() {
    assert_eq!(parse_dimension("65536"), None);
    assert_eq!(parse_dimension("99999999999999999999"), None);
}

#[test]
fn rejects_malformed_text() {
    assert_eq!(parse_dimension(""), None);
    assert_eq!(parse_dimension("+"), None);
    assert_eq!(parse_dimension("-5"), None);
    assert_eq!(parse_dimension("12x"), None);
    assert_eq!(parse_dimension(" 12"), None);
    assert_eq!(parse_dimension("abc"), None);
}

#[test]
fn keeps_leading_zeros_value() {
    assert_eq!(parse_dimension("0042"), Some(42));
}

#[test]
fn reads_one_valid_one_invalid_override() {
    let o = read_overrides(Some("100"), Some("tall"));
    assert_eq!(o, SizeOverrides { columns: Some(100), rows: None });
}

#[test]
fn reads_absent_overrides() {
    let o = read_overrides(None, None);
    assert_eq!(o, SizeOverrides { columns: None, rows: None });
}

#[test]
fn valid_overrides_replace_real_size() {
    let o = SizeOverrides { columns: Some(100), rows: Some(30) };
    assert_eq!(resolve_size(Some((200, 50)), o), TerminalSize { columns: 100, rows: 30 });
    assert_eq!(resolve_size(None, o), TerminalSize { columns: 100, rows: 30 });
}

#[test]
fn absent_overrides_use_real_size() {
    let o = SizeOverrides { columns: None, rows: None };
    assert_eq!(resolve_size(Some((200, 50)), o), TerminalSize { columns: 200, rows: 50 });
}

#[test]
fn no_terminal_falls_back_to_80_by_24() {
    let o = read_overrides(Some("wide"), Some("0"));
    assert_eq!(resolve_size(None, o), TerminalSize { columns: 80, rows: 24 });
}

#[test]
fn one_override_mixes_with_real_size() {
    let o = SizeOverrides { columns: None, rows: Some(10) };
    assert_eq!(resolve_size(Some((132, 43)), o), TerminalSize { columns: 132, rows: 10 });
}

#[test]
fn term_size_keeps_valid_overrides() {
    let o = read_overrides(Some("91"), Some("37"));
    assert_eq!(term_size(o), TerminalSize { columns: 91, rows: 37 });
}

#[test]
fn term_size_without_overrides_is_positive() {
    let s = term_size(SizeOverrides { columns: None, rows: None });
    assert!(s.columns > 0);
    assert!(s.rows > 0);
}
