use minesweeper_tui::text::{parse_usize, repeat_space, to_decimal};

#[test]
fn decimal_of_small_and_large_numbers() {
    assert_eq!(to_decimal(0), "0");
    assert_eq!(to_decimal(7), "7");
    assert_eq!(to_decimal(10), "10");
    assert_eq!(to_decimal(12345), "12345");
    assert_eq!(to_decimal(usize::MAX), usize::MAX.to_string());
}

#[test]
fn parse_accepts_digits_and_plus() {
    assert_eq!(parse_usize("0"), Some(0));
    assert_eq!(parse_usize("42"), Some(42));
    assert_eq!(parse_usize("+42"), Some(42));
    assert_eq!(parse_usize("007"), Some(7));
}

#[test]
fn parse_refuses_what_std_refuses() {
    for s in ["", "+", "-", "-1", "1a", " 1", "1 ", "++1", "١", "18446744073709551616"] {
        assert_eq!(parse_usize(s), s.parse::<usize>().ok(), "input {:?}", s);
    }
    assert_eq!(parse_usize(""), None);
    assert_eq!(parse_usize("+"), None);
    assert_eq!(parse_usize("-1"), None);
    assert_eq!(parse_usize("12x"), None);
}

#[test]
fn parse_agrees_with_std_on_many_inputs() {
    let samples = [
        "1", "99", "+0", "0000", "184467440737095516", "18446744073709551615",
        "18446744073709551616", "99999999999999999999999", "+-1", "1_000",
    ];
    for s in samples {
        assert_eq!(parse_usize(s), s.parse::<usize>().ok(), "input {:?}", s);
    }
}

#[test]
fn parse_undoes_decimal() {
    for n in [0usize, 1, 9, 10, 255, 65536, usize::MAX] {
        assert_eq!(parse_usize(&to_decimal(n)), Some(n));
    }
}

#[test]
fn spaces() {
    assert_eq!(repeat_space(0), "");
    assert_eq!(repeat_space(3), "   ");
}
