use std::io::BufRead;
use lasangnabot::lines::read_lines;
use lasangnabot::text::{argument_after, chars_of, parse_i32, parse_usize, push_decimal};

#[test]
fn read_lines_drops_newlines_and_carriage_returns() {
    assert_eq!(read_lines("a\r\nb\n\nc"), vec!["a", "b", "", "c"]);
}

#[test]
fn read_lines_of_empty_text_is_empty() {
    assert!(read_lines("").is_empty());
}

#[test]
fn read_lines_keeps_a_lone_carriage_return_at_the_end() {
    assert_eq!(read_lines("x\ny\r"), vec!["x", "y\r"]);
    assert_eq!(read_lines("x\n"), vec!["x"]);
    assert_eq!(read_lines("\n"), vec![""]);
    assert_eq!(read_lines("\r\n\r\n"), vec!["", ""]);
}

#[test]
fn read_lines_matches_std_bufread_lines() {
    for text in ["", "a", "a\n", "a\r\nb", "\n\n", "é\r\nü\r", "x\ry\n"] {
        let std_lines: Vec<String> =
            std::io::Cursor::new(text).lines().map(|l| l.unwrap()).collect();
        assert_eq!(read_lines(text), std_lines, "text {:?}", text);
    }
}

#[test]
fn chars_of_gives_the_characters() {
    assert_eq!(chars_of("héllo"), vec!['h', 'é', 'l', 'l', 'o']);
}

#[test]
fn push_decimal_writes_digits() {
    let mut s = String::from("n=");
    push_decimal(&mut s, 0);
    push_decimal(&mut s, 1207);
    push_decimal(&mut s, u64::MAX);
    assert_eq!(s, format!("n=01207{}", u64::MAX));
}

#[test]
fn parse_usize_reads_like_std() {
    for text in ["3", "+3", "007", "-3", "", "+", " 3", "3 ", "1a", "18446744073709551615", "18446744073709551616", "99999999999999999999999"] {
        assert_eq!(parse_usize(text), text.parse::<usize>().ok(), "text {:?}", text);
    }
}

#[test]
fn parse_i32_reads_like_std() {
    for text in ["4", "-4", "+4", "-0", "-", "+", "", "--4", "+-4", "2147483647", "2147483648", "-2147483648", "-2147483649", "x"] {
        assert_eq!(parse_i32(text), text.parse::<i32>().ok(), "text {:?}", text);
    }
}

#[test]
fn argument_after_slices_by_bytes() {
    assert_eq!(argument_after("$delfav 3", 8), Some("3"));
    assert_eq!(argument_after("$play", 5), Some(""));
    assert_eq!(argument_after("$pla", 5), None);
    assert_eq!(argument_after("é", 1), None);
    assert_eq!(argument_after("ab", 0), Some("ab"));
}
