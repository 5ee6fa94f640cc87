use crossterm::style::Stylize;
use deployment_copy::bytes::{ByteFormatter, ByteUnit};
use deployment_copy::string::{push_decimal, push_repeated, truncate};
use deployment_copy::ui::Unformattable;
use deployment_copy::width::visible_length;

#[test]
fn visible_length_ignores_styling() {
    let styled = format!("{}", "World".red().bold());
    assert_eq!(visible_length(&styled), 5);
    assert_eq!(visible_length("\u{1b}[38;5;5mDeployment Copy\u{1b}[39m"), 15);
    assert_eq!(visible_length("\u{1b}[m"), 0);
    let raw = "a\u{1b}[1mb\u{1b}[0mc";
    assert_eq!(visible_length(raw), String::from(raw).unformat().chars().count());
    assert_eq!(String::from(raw).unformat(), "abc");
}

#[test]
fn visible_length_of_plain_text_is_its_character_count() {
    assert_eq!(visible_length(""), 0);
    assert_eq!(visible_length("Hello, World!"), 13);
    assert_eq!(visible_length("test-dir ──>  D:\\"), 17);
    assert_eq!(visible_length("größe"), 5);
    assert_eq!(visible_length("│"), 1);
    assert_eq!(visible_length("~ \u{a0}\u{ffff}\u{10000}"), 5);
}

#[test]
fn unformat_leaves_plain_text_alone() {
    assert_eq!(String::from("plain text").unformat(), "plain text");
    assert_eq!(String::from("größe │──>").unformat(), "größe │──>");
    assert_eq!(String::new().unformat(), "");
}

#[test]
fn byte_formatter_picks_the_largest_unit() {
    assert_eq!(ByteFormatter::format(0), "0b");
    assert_eq!(ByteFormatter::format(1023), "1023b");
    assert_eq!(ByteFormatter::format(1024), "1kb");
    assert_eq!(ByteFormatter::format(1048576), "1mb");
    assert_eq!(ByteFormatter::format(1073741824), "1gb");
    assert_eq!(ByteFormatter::format(2 * 1024u64.pow(4)), "2tb");
}

#[test]
fn byte_formatter_truncates() {
    assert_eq!(ByteFormatter::format(1), "1b");
    assert_eq!(ByteFormatter::format(2047), "1kb");
    assert_eq!(ByteFormatter::format(2048), "2kb");
    assert_eq!(ByteFormatter::format(1048575), "1023kb");
    assert_eq!(ByteFormatter::format(1073741823), "1023mb");
    assert_eq!(ByteFormatter::format(1024u64.pow(4) - 1), "1023gb");
    assert_eq!(ByteFormatter::format(1024u64.pow(4)), "1tb");
    assert_eq!(ByteFormatter::format(u64::MAX), "16777215tb");
}

#[test]
fn byte_units_grow_with_the_count() {
    let counts = [0u64, 1, 1023, 1024, 1048575, 1048576, 1 << 30, 1 << 40, u64::MAX];
    let ranks: Vec<u64> = counts.iter().map(|&count| ByteUnit::for_count(count).bytes()).collect();
    for pair in ranks.windows(2) {
        assert!(pair[0] <= pair[1]);
    }
    assert_eq!(ByteUnit::for_count(1023), ByteUnit::Byte);
    assert_eq!(ByteUnit::for_count(1024), ByteUnit::Kilo);
    assert_eq!(ByteUnit::Mega.bytes(), 1048576);
    assert_eq!(ByteUnit::Giga.bytes(), 1073741824);
    assert_eq!(ByteUnit::Tera.bytes(), 1099511627776);
    assert_eq!(ByteUnit::Byte.label(), "b");
    assert_eq!(ByteUnit::Kilo.label(), "kb");
    assert_eq!(ByteUnit::Mega.label(), "mb");
    assert_eq!(ByteUnit::Giga.label(), "gb");
    assert_eq!(ByteUnit::Tera.label(), "tb");
}

#[test]
fn decimal_digits_are_appended() {
    let mut text = String::from("n=");
    push_decimal(&mut text, 0);
    push_decimal(&mut text, 7);
    push_decimal(&mut text, 10);
    push_decimal(&mut text, 9050);
    assert_eq!(text, "n=07109050");
    let mut largest = String::new();
    push_decimal(&mut largest, u64::MAX);
    assert_eq!(largest, "18446744073709551615");
}

#[test]
fn glyphs_are_repeated() {
    let mut text = String::from("[");
    push_repeated(&mut text, '─', 3);
    push_repeated(&mut text, 'x', 0);
    push_repeated(&mut text, ' ', 2);
    assert_eq!(text, "[───  ");
}

#[test]
fn truncate_cuts_to_the_character_count() {
    assert_eq!(truncate("hello world", 5), "hello");
    assert_eq!(truncate("hello", 0), "");
    assert_eq!(truncate("größenwahn", 4), "größ");
    assert_eq!(truncate("│──>", 2), "│─");
}

#[test]
fn truncate_leaves_short_strings_alone() {
    assert_eq!(truncate("abc", 3), "abc");
    assert_eq!(truncate("abc", 15), "abc");
    assert_eq!(truncate("", 0), "");
    assert_eq!(truncate("größe", usize::MAX), "größe");
}

#[test]
fn truncate_is_bounded_and_idempotent() {
    for text in ["", "a", "hello world", "größenwahn", "a-source-name-that-is-long"] {
        for max in [0usize, 1, 4, 15, 100] {
            let once = truncate(text, max);
            assert!(once.chars().count() <= max);
            assert!(text.starts_with(once.as_str()));
            assert_eq!(truncate(&once, max), once);
        }
    }
}
