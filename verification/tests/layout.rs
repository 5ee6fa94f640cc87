use deployment_copy::layout::{
    arrow_row, bottom_border, column_split, content_line, content_line_padded, divider,
    queue_row, top_border, BOX_WIDTH, NAME_WIDTH,
};
use deployment_copy::width::visible_length;

fn rule(left: char, right: char) -> String {
    format!("{}{}{}", left, "─".repeat(51), right)
}

#[test]
fn arrow_row_follows_the_count() {
    assert_eq!(arrow_row(0), None);
    assert_eq!(arrow_row(1), Some(1));
    assert_eq!(arrow_row(2), Some(1));
    assert_eq!(arrow_row(5), Some(2));
    assert_eq!(arrow_row(8), Some(4));
}

#[test]
fn arrow_row_halves_larger_counts() {
    assert_eq!(arrow_row(3), Some(1));
    assert_eq!(arrow_row(4), Some(2));
    assert_eq!(arrow_row(9), Some(4));
    assert_eq!(arrow_row(usize::MAX), Some(usize::MAX / 2));
}

#[test]
fn column_split_adds_four_to_a_short_name() {
    assert_eq!(column_split("abc"), 7);
    assert_eq!(column_split(""), 4);
    assert_eq!(column_split(&"n".repeat(15)), 19);
}

#[test]
fn column_split_is_capped_for_a_long_name() {
    assert_eq!(column_split(&"n".repeat(30)), 19);
    assert_eq!(column_split(&"n".repeat(16)), 19);
}

#[test]
fn column_split_counts_characters() {
    assert_eq!(column_split("größe"), 9);
    assert_eq!(NAME_WIDTH, 15);
}

#[test]
fn borders_without_split() {
    assert_eq!(BOX_WIDTH, 51);
    assert_eq!(top_border(None), rule('╭', '╮'));
    assert_eq!(bottom_border(None), rule('╰', '╯'));
    assert_eq!(divider(), rule('├', '┤'));
}

#[test]
fn borders_with_split() {
    assert_eq!(
        top_border(Some((7, '┬'))),
        format!("╭{}┬{}╮", "─".repeat(6), "─".repeat(44))
    );
    assert_eq!(
        bottom_border(Some((7, '┴'))),
        format!("╰{}┴{}╯", "─".repeat(6), "─".repeat(44))
    );
    assert_eq!(top_border(Some((1, 'x'))), format!("╭x{}╮", "─".repeat(50)));
}

#[test]
fn borders_ignore_a_split_outside_the_line() {
    assert_eq!(top_border(Some((0, '┬'))), rule('╭', '╮'));
    assert_eq!(top_border(Some((53, '┬'))), rule('╭', '╮'));
    assert_eq!(bottom_border(Some((usize::MAX, '┴'))), rule('╰', '╯'));
}

#[test]
fn borders_take_a_split_on_the_last_glyph() {
    assert_eq!(top_border(Some((52, '┬'))), format!("╭{}┬", "─".repeat(51)));
}

#[test]
fn content_line_pads_to_the_box_width() {
    assert_eq!(content_line("abc"), format!("│ abc{}│", " ".repeat(47)));
    assert_eq!(content_line(""), format!("│ {}│", " ".repeat(50)));
}

#[test]
fn content_line_measures_what_is_shown() {
    let styled = "\u{1b}[31mabc\u{1b}[0m";
    assert_eq!(content_line(styled), format!("│ {}{}│", styled, " ".repeat(47)));
    assert_eq!(content_line("│──>"), format!("│ │──>{}│", " ".repeat(46)));
}

#[test]
fn content_line_skips_padding_when_the_text_fills_the_box() {
    let near = "x".repeat(49);
    assert_eq!(content_line(&near), format!("│ {} │", near));
    let full = "x".repeat(50);
    assert_eq!(content_line(&full), format!("│ {}│", full));
    let exact = "x".repeat(51);
    assert_eq!(content_line(&exact), format!("│ {}│", exact));
    let over = "x".repeat(80);
    assert_eq!(content_line(&over), format!("│ {}│", over));
}

#[test]
fn content_line_padded_takes_the_width_as_given() {
    assert_eq!(content_line_padded("abc", 3), format!("│ abc{}│", " ".repeat(47)));
    assert_eq!(content_line_padded("abc", 0), format!("│ abc{}│", " ".repeat(50)));
    assert_eq!(content_line_padded("abc", 50), "│ abc│");
    assert_eq!(content_line_padded("abc", 51), "│ abc│");
    assert_eq!(content_line_padded("abc", usize::MAX), "│ abc│");
}

#[test]
fn queue_row_with_and_without_arrow() {
    assert_eq!(queue_row("abc", "D:\\", true), "abc ──>  D:\\");
    assert_eq!(queue_row("abc", "D:\\", false), "     │   D:\\");
    assert_eq!(queue_row("", "x", true), " ──>  x");
    assert_eq!(queue_row("", "x", false), "  │   x");
}

#[test]
fn queue_rows_line_their_destinations_up() {
    for name in ["", "abc", "a-name-of-15-ch", "a-name-of-more-than-fifteen"] {
        let arrow = queue_row(name, "dest", true);
        let plain = queue_row(name, "dest", false);
        assert_eq!(visible_length(&arrow), visible_length(&plain));
        assert_eq!(visible_length(&arrow), column_split(name) + 2 + 4);
        assert_eq!(plain.chars().nth(column_split(name) - 2), Some('│'));
    }
}
