use rusty_journal::line::{fit, number_line, render_line, TEXT_COLUMN};

#[test]
fn short_text_is_filled_with_spaces() {
    assert_eq!(fit("ab", 5), "ab   ");
    assert_eq!(fit("", 3), "   ");
}

#[test]
fn text_of_the_width_stays_as_it_is() {
    assert_eq!(fit("abcde", 5), "abcde");
    assert_eq!(fit("", 0), "");
}

#[test]
fn longer_text_is_cut_to_the_width() {
    assert_eq!(fit("abcdefgh", 5), "abcde");
    assert_eq!(fit("abc", 0), "");
    assert_eq!(fit("abc", 1), "a");
}

#[test]
fn width_counts_characters() {
    assert_eq!(fit("\u{e9}\u{e9}", 4), "\u{e9}\u{e9}  ");
    assert_eq!(fit("\u{1f600}", 2), "\u{1f600} ");
    assert_eq!(fit("\u{e9}\u{4e16}\u{1f600}x", 3), "\u{e9}\u{4e16}\u{1f600}");
}

#[test]
fn fit_agrees_with_left_alignment_in_a_column() {
    for text in ["", "a", "buy milk", "caf\u{e9}", &"x".repeat(49), &"x".repeat(50), &"x".repeat(51), &"\u{e9}".repeat(80)] {
        assert_eq!(fit(text, TEXT_COLUMN), format!("{:<50.50}", text));
        assert_eq!(fit(text, TEXT_COLUMN).chars().count(), 50);
    }
}

#[test]
fn text_column_is_fifty_wide() {
    assert_eq!(TEXT_COLUMN, 50);
}

#[test]
fn line_holds_text_column_and_stamp() {
    let expected = format!("buy milk{} [2024-01-01 10:00]", " ".repeat(42));
    assert_eq!(render_line("buy milk", "2024-01-01 10:00"), expected);
    assert_eq!(render_line("", ""), format!("{} []", " ".repeat(50)));
}

#[test]
fn long_text_is_cut_in_the_line() {
    let text = "t".repeat(60);
    assert_eq!(render_line(&text, "s"), format!("{} [s]", "t".repeat(50)));
}

#[test]
fn position_stands_in_front() {
    assert_eq!(number_line(1, "buy milk"), "1: buy milk");
    assert_eq!(number_line(12, ""), "12: ");
    assert_eq!(number_line(0, "x"), "0: x");
}
