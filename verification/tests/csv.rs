use propolis::csv::{ensure_columns, max_column_count};

#[test]
fn max_column_count_doc_example() {
    let s = "1|2|3|4\n1|2|3\n";
    assert_eq!(4, max_column_count(&s, '|'));
}

#[test]
fn max_column_count_without_delimiters_is_one() {
    assert_eq!(1, max_column_count("", '|'));
    assert_eq!(1, max_column_count("abc\ndef", '|'));
}

#[test]
fn ensure_columns_pads_to_widest_row() {
    let s = "1|2|3|4\n1|2|3\n";
    assert_eq!("1|2|3|4\n1|2|3|\n", ensure_columns(&s, '|', None));
}

#[test]
fn ensure_columns_cuts_to_target() {
    let s = "1|2|3|4\n1|2|3\n";
    assert_eq!("1\n1\n", ensure_columns(&s, '|', Some(1)));
}

#[test]
fn ensure_columns_keeps_conforming_rows() {
    let s = "1|2|3|4\n1|2|3|4\n";
    assert_eq!(s, ensure_columns(&s, '|', Some(4)));
}

#[test]
fn ensure_columns_cuts_long_rows_to_target_columns() {
    assert_eq!("a|b\nx|", ensure_columns("a|b|c\nx", '|', Some(2)));
    assert_eq!("1|2\n1|\n", ensure_columns("1|2|3\n1\n", '|', Some(2)));
}

#[test]
fn ensure_columns_is_idempotent() {
    let once = ensure_columns("1|2|3\n1\n\n4|5", '|', Some(2));
    assert_eq!("1|2\n1|\n\n4|5", once);
    assert_eq!(once, ensure_columns(&once, '|', Some(2)));
}

#[test]
fn ensure_columns_default_target_is_widest_row() {
    let s = "1|2|3\n1\n";
    assert_eq!(ensure_columns(s, '|', None), ensure_columns(s, '|', Some(max_column_count(s, '|'))));
}

#[test]
fn max_column_count_of_joined_texts() {
    assert_eq!(3, max_column_count("1|2\n1|2|3\n", '|'));
    assert_eq!(max_column_count("a|b|c", '|'), max_column_count("a|b|c\nd", '|'));
    assert_eq!(4, max_column_count("x\na|b|c|d", '|'));
}

#[test]
fn ensure_columns_keeps_blank_lines() {
    assert_eq!("a|\n  \t\nb|c", ensure_columns("a\n  \t\nb|c", '|', None));
}

#[test]
fn ensure_columns_target_zero_empties_rows() {
    assert_eq!("\n", ensure_columns("a|b\nc", '|', Some(0)));
}

#[test]
fn ensure_columns_uniform_width_law_example() {
    let out = ensure_columns("a\nb|c|d\n\ne|f", ';', Some(3));
    assert_eq!("a;;\nb|c|d;;\n\ne|f;;", out);
    for line in out.split('\n') {
        if !line.trim().is_empty() {
            assert_eq!(2, line.matches(';').count());
        }
    }
}
