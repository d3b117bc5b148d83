use propolis::string_ext::StringExt;

#[test]
fn drop_first_line_single_line() {
    let input = "first";
    assert_eq!("first", input.drop_first_line());
}

#[test]
fn drop_first_line_two_lines() {
    let input = "first\nsecond";
    assert_eq!("second", input.drop_first_line());
}

#[test]
fn drop_first_line_keeps_later_lines() {
    assert_eq!("b\nc\n", "a\nb\nc\n".drop_first_line());
    assert_eq!("", "a\n".drop_first_line());
}

#[test]
fn shortify_doc_example() {
    let input = "sk-XYZ-1234";
    assert_eq!("sk..1234", input.shortify(2, 4, ".."));
}

#[test]
fn shortify_counts_bytes_for_prefix_and_cut() {
    // 6 characters, 7 bytes: the cut is at byte 6 - 3 = 3
    assert_eq!("ä..cdef", "äbcdef".shortify(2, 3, ".."));
}
