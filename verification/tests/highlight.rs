use propolis::highlight::{highlight_html, HIGHLIGHT_BEGIN, HIGHLIGHT_END};

#[test]
fn highlight_replaces_markers() {
    assert_eq!("a<mark>b</mark>c", highlight_html("a˹b˺c"));
}

#[test]
fn highlight_without_markers_is_identity() {
    assert_eq!("plain text", highlight_html("plain text"));
    assert_eq!("", highlight_html(""));
}

#[test]
fn highlight_markers_constants() {
    let text = format!("{}x{}{}y{}", HIGHLIGHT_BEGIN, HIGHLIGHT_END, HIGHLIGHT_BEGIN, HIGHLIGHT_END);
    assert_eq!("<mark>x</mark><mark>y</mark>", highlight_html(&text));
}
