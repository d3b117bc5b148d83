//! Highlighting text, e.g. the search terms in search results.
//!
//! The full text search marks matches with two marker characters; these are
//! turned into HTML `<mark>` tags for display.

use aho_corasick::AhoCorasick;
use vstd::prelude::*;

verus! {

/// Marks the beginning of a highlighted part of a text.
pub const HIGHLIGHT_BEGIN: &'static str = "˹";

/// Marks the end of a highlighted part of a text.
pub const HIGHLIGHT_END: &'static str = "˺";

/// `text` with every character that occurs in `patterns` replaced by the
/// replacement at the same position, and every other character kept.
pub open spec fn replace_chars(
    text: Seq<char>,
    patterns: Seq<char>,
    replacements: Seq<Seq<char>>,
) -> Seq<char>
    decreases text.len(),
{
    if text.len() == 0 {
        Seq::<char>::empty()
    } else {
        replace_chars(text.drop_last(), patterns, replacements) + if patterns.contains(
            text.last(),
        ) {
            replacements[patterns.index_of(text.last())]
        } else {
            seq![text.last()]
        }
    }
}

/// What `highlight_html` makes of `text`: begin markers become `<mark>`,
/// end markers `</mark>`.
pub open spec fn spec_highlight_html(text: Seq<char>) -> Seq<char> {
    replace_chars(text, seq!['˹', '˺'], seq!["<mark>"@, "</mark>"@])
}

/// Calls `AhoCorasick::replace_all` (aho-corasick) with single-character
/// patterns. Its matches are the non-overlapping leftmost occurrences of the
/// patterns; a pattern made of one character matches exactly where that
/// character occurs, and distinct characters never overlap, so every
/// occurrence of `patterns[i]` is replaced by `replacements[i]` and all other
/// text is copied. `replace_all` panics unless there is one replacement per
/// pattern.
#[verifier::external_body]
fn aho_corasick_replace_all(text: &str, patterns: &[char], replacements: &[&str]) -> (res: String)
    requires
        patterns@.len() == replacements@.len(),
        patterns@.no_duplicates(),
    ensures
        res@ == replace_chars(text@, patterns@, replacements@.map_values(|r: &str| r@)),
{
    let patterns: Vec<String> = patterns.iter().map(|c| c.to_string()).collect();
    AhoCorasick::new(&patterns).replace_all(text, replacements)
}

/// Replaces highlight markers with HTML tags.
pub fn highlight_html(text: &str) -> (res: String)
    ensures
        res@ == spec_highlight_html(text@),
{
    let patterns: [char; 2] = ['˹', '˺'];
    let replacements: [&str; 2] = ["<mark>", "</mark>"];
    assert(patterns@ =~= seq!['˹', '˺']);
    assert(patterns@.no_duplicates());
    assert(replacements@.map_values(|r: &str| r@) =~= seq!["<mark>"@, "</mark>"@]);
    aho_corasick_replace_all(text, &patterns, &replacements)
}

/// Replacing characters works piece by piece: the replacement of two
/// texts one after the other is the two replacements one after the other.
pub proof fn lemma_replace_chars_concat(
    a: Seq<char>,
    b: Seq<char>,
    patterns: Seq<char>,
    replacements: Seq<Seq<char>>,
)
    ensures
        replace_chars(a + b, patterns, replacements) == replace_chars(a, patterns, replacements)
            + replace_chars(b, patterns, replacements),
    decreases b.len(),
{
    if b.len() == 0 {
        assert(a + b =~= a);
    } else {
        lemma_replace_chars_concat(a, b.drop_last(), patterns, replacements);
        assert((a + b).drop_last() =~= a + b.drop_last());
        assert((a + b).last() == b.last());
    }
}

/// Neither highlight marker occurs in `text`.
pub open spec fn unmarked(text: Seq<char>) -> bool {
    !text.contains('˹') && !text.contains('˺')
}

/// A text without markers is shown as it is.
pub proof fn law_highlight_keeps_unmarked_text(text: Seq<char>)
    requires
        unmarked(text),
    ensures
        spec_highlight_html(text) == text,
    decreases text.len(),
{
    if text.len() > 0 {
        let init = text.drop_last();
        assert forall|c: char| #[trigger] init.contains(c) implies text.contains(c) by {
            let j = choose|j: int| 0 <= j < init.len() && init[j] == c;
            assert(text[j] == c);
        }
        law_highlight_keeps_unmarked_text(init);
        let last = text.last();
        assert(text[text.len() - 1] == last);
        assert(!seq!['˹', '˺'].contains(last)) by {
            if seq!['˹', '˺'].contains(last) {
                let j = choose|j: int| 0 <= j < 2 && seq!['˹', '˺'][j] == last;
                assert(j == 0 || j == 1);
            }
        }
        assert(init + seq![last] =~= text);
    }
}

/// A marked part of an unmarked text becomes `<mark>part</mark>`, and the
/// text around it is kept.
pub proof fn law_highlight_marks_match(before: Seq<char>, part: Seq<char>, after: Seq<char>)
    requires
        unmarked(before),
        unmarked(part),
        unmarked(after),
    ensures
        spec_highlight_html(before + seq!['˹'] + part + seq!['˺'] + after) == before + "<mark>"@
            + part + "</mark>"@ + after,
{
    let p = seq!['˹', '˺'];
    let r = seq!["<mark>"@, "</mark>"@];
    let begin = seq!['˹'];
    let end = seq!['˺'];
    lemma_replace_chars_concat(before + begin + part + end, after, p, r);
    lemma_replace_chars_concat(before + begin + part, end, p, r);
    lemma_replace_chars_concat(before + begin, part, p, r);
    lemma_replace_chars_concat(before, begin, p, r);
    law_highlight_keeps_unmarked_text(before);
    law_highlight_keeps_unmarked_text(part);
    law_highlight_keeps_unmarked_text(after);
    assert(p[0] == '˹' && p[1] == '˺');
    assert(p.contains('˹'));
    assert(p.index_of('˹') == 0);
    assert(p.contains('˺'));
    assert(p.index_of('˺') == 1);
    assert(begin.drop_last() =~= Seq::<char>::empty());
    assert(end.drop_last() =~= Seq::<char>::empty());
    assert(begin.last() == '˹' && end.last() == '˺');
    assert(replace_chars(Seq::<char>::empty(), p, r) =~= Seq::<char>::empty());
    assert(replace_chars(begin, p, r) =~= r[0]);
    assert(replace_chars(end, p, r) =~= r[1]);
}

} // verus!
