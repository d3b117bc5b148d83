//! Extraction of the code block that language models wrap their tables in.

use markdown::Block;
use vstd::prelude::*;
use vstd::utf8::{encode_utf8, is_char_boundary};

use crate::text::{is_blank, split_on};

verus! {

/// A top-level block of a markdown document, with the parts this crate
/// reads kept as plain values.
pub enum MarkdownBlock {
    Header { level: usize },
    Paragraph,
    Blockquote,
    CodeBlock { lang: Option<String>, code: String },
    OrderedList { kind: String },
    UnorderedList,
    Raw { text: String },
    Hr,
}

/// The view of a [`MarkdownBlock`].
pub enum MarkdownBlockView {
    Header { level: usize },
    Paragraph,
    Blockquote,
    CodeBlock { lang: Option<Seq<char>>, code: Seq<char> },
    OrderedList { kind: Seq<char> },
    UnorderedList,
    Raw { text: Seq<char> },
    Hr,
}

impl View for MarkdownBlock {
    type V = MarkdownBlockView;

    open spec fn view(&self) -> MarkdownBlockView {
        match self {
            MarkdownBlock::Header { level } => MarkdownBlockView::Header { level: *level },
            MarkdownBlock::Paragraph => MarkdownBlockView::Paragraph,
            MarkdownBlock::Blockquote => MarkdownBlockView::Blockquote,
            MarkdownBlock::CodeBlock { lang, code } => MarkdownBlockView::CodeBlock {
                lang: match lang {
                    Some(l) => Some(l@),
                    None => None,
                },
                code: code@,
            },
            MarkdownBlock::OrderedList { kind } => MarkdownBlockView::OrderedList { kind: kind@ },
            MarkdownBlock::UnorderedList => MarkdownBlockView::UnorderedList,
            MarkdownBlock::Raw { text } => MarkdownBlockView::Raw { text: text@ },
            MarkdownBlock::Hr => MarkdownBlockView::Hr,
        }
    }
}

/// The top-level blocks that `markdown::tokenize` finds in a text.
pub uninterp spec fn markdown_tokenize(text: Seq<char>) -> Seq<MarkdownBlockView>;

/// `line` holds three backticks in a row.
pub open spec fn has_fence(line: Seq<char>) -> bool {
    exists|i: int|
        0 <= i && i + 3 <= line.len() && #[trigger] line[i] == '`' && line[i + 1] == '`' && line[
            i + 2
        ] == '`'
}

/// The number of spaces `s` starts with.
pub open spec fn leading_spaces(s: Seq<char>) -> nat
    decreases s.len(),
{
    if s.len() > 0 && s[0] == ' ' {
        1 + leading_spaces(s.drop_first())
    } else {
        0
    }
}

/// The number of digits and dots `s` starts with.
pub open spec fn numbering_run(s: Seq<char>) -> nat
    decreases s.len(),
{
    if s.len() > 0 && (('0' <= s[0] && s[0] <= '9') || s[0] == '.') {
        1 + numbering_run(s.drop_first())
    } else {
        0
    }
}

/// The number of the letters `a`, `A`, `i`, `I` that `s` starts with.
pub open spec fn letter_run(s: Seq<char>) -> nat
    decreases s.len(),
{
    if s.len() > 0 && (s[0] == 'a' || s[0] == 'A' || s[0] == 'i' || s[0] == 'I') {
        1 + letter_run(s.drop_first())
    } else {
        0
    }
}

/// The length of the list marker, with the space after it, that `r` starts
/// with, as the list parsers recognise one (`-`, `+`, `*`, a run of digits
/// and dots, or a run of `aAiI` and a dot); 0 when `r` starts with none.
pub open spec fn list_marker_len(r: Seq<char>) -> nat {
    if r.len() >= 2 && (r[0] == '-' || r[0] == '+' || r[0] == '*') && r[1] == ' ' {
        2
    } else if numbering_run(r) >= 1 && numbering_run(r) < r.len() && r[numbering_run(r) as int]
        == ' ' {
        numbering_run(r) + 1
    } else if letter_run(r) >= 1 && letter_run(r) + 1 < r.len() && r[letter_run(r) as int] == '.'
        && r[letter_run(r) + 1int] == ' ' {
        letter_run(r) + 2
    } else {
        0
    }
}

/// `line` without the `>` (and the space after it) that opens a quote.
pub open spec fn strip_quote(line: Seq<char>) -> Seq<char> {
    if line.len() >= 2 && line[1] == ' ' {
        line.skip(2)
    } else {
        line.skip(1)
    }
}

/// A line on which the block parser of `markdown::tokenize` may panic,
/// directly or in the text it parses again after taking off a quote
/// marker, up to four spaces of indentation, or a list marker:
/// - a line with three backticks whose byte 3 does not start a character
///   (the code block parser unwraps the text after byte 3);
/// - a list item whose text is blank (the list parsers then index the
///   first block of an empty list of blocks).
/// A list item whose blank first line is continued on the next lines is
/// counted too.
pub open spec fn unsafe_line(line: Seq<char>) -> bool
    decreases line.len(),
{
    let k = leading_spaces(line);
    let r = line.skip(k as int);
    let m = list_marker_len(r);
    ||| has_fence(line) && !is_char_boundary(encode_utf8(line), 3)
    ||| k <= line.len() && 0 < m <= r.len() && (is_blank(r.skip(m as int)) || unsafe_line(
        r.skip(m as int),
    ))
    ||| line.len() > 0 && line[0] == '>' && unsafe_line(strip_quote(line))
    ||| 0 < k <= line.len() && unsafe_line(line.skip(if k < 4 { k as int } else { 4 }))
}

/// The texts `markdown::tokenize` takes without panicking: no line is an
/// `unsafe_line`.
pub open spec fn tokenizable(text: Seq<char>) -> bool {
    forall|i: int|
        0 <= i < split_on(text, '\n').len() ==> !unsafe_line(#[trigger] split_on(text, '\n')[i])
}

/// Calls `markdown::tokenize` (markdown 0.3) and keeps of each top-level
/// block its kind and plain fields; the claim is only that the result is a
/// function of the text. Texts on which its block parsers may panic (a
/// code block line cut inside a character, a list item without text) are
/// left out (`tokenizable`).
#[verifier::external_body]
fn tokenize(text: &str) -> (res: Vec<MarkdownBlock>)
    requires
        tokenizable(text@),
    ensures
        res@.map_values(|b: MarkdownBlock| b@) == markdown_tokenize(text@),
{
    markdown::tokenize(text).into_iter().map(|block| match block {
        Block::Header(_, level) => MarkdownBlock::Header { level },
        Block::Paragraph(_) => MarkdownBlock::Paragraph,
        Block::Blockquote(_) => MarkdownBlock::Blockquote,
        Block::CodeBlock(lang, code) => MarkdownBlock::CodeBlock { lang, code },
        Block::OrderedList(_, kind) => MarkdownBlock::OrderedList { kind: kind.0 },
        Block::UnorderedList(_) => MarkdownBlock::UnorderedList,
        Block::Raw(text) => MarkdownBlock::Raw { text },
        Block::Hr => MarkdownBlock::Hr,
    }).collect()
}

/// Why no code block could be extracted.
#[derive(Debug)]
pub enum MdError {
    /// The text does not start with a code block; it is carried along.
    NoCodeBlock { data: String },
}

/// The outcome of `parse_codeblock` given the blocks of the text: the code
/// of the first block when that is a code block.
pub open spec fn spec_first_code_block(blocks: Seq<MarkdownBlockView>) -> Option<Seq<char>> {
    if blocks.len() > 0 {
        match blocks[0] {
            MarkdownBlockView::CodeBlock { code, .. } => Some(code),
            _ => None,
        }
    } else {
        None
    }
}

/// The first block decides: when it is a code block, whatever its language
/// (none, empty or named), its code is the result; there is no result only
/// when there are no blocks or the first is something else.
pub proof fn law_first_code_block_any_language(
    lang: Option<Seq<char>>,
    code: Seq<char>,
    rest: Seq<MarkdownBlockView>,
)
    ensures
        spec_first_code_block(seq![MarkdownBlockView::CodeBlock { lang, code }] + rest) == Some(
            code,
        ),
        spec_first_code_block(Seq::<MarkdownBlockView>::empty()) is None,
        forall|b: MarkdownBlockView|
            !(b is CodeBlock) ==> #[trigger] spec_first_code_block(seq![b] + rest) is None,
{
    assert((seq![MarkdownBlockView::CodeBlock { lang, code }] + rest)[0]
        == MarkdownBlockView::CodeBlock { lang, code });
    assert forall|b: MarkdownBlockView| !(b is CodeBlock) implies #[trigger] spec_first_code_block(
        seq![b] + rest,
    ) is None by {
        assert((seq![b] + rest)[0] == b);
    }
}

/// Picks the code of the first block when that is a code block; otherwise
/// an error carrying `data`.
pub fn first_code_block(blocks: &Vec<MarkdownBlock>, data: &str) -> (res: Result<String, MdError>)
    ensures
        blocks@.len() > 0 && blocks@[0] is CodeBlock ==> (res matches Ok(code) && code@
            == blocks@[0]->code@),
        res is Err <==> (blocks@.len() == 0 || !(blocks@[0] is CodeBlock)),
        match (res, spec_first_code_block(blocks@.map_values(|b: MarkdownBlock| b@))) {
            (Ok(code), Some(expected)) => code@ == expected,
            (Err(MdError::NoCodeBlock { data: d }), None) => d@ == data@,
            _ => false,
        },
{
    if blocks.len() > 0 {
        match &blocks[0] {
            MarkdownBlock::CodeBlock { code, .. } => {
                return Ok(code.clone());
            },
            _ => {},
        }
    }
    Err(MdError::NoCodeBlock { data: data.to_owned() })
}

/// Get markdown codeblock from string.
pub fn parse_codeblock(data: &str) -> (res: Result<String, MdError>)
    requires
        tokenizable(data@),
    ensures
        match (res, spec_first_code_block(markdown_tokenize(data@))) {
            (Ok(code), Some(expected)) => code@ == expected,
            (Err(MdError::NoCodeBlock { data: d }), None) => d@ == data@,
            _ => false,
        },
{
    let blocks = tokenize(data);
    first_code_block(&blocks, data)
}

} // verus!
