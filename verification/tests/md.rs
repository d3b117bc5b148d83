use propolis::md::{first_code_block, parse_codeblock, MarkdownBlock, MdError};

#[test]
fn parse_codeblock_doc_example() {
    let input = "```csv\n1|2|3|4\n```";
    assert_eq!("1|2|3|4", parse_codeblock(&input).unwrap());
}

#[test]
fn parse_codeblock_without_code_block_fails() {
    match parse_codeblock("just a paragraph") {
        Err(MdError::NoCodeBlock { data }) => assert_eq!("just a paragraph", data),
        Ok(code) => panic!("unexpected code block {code}"),
    }
}

#[test]
fn first_code_block_reads_only_the_first_block() {
    let blocks = vec![
        MarkdownBlock::Paragraph,
        MarkdownBlock::CodeBlock { lang: None, code: "x".to_string() },
    ];
    assert!(first_code_block(&blocks, "d").is_err());
    let blocks = vec![MarkdownBlock::CodeBlock { lang: Some("csv".to_string()), code: "x".to_string() }];
    assert_eq!("x", first_code_block(&blocks, "d").unwrap());
    assert!(first_code_block(&vec![], "d").is_err());
}

#[test]
fn parse_codeblock_reads_a_table_before_a_list() {
    let input = "```csv\n1|2\n```\n- item";
    assert_eq!("1|2", parse_codeblock(input).unwrap());
}
