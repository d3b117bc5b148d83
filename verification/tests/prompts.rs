use propolis::prediction::prompts::{bfp, statement_category, statement_ideology};
use propolis::structs::Statement;

#[test]
fn test_name() {
    let s = Statement {
        id: 0,
        text: "".into(),
    };
    bfp(&s);
    statement_category(&s);
    statement_ideology(&s);
}
