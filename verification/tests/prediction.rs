use propolis::ai_prompt::api::{AiEnvInfo, AiRole, PromptInfo, PromptResponse};
use propolis::prediction::data::{BigFivePersonaAxis, BigFivePersonaValue};
use propolis::prediction::multi_statement_classifier::{response_rows, MultiStatementPromptResult};
use propolis::prediction::openai::{
    big_five_prompt, determine_inglehart_welzel_map, determine_topics, persona_trait_from_answer,
    PersonaError, BIG_FIVE_PRIMING,
};
use propolis::prediction::prediction::{prediction_stub, with_response};
use propolis::prediction::prompts::{
    bfp, statement_category, statement_ideology, MultiStatementPredictorV1, ResponseHandler,
    MULTI_STATEMENT_SYSTEM,
};
use propolis::structs::Statement;

fn response(content: &str, tokens: (i64, i64, i64)) -> PromptResponse {
    PromptResponse {
        env_info: AiEnvInfo { name: "openai".into(), model: "gpt-4".into(), check_model: None },
        prompt_info: PromptInfo { name: "multi".into(), version: 7 },
        content: content.into(),
        prompt_tokens: tokens.0,
        completion_tokens: tokens.1,
        total_tokens: tokens.2,
    }
}

#[test]
fn axis_names() {
    assert!(matches!(
        BigFivePersonaAxis::from_str("openness-to-experience"),
        BigFivePersonaAxis::OpennessToExperience
    ));
    assert!(matches!(BigFivePersonaAxis::from_str("conscientiousness"), BigFivePersonaAxis::Conscientiousness));
    assert!(matches!(BigFivePersonaAxis::from_str("extraversion"), BigFivePersonaAxis::Extraversion));
    assert!(matches!(BigFivePersonaAxis::from_str("agreeableness"), BigFivePersonaAxis::Agreeableness));
    assert!(matches!(BigFivePersonaAxis::from_str("neuroticism"), BigFivePersonaAxis::Neuroticism));
    match BigFivePersonaAxis::from_str("Neuroticism") {
        BigFivePersonaAxis::Unknown(s) => assert_eq!("Neuroticism", s),
        other => panic!("unexpected {other:?}"),
    }
}

#[test]
fn value_names() {
    assert!(matches!(BigFivePersonaValue::from_str("high"), BigFivePersonaValue::High));
    assert!(matches!(BigFivePersonaValue::from_str("medium"), BigFivePersonaValue::Medium));
    assert!(matches!(BigFivePersonaValue::from_str("low"), BigFivePersonaValue::Low));
    match BigFivePersonaValue::from_str("") {
        BigFivePersonaValue::Unknown(s) => assert_eq!("", s),
        other => panic!("unexpected {other:?}"),
    }
}

#[test]
fn persona_answers() {
    let t = persona_trait_from_answer(
        r#"{"big-five-personality-trait": "extraversion", "value": "high", "notes": ""}"#,
    )
    .unwrap();
    assert!(matches!(t.axis, BigFivePersonaAxis::Extraversion));
    assert!(matches!(t.value, BigFivePersonaValue::High));
    assert!(matches!(persona_trait_from_answer("not json"), Err(PersonaError::InvalidJson)));
    assert!(matches!(
        persona_trait_from_answer(r#"{"value": "high"}"#),
        Err(PersonaError::UnableToParseTrait)
    ));
}

#[test]
fn big_five_prompt_messages() {
    let m = big_five_prompt("I like cats");
    assert_eq!(2, m.len());
    assert_eq!(AiRole::System, m[0].role);
    assert_eq!(BIG_FIVE_PRIMING, m[0].content);
    assert_eq!(AiRole::User, m[1].role);
    assert_eq!("\nI like cats\nJSON:\n", m[1].content);
}

#[test]
fn early_prompts_do_nothing() {
    determine_topics();
    determine_inglehart_welzel_map();
}

#[test]
fn single_statement_prompts() {
    let s = Statement { id: 5, text: "Cats are great".into() };
    let p = bfp(&s);
    assert_eq!(("BFP", 4, 8), (p.name.as_str(), p.version, p.primer.len()));
    assert_eq!("Cats are great", p.primer[7].content);
    assert_eq!(AiRole::User, p.primer[7].role);
    assert_eq!(ResponseHandler::Identity, p.handler);
    let p = statement_category(&s);
    assert_eq!(("statement_category", 3, 6), (p.name.as_str(), p.version, p.primer.len()));
    assert_eq!("political", p.primer[2].content);
    let p = statement_ideology(&s);
    assert_eq!(("statement_ideology", 3, 6), (p.name.as_str(), p.version, p.primer.len()));
    assert_eq!("environmentalist,globalist", p.primer[4].content);
}

#[test]
fn multi_statement_prompt_lists_statements() {
    let stmts = vec![
        Statement { id: 1, text: "a".into() },
        Statement { id: -20, text: "b".into() },
    ];
    let p = MultiStatementPredictorV1 {}.prompt(&stmts);
    assert_eq!("multi_statement_predictor", p.name);
    assert_eq!(7, p.version);
    assert_eq!(ResponseHandler::StripHeader, p.handler);
    assert_eq!(4, p.primer.len());
    assert_eq!(MULTI_STATEMENT_SYSTEM, p.primer[0].content);
    assert_eq!("1: a\n-20: b\n", p.primer[3].content);
    assert_eq!(vec!["1: a", "-20: b"], p.primer[3].content.lines().collect::<Vec<_>>());
}

#[test]
fn strip_header_handler() {
    assert_eq!("2|x", ResponseHandler::StripHeader.apply("h\n2|x\n\n".into()));
    assert_eq!("", ResponseHandler::StripHeader.apply("only header".into()));
    assert_eq!("a\nb", ResponseHandler::Identity.apply("a\nb".into()));
}

#[test]
fn predictions_share_tokens() {
    let result = MultiStatementPromptResult {
        response: response("x", (10, -7, 3)),
        stmts: vec![
            Statement { id: 4, text: "a".into() },
            Statement { id: 9, text: "b".into() },
        ],
        result: vec!["r1".into(), "r2".into()],
    };
    let p = result.predictions();
    assert_eq!(2, p.len());
    assert_eq!((4, 9), (p[0].statement_id, p[1].statement_id));
    assert_eq!("gpt-4,openai", p[0].ai_env);
    assert_eq!("multi", p[1].prompt_name);
    assert_eq!(7, p[1].prompt_version);
    assert_eq!("r2", p[1].prompt_result);
    assert_eq!((5, -3, 1), (p[0].prompt_tokens, p[0].completion_tokens, p[0].total_tokens));
}

#[test]
fn single_prediction_filled_from_response() {
    let stub = prediction_stub(3, "openai--gpt-4".into(), "BFP".into(), 4);
    assert_eq!("", stub.prompt_result);
    let p = with_response(stub, response("extraversion: high", (1, 2, 3)));
    assert_eq!((3, 4), (p.statement_id, p.prompt_version));
    assert_eq!("extraversion: high", p.prompt_result);
    assert_eq!((1, 2, 3), (p.prompt_tokens, p.completion_tokens, p.total_tokens));
}

#[test]
fn response_rows_are_normalised_and_limited() {
    let content = "1|politics|a:s\n2|personal\n3|x|y|z";
    assert_eq!(
        vec!["1|politics|a:s|".to_string(), "2|personal||".to_string()],
        response_rows(content, 2)
    );
    assert_eq!(3, response_rows(content, 10).len());
    assert!(response_rows(content, 0).is_empty());
}
