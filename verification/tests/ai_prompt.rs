use propolis::ai_prompt::api::{
    AiEnvInfo, AiMessage, AiPrompt, AiRole, AsPromptResponse, CheckResult, PromptInfo,
    PromptResponse,
};
use propolis::ai_prompt::openai::{
    chat_response, moderation_input, moderation_verdict, ModerationCategories, ModerationError,
    ModerationResult, OpenAiEnv, OpenAiModel, TokenUsage,
};
use propolis::prediction::prompts::{GenericPrompt, ResponseHandler};

fn env_info() -> AiEnvInfo {
    AiEnvInfo { name: "openai".into(), model: "gpt-4".into(), check_model: None }
}

#[test]
fn messages_have_their_roles() {
    let m = AiMessage::system("s");
    assert_eq!(AiRole::System, m.role);
    assert_eq!("s", m.content);
    let m = AiMessage::user("u");
    assert_eq!(AiRole::User, m.role);
    assert_eq!("u", m.content);
    let m = AiMessage::assistant("a");
    assert_eq!(AiRole::Assistant, m.role);
    assert_eq!("a", m.content);
}

#[test]
fn env_info_label_is_model_then_name() {
    assert_eq!("gpt-4,openai", String::from(env_info()));
    assert_eq!("gpt-4,openai", env_info().label());
}

#[test]
fn model_names() {
    let s: &str = OpenAiModel::Gpt4.into();
    assert_eq!("gpt-4", s);
    let s: &str = OpenAiModel::Gpt35Turbo.into();
    assert_eq!("gpt-3.5-turbo", s);
    let s: &str = OpenAiModel::Gpt35TextDavinci003.into();
    assert_eq!("text-davinci-003", s);
    let s: &str = OpenAiModel::Gpt35TextDavinci002.into();
    assert_eq!("text-davinci-002", s);
    let s: &str = OpenAiModel::Gpt35CodeDavinci002.into();
    assert_eq!("code-davinci-002", s);
}

#[test]
fn openai_env_from_model() {
    let env = OpenAiEnv::from(OpenAiModel::Gpt35Turbo);
    assert_eq!(OpenAiEnv { model: "gpt-3.5-turbo", check_model: "text-moderation-stable" }, env);
    let info = env.info();
    assert_eq!("openai", info.name);
    assert_eq!("gpt-3.5-turbo", info.model);
    assert_eq!(Some("text-moderation-stable".to_string()), info.check_model);
    assert_eq!("openai--gpt-3.5-turbo", env.name());
}

#[test]
fn moderation_input_puts_each_message_on_a_line() {
    let primer = vec![AiMessage::system("a"), AiMessage::user("b c")];
    assert_eq!("\na\nb c", moderation_input(&primer));
    assert_eq!("", moderation_input(&vec![]));
}

fn categories(hate: bool, violence: bool) -> ModerationCategories {
    ModerationCategories {
        hate,
        hate_threatening: false,
        self_harm: false,
        sexual: false,
        sexual_minors: false,
        violence,
        violence_graphic: false,
    }
}

#[test]
fn moderation_verdict_first_result_decides() {
    assert!(matches!(moderation_verdict(&vec![]), Err(ModerationError::EmptyResult)));
    let clear = ModerationResult { flagged: false, categories: categories(false, false) };
    assert!(matches!(moderation_verdict(&vec![clear]), Ok(CheckResult::Passed)));
    let flagged = ModerationResult { flagged: true, categories: categories(true, false) };
    match moderation_verdict(&vec![flagged, clear]) {
        Ok(CheckResult::Flagged(json)) => assert_eq!(
            "[{\"hate\":true,\"hate_threatening\":false,\"self_harm\":false,\"sexual\":false,\"sexual_minors\":false,\"violence\":false,\"violence_graphic\":false}]",
            json
        ),
        other => panic!("unexpected {other:?}"),
    }
}

#[test]
fn chat_response_counts_missing_usage_as_zero() {
    let info = PromptInfo { name: "p".into(), version: 1 };
    let r = chat_response(env_info(), info.clone(), "c".into(), None);
    assert_eq!((0, 0, 0), (r.prompt_tokens(), r.completion_tokens(), r.total_tokens()));
    let usage = TokenUsage { prompt_tokens: 3, completion_tokens: 4, total_tokens: 7 };
    let r = chat_response(env_info(), info, "c".into(), Some(usage));
    assert_eq!((3, 4, 7), (r.prompt_tokens(), r.completion_tokens(), r.total_tokens()));
    assert_eq!("c", r.content());
}

#[test]
fn generic_prompt_info_and_handler() {
    let p = GenericPrompt {
        name: "n".into(),
        version: 2,
        primer: vec![],
        handler: ResponseHandler::StripHeader,
    };
    let info = p.info();
    assert_eq!("n", info.name);
    assert_eq!(2, info.version);
    let r = PromptResponse {
        env_info: env_info(),
        prompt_info: info,
        content: "num|cat\n 1|politics \n".into(),
        prompt_tokens: 1,
        completion_tokens: 2,
        total_tokens: 3,
    };
    let handled = p.handle_response(r);
    assert_eq!("1|politics", handled.content);
    assert_eq!(3, handled.total_tokens);
}
