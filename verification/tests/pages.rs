use base64::engine::general_purpose::STANDARD_NO_PAD;
use base64::Engine;
use propolis::auth::{generate_secret, SECRET_LEN};
use propolis::pages::{
    alternative_segment, base_url, history_vote_label, may_merge, merge_outcome, merge_url,
    needs_next_statement, next_statement_choice, page_title, secret_badge, statement_page_meta,
    statement_url, target_checked, target_segment_from_form, try_qr_code_base64, vote_redirect,
    AddStatementForm, ItDependsForm, MergeAnswer, MergeForm, MergeOutcome, NewStatementUrlQuery,
    VoteForm,
};
use propolis::api::ApiStatement;
use propolis::structs::{Statement, TargetSegment, Vote};
use propolis::util::{human_relative_time, human_relative_time_at, try_human_relative_time_at};

#[test]
fn statement_urls() {
    assert_eq!(statement_url(42), "/statement/42");
    assert_eq!(statement_url(0), "/statement/0");
    assert_eq!(statement_url(-7), "/statement/-7");
}

#[test]
fn vote_redirects() {
    assert!(needs_next_statement(Vote::Yes));
    assert!(needs_next_statement(Vote::Skip));
    assert!(!needs_next_statement(Vote::ItDepends));
    assert_eq!(vote_redirect(Vote::Yes, 3, Some(8)), "/statement/8");
    assert_eq!(vote_redirect(Vote::No, 3, None), "/");
    assert_eq!(vote_redirect(Vote::ItDepends, 3, Some(8)), "/statement/3/itdepends");
}

#[test]
fn next_statement_prefers_queue() {
    assert_eq!(next_statement_choice(Some(1), Some(2)), Some(1));
    assert_eq!(next_statement_choice(None, Some(2)), Some(2));
    assert_eq!(next_statement_choice(None, None), None);
}

#[test]
fn target_segments() {
    assert_eq!(target_segment_from_form(None, Some(true), Some(true)), None);
    assert_eq!(
        target_segment_from_form(Some(4), Some(true), None),
        Some(TargetSegment { statement_id: 4, voted_yes: true, voted_no: false })
    );
    assert_eq!(
        alternative_segment(9),
        TargetSegment { statement_id: 9, voted_yes: true, voted_no: true }
    );
    assert!(target_checked(Some(true), None));
    assert!(target_checked(None, Some(true)));
    assert!(!target_checked(Some(false), None));
}

#[test]
fn merge_outcomes() {
    assert_eq!(merge_outcome(1, None, MergeAnswer::Yes), MergeOutcome::TargetMissing);
    assert_eq!(merge_outcome(1, Some(1), MergeAnswer::Yes), MergeOutcome::SameUser);
    assert_eq!(merge_outcome(1, Some(2), MergeAnswer::Yes), MergeOutcome::MoveContent);
    assert_eq!(merge_outcome(1, Some(2), MergeAnswer::YesWithoutMerge), MergeOutcome::DeleteContent);
    assert_eq!(merge_outcome(1, Some(2), MergeAnswer::No), MergeOutcome::Aborted);
    assert!(may_merge("abc", "xyz"));
    assert!(!may_merge("abc", "abc"));
}

#[test]
fn base_urls() {
    assert_eq!(base_url(Some("http://localhost:3000/x"), "localhost:3000"), "http://localhost:3000");
    assert_eq!(base_url(Some("https://example.org/"), "example.org"), "https://example.org");
    assert_eq!(base_url(None, "example.org"), "https://example.org");
    assert_eq!(base_url(Some(""), "h"), "://h");
}

#[test]
fn statement_meta() {
    let m = statement_page_meta("The world is flat.", "https://x.org", 2);
    assert_eq!(m.title.as_deref(), Some("Yes or no?"));
    assert_eq!(m.description.as_deref(), Some("The world is flat."));
    assert_eq!(m.url.as_deref(), Some("https://x.org/statement/2"));
}

#[test]
fn small_texts() {
    assert_eq!(page_title(None), "Propolis");
    assert_eq!(page_title(Some("Hi".to_string())), "Hi");
    assert_eq!(secret_badge("abcdefgh"), "abcd");
    assert_eq!(secret_badge("ab"), "ab");
    assert_eq!(merge_url("https://x.org", "s3cr3t"), "https://x.org/merge/s3cr3t");
    assert_eq!(history_vote_label(1), "Yes");
    assert_eq!(history_vote_label(-1), "No");
    assert_eq!(history_vote_label(0), "");
    assert_eq!(history_vote_label(2), "");
}

#[test]
fn qr_code_is_base64_of_an_svg() {
    let code = "https://x.org/merge/abcd".to_string();
    let b64 = try_qr_code_base64(&code).unwrap();
    assert!(!b64.contains('='));
    assert!(b64.chars().all(|c| c.is_ascii_alphanumeric() || c == '+' || c == '/'));
    let svg = String::from_utf8(STANDARD_NO_PAD.decode(b64.as_bytes()).unwrap()).unwrap();
    assert!(svg.contains("<svg"));
    assert_ne!(b64, code);
}

#[test]
fn qr_code_refuses_too_much_data() {
    let code = "x".repeat(10000);
    assert_eq!(try_qr_code_base64(&code), None);
}

#[test]
fn relative_times() {
    assert_eq!(human_relative_time_at(1000 - 10, 1000), "a few seconds ago");
    assert_eq!(human_relative_time_at(10000 - 3600, 10000), "an hour ago");
    assert_eq!(human_relative_time_at(1000 + 10, 1000), "in a few seconds");
    assert_eq!(try_human_relative_time_at(5, 5).as_deref(), Some("in a few seconds"));
}

#[test]
fn secrets_are_alphanumeric() {
    let a = generate_secret();
    let b = generate_secret();
    assert_eq!(a.chars().count(), SECRET_LEN);
    assert!(a.chars().all(|c| c.is_ascii_alphanumeric()));
    assert_ne!(a, b);
}

#[test]
fn forms_decide() {
    let v = VoteForm { statement_id: 3, vote: Vote::ItDepends };
    assert_eq!(v.redirect(Some(4)), "/statement/3/itdepends");
    let v = VoteForm { statement_id: 3, vote: Vote::Yes };
    assert_eq!(v.redirect(Some(4)), "/statement/4");
    let m = MergeForm { value: MergeAnswer::YesWithoutMerge };
    assert_eq!(m.outcome(1, Some(2)), MergeOutcome::DeleteContent);
    let q = NewStatementUrlQuery { target: Some(2), target_yes: None, target_no: Some(true), target_all: None };
    assert!(!q.yes_checked());
    assert!(q.no_checked());
    let q = NewStatementUrlQuery { target: Some(2), target_yes: None, target_no: None, target_all: Some(true) };
    assert!(q.yes_checked() && q.no_checked());
    let f = AddStatementForm {
        typed_statement: "The universe is flat.".into(),
        alternative_statement_id: None,
        target_id: Some(2),
        target_yes: Some(true),
        target_no: None,
    };
    assert_eq!(f.target_segment(), Some(TargetSegment { statement_id: 2, voted_yes: true, voted_no: false }));
    let f = ItDependsForm { typed_statement: "x".into(), alternative_statement_id: Some(5), target_id: 2 };
    assert_eq!(f.target_segment(), TargetSegment { statement_id: 2, voted_yes: true, voted_no: true });
}

#[test]
fn api_statement_keeps_fields() {
    let a = ApiStatement::from_statement(Statement { id: 2, text: "The world is flat.".into() });
    assert_eq!(a.id, 2);
    assert_eq!(a.text, "The world is flat.");
}

#[test]
fn relative_time_now() {
    let ten_seconds_ago = chrono::Utc::now().timestamp() - 10;
    assert_eq!(human_relative_time(ten_seconds_ago).as_deref(), Some("a few seconds ago"));
    assert_eq!(human_relative_time(i64::MIN), None);
}
