//! The decisions the web pages take: where to send a voter next, which
//! users a follow-up targets, what a merge of accounts does, and the small
//! pieces of text the pages show.

use base64::engine::general_purpose::STANDARD_NO_PAD;
use base64::Engine;
use qrcode::render::svg;
use qrcode::QrCode;
use vstd::prelude::*;
use vstd::utf8::encode_utf8;

use crate::structs::{PageMeta, TargetSegment, Vote};
use crate::text::{
    append_str, chars_of, decimal, push_decimal, split_chars, split_on, str_eq,
    string_from_chars,
};

verus! {

/// The path of the page of a statement.
pub open spec fn statement_path(id: i64) -> Seq<char> {
    "/statement/"@ + decimal(id as int)
}

/// The path of the page of statement `id`.
pub fn statement_url(id: i64) -> (res: String)
    ensures
        res@ == statement_path(id),
{
    let mut out: Vec<char> = Vec::new();
    append_str(&mut out, "/statement/");
    push_decimal(&mut out, id);
    string_from_chars(&out)
}

/// Whether the page after a vote is the next statement (for yes, no and
/// skip) rather than the "it depends" page.
pub open spec fn spec_needs_next_statement(vote: Vote) -> bool {
    vote != Vote::ItDepends
}

/// Whether a vote is followed by the next statement.
pub fn needs_next_statement(vote: Vote) -> (res: bool)
    ensures
        res == spec_needs_next_statement(vote),
{
    match vote {
        Vote::ItDepends => false,
        _ => true,
    }
}

/// Where the voter is sent after voting `vote` on `statement_id`, given the
/// next statement found for them (looked up only when needed).
pub open spec fn spec_vote_redirect(vote: Vote, statement_id: i64, next: Option<i64>) -> Seq<char> {
    if spec_needs_next_statement(vote) {
        match next {
            Some(id) => statement_path(id),
            None => "/"@,
        }
    } else {
        statement_path(statement_id) + "/itdepends"@
    }
}

/// The location the vote page redirects to.
pub fn vote_redirect(vote: Vote, statement_id: i64, next: Option<i64>) -> (res: String)
    ensures
        res@ == spec_vote_redirect(vote, statement_id, next),
        vote != Vote::ItDepends ==> res@ == match next {
            Some(n) => "/statement/"@ + decimal(n as int),
            None => "/"@,
        },
        vote == Vote::ItDepends ==> res@ == "/statement/"@ + decimal(statement_id as int)
            + "/itdepends"@,
{
    if needs_next_statement(vote) {
        match next {
            Some(id) => statement_url(id),
            None => "/".to_owned(),
        }
    } else {
        let mut out: Vec<char> = Vec::new();
        append_str(&mut out, "/statement/");
        push_decimal(&mut out, statement_id);
        append_str(&mut out, "/itdepends");
        string_from_chars(&out)
    }
}

/// After a yes, a no or a skip the voter is sent to the next statement
/// found for them, whatever the vote, and to the front page only when there
/// is none; after "it depends" they are sent to the page that asks for an
/// alternative to the statement they voted on.
pub proof fn law_vote_redirect_targets(vote: Vote, statement_id: i64, next: Option<i64>)
    ensures
        vote != Vote::ItDepends ==> spec_vote_redirect(vote, statement_id, next) == match next {
            Some(n) => "/statement/"@ + decimal(n as int),
            None => "/"@,
        },
        vote == Vote::ItDepends ==> spec_vote_redirect(vote, statement_id, next) == "/statement/"@
            + decimal(statement_id as int) + "/itdepends"@,
        spec_vote_redirect(Vote::Yes, statement_id, next) == spec_vote_redirect(
            Vote::No,
            statement_id,
            next,
        ),
        spec_vote_redirect(Vote::No, statement_id, next) == spec_vote_redirect(
            Vote::Skip,
            statement_id,
            next,
        ),
{
}

/// The next statement for a user: the oldest in their queue, otherwise a
/// random one they have not voted on.
pub fn next_statement_choice(from_queue: Option<i64>, random_unvoted: Option<i64>) -> (res: Option<
    i64,
>)
    ensures
        res == match from_queue {
            Some(id) => Some(id),
            None => random_unvoted,
        },
{
    match from_queue {
        Some(id) => Some(id),
        None => random_unvoted,
    }
}

/// The users a new statement is shown to, from the form that created it:
/// none without a target, otherwise those who voted as ticked on the target.
pub fn target_segment_from_form(
    target_id: Option<i64>,
    target_yes: Option<bool>,
    target_no: Option<bool>,
) -> (res: Option<TargetSegment>)
    ensures
        match target_id {
            Some(id) => res == Some(
                TargetSegment {
                    statement_id: id,
                    voted_yes: target_yes == Some(true),
                    voted_no: target_no == Some(true),
                },
            ),
            None => res is None,
        },
{
    match target_id {
        Some(id) => Some(
            TargetSegment {
                statement_id: id,
                voted_yes: match target_yes {
                    Some(b) => b,
                    None => false,
                },
                voted_no: match target_no {
                    Some(b) => b,
                    None => false,
                },
            },
        ),
        None => None,
    }
}

/// An "it depends" alternative is shown to everybody who voted on the target.
pub fn alternative_segment(target_id: i64) -> (res: TargetSegment)
    ensures
        res == (TargetSegment { statement_id: target_id, voted_yes: true, voted_no: true }),
{
    TargetSegment { statement_id: target_id, voted_yes: true, voted_no: true }
}

/// Whether a target checkbox of the new statement form starts ticked.
pub fn target_checked(specific: Option<bool>, all: Option<bool>) -> (res: bool)
    ensures
        res == (specific == Some(true) || all == Some(true)),
{
    (match specific {
        Some(b) => b,
        None => false,
    }) || (match all {
        Some(b) => b,
        None => false,
    })
}

/// The answer given on the merge page.
#[derive(Debug, PartialEq, Eq, Clone, Copy, Structural)]
pub enum MergeAnswer {
    Yes,
    No,
    YesWithoutMerge,
}

/// What a merge does.
#[derive(Debug, PartialEq, Eq, Clone, Copy, Structural)]
pub enum MergeOutcome {
    /// There is no user with the target secret.
    TargetMissing,
    /// The target is the current user.
    SameUser,
    /// The user said no.
    Aborted,
    /// Votes and statements move to the target, the old user is deleted.
    MoveContent,
    /// The old user's content and the user are deleted.
    DeleteContent,
}

/// The outcome of a merge of the current user into the user found for the
/// target secret.
pub open spec fn spec_merge_outcome(current_id: i64, target_id: Option<i64>, answer: MergeAnswer) -> MergeOutcome {
    match target_id {
        None => MergeOutcome::TargetMissing,
        Some(t) => if t == current_id {
            MergeOutcome::SameUser
        } else {
            match answer {
                MergeAnswer::Yes => MergeOutcome::MoveContent,
                MergeAnswer::YesWithoutMerge => MergeOutcome::DeleteContent,
                MergeAnswer::No => MergeOutcome::Aborted,
            }
        },
    }
}

/// Decides what merging the current user into the target does.
pub fn merge_outcome(current_id: i64, target_id: Option<i64>, answer: MergeAnswer) -> (res:
    MergeOutcome)
    ensures
        res == spec_merge_outcome(current_id, target_id, answer),
        target_id is None <==> res == MergeOutcome::TargetMissing,
        target_id == Some(current_id) <==> res == MergeOutcome::SameUser,
        target_id is Some && target_id != Some(current_id) ==> res == match answer {
            MergeAnswer::Yes => MergeOutcome::MoveContent,
            MergeAnswer::YesWithoutMerge => MergeOutcome::DeleteContent,
            MergeAnswer::No => MergeOutcome::Aborted,
        },
{
    match target_id {
        None => MergeOutcome::TargetMissing,
        Some(t) => if t == current_id {
            MergeOutcome::SameUser
        } else {
            match answer {
                MergeAnswer::Yes => MergeOutcome::MoveContent,
                MergeAnswer::YesWithoutMerge => MergeOutcome::DeleteContent,
                MergeAnswer::No => MergeOutcome::Aborted,
            }
        },
    }
}

/// A merge never deletes the user it merges into, and only a "yes" moves
/// or deletes anything.
pub proof fn law_merge_changes_only_on_yes(current_id: i64, target_id: Option<i64>, answer: MergeAnswer)
    ensures
        ({
            let o = spec_merge_outcome(current_id, target_id, answer);
            (o == MergeOutcome::MoveContent || o == MergeOutcome::DeleteContent) ==> (answer
                != MergeAnswer::No && target_id is Some && target_id != Some(current_id))
        }),
{
}

/// Merging into another existing account is decided by the answer alone:
/// "yes" moves the content, "yes, but skip merge" deletes it, "no" aborts.
/// Only the current account itself counts as the same user, and only a
/// missing account as missing.
pub proof fn law_merge_outcome_by_answer(current_id: i64, target_id: i64, answer: MergeAnswer)
    ensures
        target_id != current_id ==> spec_merge_outcome(current_id, Some(target_id), answer)
            == match answer {
            MergeAnswer::Yes => MergeOutcome::MoveContent,
            MergeAnswer::YesWithoutMerge => MergeOutcome::DeleteContent,
            MergeAnswer::No => MergeOutcome::Aborted,
        },
        spec_merge_outcome(current_id, Some(current_id), answer) == MergeOutcome::SameUser,
        spec_merge_outcome(current_id, None, answer) == MergeOutcome::TargetMissing,
        spec_merge_outcome(current_id, Some(target_id), answer) == MergeOutcome::SameUser
            <==> target_id == current_id,
{
}

/// The merge page refuses to merge an account with its own secret.
pub fn may_merge(new_secret: &str, current_secret: &str) -> (res: bool)
    ensures
        res == (new_secret@ != current_secret@),
{
    !str_eq(new_secret, current_secret)
}

/// The part of `referer` before its first colon: the protocol.
pub open spec fn referer_protocol(referer: Option<Seq<char>>) -> Seq<char> {
    match referer {
        Some(r) => split_on(r, ':')[0],
        None => "https"@,
    }
}

/// `http(s)://domain`, depending on the protocol of the referer (https when
/// there is none) and the host.
pub fn base_url(referer: Option<&str>, host: &str) -> (res: String)
    ensures
        res@ == referer_protocol(
            match referer {
                Some(r) => Some(r@),
                None => None,
            },
        ) + "://"@ + host@,
{
    let mut out: Vec<char> = Vec::new();
    match referer {
        Some(r) => {
            let chars = chars_of(r);
            let pieces = split_chars(&chars, ':');
            proof {
                crate::csv::lemma_split_pieces_short(chars@, ':');
                crate::text::lemma_char_vec_deep_view(&pieces@[0]);
            }
            let first = &pieces[0];
            let mut i: usize = 0;
            while i < first.len()
                invariant
                    i <= first@.len(),
                    out@ == first@.take(i as int),
                decreases first@.len() - i,
            {
                out.push(first[i]);
                i = i + 1;
                assert(out@ =~= first@.take(i as int));
            }
            assert(first@.take(first@.len() as int) =~= first@);
        },
        None => append_str(&mut out, "https"),
    }
    append_str(&mut out, "://");
    append_str(&mut out, host);
    string_from_chars(&out)
}

/// The link preview of a statement page.
pub fn statement_page_meta(text: &str, base: &str, statement_id: i64) -> (res: PageMeta)
    ensures
        res.title matches Some(t) && t@ == "Yes or no?"@,
        res.description matches Some(d) && d@ == text@,
        res.url matches Some(u) && u@ == base@ + statement_path(statement_id),
{
    let mut url: Vec<char> = chars_of(base);
    append_str(&mut url, "/statement/");
    push_decimal(&mut url, statement_id);
    PageMeta {
        title: Some("Yes or no?".to_owned()),
        description: Some(text.to_owned()),
        url: Some(string_from_chars(&url)),
    }
}

/// The title of a page, "Propolis" when it has none.
pub fn page_title(title: Option<String>) -> (res: String)
    ensures
        match title {
            Some(t) => res == t,
            None => res@ == "Propolis"@,
        },
{
    match title {
        Some(t) => t,
        None => "Propolis".to_owned(),
    }
}

/// The first four characters of a secret, shown as the user's badge.
pub fn secret_badge(secret: &str) -> (res: String)
    ensures
        res@ == secret@.take(if secret@.len() < 4 { secret@.len() as int } else { 4 }),
{
    let chars = chars_of(secret);
    let n: usize = if chars.len() < 4 { chars.len() } else { 4 };
    let mut out: Vec<char> = Vec::new();
    let mut i: usize = 0;
    while i < n
        invariant
            i <= n <= chars@.len(),
            out@ == chars@.take(i as int),
        decreases n - i,
    {
        out.push(chars[i]);
        i = i + 1;
        assert(out@ =~= chars@.take(i as int));
    }
    string_from_chars(&out)
}

/// The address of the merge page for a secret.
pub fn merge_url(base: &str, secret: &str) -> (res: String)
    ensures
        res@ == base@ + "/merge/"@ + secret@,
{
    let mut out: Vec<char> = chars_of(base);
    append_str(&mut out, "/merge/");
    append_str(&mut out, secret);
    string_from_chars(&out)
}

/// The label of a stored vote in the history: "Yes" for 1, "No" for -1,
/// nothing otherwise.
pub fn history_vote_label(vote: i64) -> (res: &'static str)
    ensures
        vote == 1 ==> res@ == "Yes"@,
        vote == -1 ==> res@ == "No"@,
        vote != 1 && vote != -1 ==> res@ == ""@,
{
    if vote == 1 {
        "Yes"
    } else if vote == -1 {
        "No"
    } else {
        ""
    }
}

/// The form of a vote.
#[derive(Debug)]
pub struct VoteForm {
    pub statement_id: i64,
    pub vote: Vote,
}

impl VoteForm {
    /// Where the voter is sent after this vote, given the next statement
    /// found for them.
    pub fn redirect(&self, next: Option<i64>) -> (res: String)
        ensures
            res@ == spec_vote_redirect(self.vote, self.statement_id, next),
    {
        vote_redirect(self.vote, self.statement_id, next)
    }
}

/// The form of the merge page.
#[derive(Debug)]
pub struct MergeForm {
    pub value: MergeAnswer,
}

impl MergeForm {
    /// What merging the current user into the target does with this answer.
    pub fn outcome(&self, current_id: i64, target_id: Option<i64>) -> (res: MergeOutcome)
        ensures
            res == spec_merge_outcome(current_id, target_id, self.value),
    {
        merge_outcome(current_id, target_id, self.value)
    }
}

/// The query of the page that creates a statement.
#[derive(Debug)]
pub struct NewStatementUrlQuery {
    pub target: Option<i64>,
    pub target_yes: Option<bool>,
    pub target_no: Option<bool>,
    pub target_all: Option<bool>,
}

impl NewStatementUrlQuery {
    /// Whether the "yes" voters of the target start ticked.
    pub fn yes_checked(&self) -> (res: bool)
        ensures
            res == (self.target_yes == Some(true) || self.target_all == Some(true)),
    {
        target_checked(self.target_yes, self.target_all)
    }

    /// Whether the "no" voters of the target start ticked.
    pub fn no_checked(&self) -> (res: bool)
        ensures
            res == (self.target_no == Some(true) || self.target_all == Some(true)),
    {
        target_checked(self.target_no, self.target_all)
    }
}

/// The form that creates a statement.
#[derive(Debug)]
pub struct AddStatementForm {
    pub typed_statement: String,
    pub alternative_statement_id: Option<i64>,
    pub target_id: Option<i64>,
    pub target_yes: Option<bool>,
    pub target_no: Option<bool>,
}

impl AddStatementForm {
    /// The users the new statement is shown to as a follow-up.
    pub fn target_segment(&self) -> (res: Option<TargetSegment>)
        ensures
            match self.target_id {
                Some(id) => res == Some(
                    TargetSegment {
                        statement_id: id,
                        voted_yes: self.target_yes == Some(true),
                        voted_no: self.target_no == Some(true),
                    },
                ),
                None => res is None,
            },
    {
        target_segment_from_form(self.target_id, self.target_yes, self.target_no)
    }
}

/// The form that adds an "it depends" alternative to a statement.
#[derive(Debug)]
pub struct ItDependsForm {
    pub typed_statement: String,
    pub alternative_statement_id: Option<i64>,
    pub target_id: i64,
}

impl ItDependsForm {
    /// The users the alternative is shown to: all who voted on the target.
    pub fn target_segment(&self) -> (res: TargetSegment)
        ensures
            res == (TargetSegment { statement_id: self.target_id, voted_yes: true, voted_no: true }),
    {
        alternative_segment(self.target_id)
    }
}

/// The form that marks a statement as unclear.
#[derive(Debug)]
pub struct UnclearForm {
    pub target_id: i64,
    pub typed_statement: String,
    pub referenced_statement_id: Option<i64>,
}

/// The form that follows (subscribes to) a statement.
#[derive(Debug)]
pub struct FollowForm {
    pub statement_id: i64,
}

/// The search form of the front page.
#[derive(Debug)]
pub struct SearchForm {
    pub typed_query: String,
}

/// The character of the standard Base64 alphabet for `v < 64`.
pub open spec fn base64_char(v: nat) -> char {
    if v < 26 {
        (65 + v) as char
    } else if v < 52 {
        (97 + (v - 26)) as char
    } else if v < 62 {
        (48 + (v - 52)) as char
    } else if v == 62 {
        '+'
    } else {
        '/'
    }
}

/// Base64 with the standard alphabet and without padding (RFC 4648,
/// section 4, with the trailing `=` left out).
pub open spec fn base64_no_pad(b: Seq<u8>) -> Seq<char>
    decreases b.len(),
{
    if b.len() == 0 {
        Seq::<char>::empty()
    } else if b.len() == 1 {
        seq![base64_char((b[0] / 4) as nat), base64_char(((b[0] % 4) * 16) as nat)]
    } else if b.len() == 2 {
        seq![
            base64_char((b[0] / 4) as nat),
            base64_char(((b[0] % 4) * 16 + b[1] / 16) as nat),
            base64_char(((b[1] % 16) * 4) as nat),
        ]
    } else {
        seq![
            base64_char((b[0] / 4) as nat),
            base64_char(((b[0] % 4) * 16 + b[1] / 16) as nat),
            base64_char(((b[1] % 16) * 4 + b[2] / 64) as nat),
            base64_char((b[2] % 64) as nat),
        ] + base64_no_pad(b.skip(3))
    }
}

/// Calls `general_purpose::STANDARD_NO_PAD.encode` (base64 0.21), which
/// encodes with the standard alphabet and no padding.
#[verifier::external_body]
fn base64_encode(data: &[u8]) -> (res: String)
    ensures
        res@ == base64_no_pad(data@),
{
    STANDARD_NO_PAD.encode(data)
}

/// The SVG image of the QR code that `QrCode::new` builds for `data`
/// (error correction level M), or `None` when it reports an error, such as
/// for data too long for any QR code.
pub uninterp spec fn qr_svg(data: Seq<u8>) -> Option<Seq<char>>;

/// Calls `QrCode::new` and renders the code with
/// `render::<svg::Color>().build()` (qrcode 0.12); the claim is that the
/// image is a function of the data.
#[verifier::external_body]
fn qr_code_svg(data: &[u8]) -> (res: Option<String>)
    ensures
        match res {
            Some(s) => qr_svg(data@) == Some(s@),
            None => qr_svg(data@) is None,
        },
{
    QrCode::new(data).ok().map(|code| code.render::<svg::Color>().build())
}

/// The QR code of `code` as an SVG image, Base64 encoded.
pub fn qr_code_base64(code: &String) -> (res: String)
    requires
        qr_svg(encode_utf8(code@)) is Some,
    ensures
        res@ == base64_no_pad(encode_utf8(qr_svg(encode_utf8(code@))->0)),
{
    match qr_code_svg(code.as_str().as_bytes()) {
        Some(image) => base64_encode(image.as_str().as_bytes()),
        None => String::new(),
    }
}

/// Like `qr_code_base64`, or `None` when `code` cannot be put in a QR code.
pub fn try_qr_code_base64(code: &String) -> (res: Option<String>)
    ensures
        match qr_svg(encode_utf8(code@)) {
            Some(image) => res matches Some(r) && r@ == base64_no_pad(encode_utf8(image)),
            None => res is None,
        },
{
    match qr_code_svg(code.as_str().as_bytes()) {
        Some(_) => Some(qr_code_base64(code)),
        None => None,
    }
}

} // verus!
