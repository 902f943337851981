//! Filing the annual report with Bolagsverket: the three steps of the
//! service (a token, a verification, the submission) and what each answer
//! decides.
use vstd::prelude::*;
use crate::text::{int_text, push_str, to_string};

verus! {

/// Bolagsverket API base URL (production).
pub const PROD_BASE: &'static str = "https://api.bolagsverket.se/lamna-in-arsredovisning/v2.1";

/// Bolagsverket API base URL (test).
pub const TEST_BASE: &'static str = "https://api-test.bolagsverket.se/lamna-in-arsredovisning/v2.1";

/// The answer to a token request.
#[derive(Debug, Clone)]
pub struct TokenResponse {
    /// Token for verification step
    pub kontrolltoken: Option<String>,
    /// Token for submission step
    pub inlamningtoken: Option<String>,
}

/// The answer to a verification.
#[derive(Debug, Clone)]
pub struct VerificationResponse {
    pub status: String,
    /// Errors found during verification
    pub fel: Vec<FilingIssue>,
    /// Warnings found during verification
    pub varningar: Vec<FilingIssue>,
    /// Submission token (available if verification passed)
    pub inlamningtoken: Option<String>,
}

/// An error or a warning that the service reports.
#[derive(Debug, Clone)]
pub struct FilingIssue {
    pub kod: Option<String>,
    pub meddelande: String,
}

/// The answer to a submission.
#[derive(Debug, Clone)]
pub struct SubmissionResponse {
    pub status: String,
    /// Filing reference number from Bolagsverket
    pub arendenummer: Option<String>,
    pub fel: Vec<FilingIssue>,
}

/// Result of the full filing flow.
#[derive(Debug, Clone)]
pub struct FilingResult {
    pub step: FilingStep,
    pub success: bool,
    pub message: String,
    pub verification_errors: Vec<FilingIssue>,
    pub verification_warnings: Vec<FilingIssue>,
    pub submission_reference: Option<String>,
}

/// How far a filing came.
#[derive(Debug, Clone, Copy, PartialEq, Eq, Structural)]
pub enum FilingStep {
    TokenCreated,
    Verified,
    Submitted,
    Failed,
}

/// Why a filing stopped.
#[derive(Debug, Clone)]
pub enum FilingError {
    Network(String),
    Api(String),
    Parse(String),
}

/// The text of a filing error: "Network error: ...", "API error: ...",
/// "Parse error: ...".
pub open spec fn filing_error_text(e: FilingError) -> Seq<char> {
    match e {
        FilingError::Network(m) => "Network error: "@ + m@,
        FilingError::Api(m) => "API error: "@ + m@,
        FilingError::Parse(m) => "Parse error: "@ + m@,
    }
}

impl FilingError {
    /// The text of the error, as `Display` writes it.
    pub fn message(&self) -> (s: String)
        ensures
            s@ == filing_error_text(*self),
    {
        let mut s = String::new();
        match self {
            FilingError::Network(m) => {
                push_str(&mut s, "Network error: ");
                push_str(&mut s, m.as_str());
            },
            FilingError::Api(m) => {
                push_str(&mut s, "API error: ");
                push_str(&mut s, m.as_str());
            },
            FilingError::Parse(m) => {
                push_str(&mut s, "Parse error: ");
                push_str(&mut s, m.as_str());
            },
        }
        s
    }
}

/// The base URL of the service: the test service or production.
pub fn base_url(use_test: bool) -> (s: String)
    ensures
        s@ == (if use_test {
            TEST_BASE@
        } else {
            PROD_BASE@
        }),
{
    if use_test {
        to_string(TEST_BASE)
    } else {
        to_string(PROD_BASE)
    }
}

/// The URL of a step: the base, a slash, the step's path and, for the steps
/// that take one, a slash and the token.
pub open spec fn step_url_text(base: Seq<char>, path: Seq<char>, token: Option<Seq<char>>) -> Seq<char> {
    base + "/"@ + path + match token {
        Some(t) => "/"@ + t,
        None => Seq::empty(),
    }
}

/// The URL that creates a token.
pub fn token_url(base: &str) -> (s: String)
    ensures
        s@ == step_url_text(base@, "skapa-inlamningtoken"@, None),
{
    let mut s = String::new();
    push_str(&mut s, base);
    push_str(&mut s, "/");
    push_str(&mut s, "skapa-inlamningtoken");
    assert(s@ =~= step_url_text(base@, "skapa-inlamningtoken"@, None));
    s
}

/// The URL that verifies a report under a token.
pub fn verify_url(base: &str, token: &str) -> (s: String)
    ensures
        s@ == step_url_text(base@, "kontrollera"@, Some(token@)),
{
    let mut s = String::new();
    push_str(&mut s, base);
    push_str(&mut s, "/");
    push_str(&mut s, "kontrollera");
    push_str(&mut s, "/");
    push_str(&mut s, token);
    assert(s@ =~= step_url_text(base@, "kontrollera"@, Some(token@)));
    s
}

/// The URL that submits a report under a token.
pub fn submit_url(base: &str, token: &str) -> (s: String)
    ensures
        s@ == step_url_text(base@, "inlamning"@, Some(token@)),
{
    let mut s = String::new();
    push_str(&mut s, base);
    push_str(&mut s, "/");
    push_str(&mut s, "inlamning");
    push_str(&mut s, "/");
    push_str(&mut s, token);
    assert(s@ =~= step_url_text(base@, "inlamning"@, Some(token@)));
    s
}

/// The error of a step that the service answered with a failure status:
/// "<what> failed (<status>): <body>".
pub open spec fn http_failure_text(what: Seq<char>, status: Seq<char>, body: Seq<char>) -> Seq<char> {
    what + " failed ("@ + status + "): "@ + body
}

/// The error of a step (`what`: "Token creation", "Verification",
/// "Submission") that the service answered with a failure status.
pub fn http_failure(what: &str, status: &str, body: &str) -> (e: FilingError)
    ensures
        e matches FilingError::Api(m) && m@ == http_failure_text(what@, status@, body@),
{
    let mut m = String::new();
    push_str(&mut m, what);
    push_str(&mut m, " failed (");
    push_str(&mut m, status);
    push_str(&mut m, "): ");
    push_str(&mut m, body);
    assert(m@ =~= http_failure_text(what@, status@, body@));
    FilingError::Api(m)
}

fn copy_opt(o: &Option<String>) -> (r: Option<String>)
    ensures
        crate::sie::types::opt_text(r) == crate::sie::types::opt_text(*o),
{
    crate::sie::types::clone_opt(o)
}

/// The token to verify with, from the answer to the token request; an API
/// error when it holds none.
pub fn verification_token(resp: &TokenResponse) -> (r: Result<String, FilingError>)
    ensures
        match resp.kontrolltoken {
            Some(t) => r matches Ok(x) && x@ == t@,
            None => r matches Err(FilingError::Api(m)) && m@ == "No kontrolltoken in response"@,
        },
{
    match &resp.kontrolltoken {
        Some(t) => Ok(to_string(t.as_str())),
        None => Err(FilingError::Api(to_string("No kontrolltoken in response"))),
    }
}

/// What follows a verification: stop with a failed result, or submit with a token.
#[derive(Debug, Clone)]
pub enum AfterVerification {
    Stop(FilingResult),
    Submit(String),
}

/// The count of issues as text.
pub open spec fn count_text(prefix: Seq<char>, n: int, suffix: Seq<char>) -> Seq<char> {
    prefix + int_text(n) + suffix
}

/// Decide what follows a verification: errors stop the filing (a failed
/// result with the errors and warnings); otherwise the submission token is
/// needed (an API error without one).
pub fn after_verification(resp: VerificationResponse) -> (r: Result<AfterVerification, FilingError>)
    requires
        resp.fel@.len() <= i64::MAX,
    ensures
        resp.fel@.len() > 0 ==> (r matches Ok(AfterVerification::Stop(res)) && res.step == FilingStep::Failed
            && !res.success && res.message@ == count_text(
            "Verifieringen misslyckades med "@,
            resp.fel@.len() as int,
            " fel"@,
        ) && res.verification_errors@ == resp.fel@ && res.verification_warnings@
            == resp.varningar@ && res.submission_reference is None),
        resp.fel@.len() == 0 ==> match resp.inlamningtoken {
            Some(t) => r matches Ok(AfterVerification::Submit(x)) && x@ == t@,
            None => r matches Err(FilingError::Api(m)) && m@ == "No inlamningtoken after verification"@,
        },
{
    if resp.fel.len() > 0 {
        let mut message = String::new();
        push_str(&mut message, "Verifieringen misslyckades med ");
        crate::text::push_int(&mut message, resp.fel.len() as i64);
        push_str(&mut message, " fel");
        assert(message@ =~= count_text(
            "Verifieringen misslyckades med "@,
            resp.fel@.len() as int,
            " fel"@,
        ));
        return Ok(
            AfterVerification::Stop(
                FilingResult {
                    step: FilingStep::Failed,
                    success: false,
                    message,
                    verification_errors: resp.fel,
                    verification_warnings: resp.varningar,
                    submission_reference: None,
                },
            ),
        );
    }
    match &resp.inlamningtoken {
        Some(t) => Ok(AfterVerification::Submit(to_string(t.as_str()))),
        None => Err(FilingError::Api(to_string("No inlamningtoken after verification"))),
    }
}

/// The message of a filing that went through: the reference number, or
/// "(inget nummer)" without one.
pub open spec fn submitted_text(reference: Option<Seq<char>>) -> Seq<char> {
    "Årsredovisningen har lämnats in. Ärendenummer: "@ + match reference {
        Some(r) => r,
        None => "(inget nummer)"@,
    }
}

/// The result of a filing from the answer to its submission and the
/// warnings of its verification: errors make a failed result; otherwise the
/// report is submitted under the reference number the service gave.
pub fn after_submission(resp: SubmissionResponse, warnings: Vec<FilingIssue>) -> (res: FilingResult)
    requires
        resp.fel@.len() <= i64::MAX,
    ensures
        resp.fel@.len() > 0 ==> res.step == FilingStep::Failed && !res.success && res.message@ == count_text(
            "Inlämningen misslyckades med "@,
            resp.fel@.len() as int,
            " fel"@,
        ) && res.verification_errors@ == resp.fel@ && res.verification_warnings@.len() == 0
            && res.submission_reference is None,
        resp.fel@.len() == 0 ==> res.step == FilingStep::Submitted && res.success && res.message@
            == submitted_text(crate::sie::types::opt_text(resp.arendenummer))
            && res.verification_errors@.len() == 0 && res.verification_warnings@ == warnings@
            && crate::sie::types::opt_text(res.submission_reference) == crate::sie::types::opt_text(
            resp.arendenummer,
        ),
{
    if resp.fel.len() > 0 {
        let mut message = String::new();
        push_str(&mut message, "Inlämningen misslyckades med ");
        crate::text::push_int(&mut message, resp.fel.len() as i64);
        push_str(&mut message, " fel");
        assert(message@ =~= count_text("Inlämningen misslyckades med "@, resp.fel@.len() as int, " fel"@));
        return FilingResult {
            step: FilingStep::Failed,
            success: false,
            message,
            verification_errors: resp.fel,
            verification_warnings: Vec::new(),
            submission_reference: None,
        };
    }
    let mut message = String::new();
    push_str(&mut message, "Årsredovisningen har lämnats in. Ärendenummer: ");
    match &resp.arendenummer {
        Some(r) => push_str(&mut message, r.as_str()),
        None => push_str(&mut message, "(inget nummer)"),
    }
    assert(message@ =~= submitted_text(crate::sie::types::opt_text(resp.arendenummer)));
    FilingResult {
        step: FilingStep::Submitted,
        success: true,
        message,
        verification_errors: Vec::new(),
        verification_warnings: warnings,
        submission_reference: copy_opt(&resp.arendenummer),
    }
}

} // verus!
