//! The closed set of enrolled authentication factors.
//!
//! A `Factor` is an immutable snapshot decoded from one login-response
//! fetch. Every variant carries the provider-assigned identifier, the
//! provider, an optional status, and a map from relation name to `Link`;
//! several variants add a kind-specific profile.

use vstd::prelude::*;

use crate::links::Link;

verus! {

/// The party operating a factor.
#[derive(Debug, Clone, Copy, PartialEq, Eq, Structural)]
pub enum FactorProvider {
    Okta,
    Rsa,
    Symantec,
    Google,
    Duo,
    Yubico,
}

/// The lifecycle state of an enrolled factor.
#[derive(Debug, Clone, Copy, PartialEq, Eq, Structural)]
pub enum FactorStatus {
    NotSetup,
    PendingActivation,
    Enrolled,
    Active,
    Inactive,
    Expired,
}

/// In-flight verification state attached to a factor by the provider: a
/// previously-submitted pass code plus an optional next pass code.
#[derive(Debug, Clone, PartialEq, Eq)]
pub struct FactorVerification {
    pub pass_code: String,
    pub next_pass_code: Option<String>,
}

/// Profile of an SMS factor.
#[derive(Debug, Clone, PartialEq, Eq)]
pub struct SmsFactorProfile {
    pub phone_number: String,
}

/// Profile of a voice-call factor.
#[derive(Debug, Clone, PartialEq, Eq)]
pub struct CallFactorProfile {
    pub phone_number: String,
    pub phone_extension: Option<String>,
}

/// Profile of a security-question factor.
#[derive(Debug, Clone, PartialEq, Eq)]
pub struct QuestionFactorProfile {
    pub question: String,
    pub question_text: String,
    pub answer: Option<String>,
}

/// Profile of a one-time-password factor.
#[derive(Debug, Clone, PartialEq, Eq)]
pub struct TokenFactorProfile {
    pub credential_id: String,
}

/// Profile of a web factor.
#[derive(Debug, Clone, PartialEq, Eq)]
pub struct WebFactorProfile {
    pub credential_id: String,
}

/// An enrolled authentication factor: a closed tagged union over the known
/// factor kinds, so that every variant must be handled explicitly and a new
/// kind cannot silently mis-dispatch.
#[derive(Debug, Clone, PartialEq, Eq)]
pub enum Factor {
    Push {
        id: String,
        provider: FactorProvider,
        status: Option<FactorStatus>,
        links: Vec<(String, Link)>,
    },
    Sms {
        id: String,
        provider: FactorProvider,
        status: Option<FactorStatus>,
        profile: SmsFactorProfile,
        links: Vec<(String, Link)>,
    },
    Call {
        id: String,
        provider: FactorProvider,
        status: Option<FactorStatus>,
        profile: CallFactorProfile,
        links: Vec<(String, Link)>,
    },
    Token {
        id: String,
        provider: FactorProvider,
        status: Option<FactorStatus>,
        profile: TokenFactorProfile,
        links: Vec<(String, Link)>,
        verify: Option<FactorVerification>,
    },
    Totp {
        id: String,
        provider: FactorProvider,
        status: Option<FactorStatus>,
        profile: TokenFactorProfile,
        links: Vec<(String, Link)>,
    },
    Hotp {
        id: String,
        provider: FactorProvider,
        status: Option<FactorStatus>,
        profile: TokenFactorProfile,
        links: Vec<(String, Link)>,
        verify: Option<FactorVerification>,
    },
    Question {
        id: String,
        provider: FactorProvider,
        status: Option<FactorStatus>,
        profile: QuestionFactorProfile,
        links: Vec<(String, Link)>,
    },
    Web {
        id: String,
        provider: FactorProvider,
        status: Option<FactorStatus>,
        profile: WebFactorProfile,
        links: Vec<(String, Link)>,
    },
}

/// The human-readable summary of a factor. It names only the factor kind
/// and, where one helps a user pick a factor, the phone number or question
/// text; never an answer, a pass code, or a credential identifier.
pub open spec fn spec_describe(f: Factor) -> Seq<char> {
    match f {
        Factor::Push { .. } => "Okta Verify Push"@,
        Factor::Sms { profile, .. } => "Okta SMS to "@ + profile.phone_number@,
        Factor::Call { profile, .. } => "Okta Call to "@ + profile.phone_number@,
        Factor::Token { .. } => "Okta One-time Password"@,
        Factor::Totp { .. } => "Okta Time-based One-time Password"@,
        Factor::Hotp { .. } => "Okta Hardware One-time Password"@,
        Factor::Question { profile, .. } => "Question: "@ + profile.question_text@,
        Factor::Web { .. } => "Okta Web"@,
    }
}

/// Two factors of the same variant that agree on every non-secret field.
/// The secret material — a question profile's answer, any in-flight pass
/// codes, and credential identifiers — is left entirely free on both
/// sides.
pub open spec fn spec_agree_on_non_secrets(a: Factor, b: Factor) -> bool {
    match (a, b) {
        (
            Factor::Push { id: ia, provider: pa, status: sa, links: la },
            Factor::Push { id: ib, provider: pb, status: sb, links: lb },
        ) => ia == ib && pa == pb && sa == sb && la == lb,
        (
            Factor::Sms { id: ia, provider: pa, status: sa, profile: ra, links: la },
            Factor::Sms { id: ib, provider: pb, status: sb, profile: rb, links: lb },
        ) => ia == ib && pa == pb && sa == sb && ra == rb && la == lb,
        (
            Factor::Call { id: ia, provider: pa, status: sa, profile: ra, links: la },
            Factor::Call { id: ib, provider: pb, status: sb, profile: rb, links: lb },
        ) => ia == ib && pa == pb && sa == sb && ra == rb && la == lb,
        (
            Factor::Token { id: ia, provider: pa, status: sa, links: la, .. },
            Factor::Token { id: ib, provider: pb, status: sb, links: lb, .. },
        ) => ia == ib && pa == pb && sa == sb && la == lb,
        (
            Factor::Totp { id: ia, provider: pa, status: sa, links: la, .. },
            Factor::Totp { id: ib, provider: pb, status: sb, links: lb, .. },
        ) => ia == ib && pa == pb && sa == sb && la == lb,
        (
            Factor::Hotp { id: ia, provider: pa, status: sa, links: la, .. },
            Factor::Hotp { id: ib, provider: pb, status: sb, links: lb, .. },
        ) => ia == ib && pa == pb && sa == sb && la == lb,
        (
            Factor::Question { id: ia, provider: pa, status: sa, profile: ra, links: la },
            Factor::Question { id: ib, provider: pb, status: sb, profile: rb, links: lb },
        ) => ia == ib && pa == pb && sa == sb && ra.question == rb.question && ra.question_text
            == rb.question_text && la == lb,
        (
            Factor::Web { id: ia, provider: pa, status: sa, links: la, .. },
            Factor::Web { id: ib, provider: pb, status: sb, links: lb, .. },
        ) => ia == ib && pa == pb && sa == sb && la == lb,
        _ => false,
    }
}

/// The summary text reads no secret material: any two factors that agree
/// on their non-secret fields render the same text, whatever their
/// answers, in-flight pass codes, or credential identifiers hold.
pub proof fn lemma_describe_hides_secrets(a: Factor, b: Factor)
    requires
        spec_agree_on_non_secrets(a, b),
    ensures
        spec_describe(a) == spec_describe(b),
{
}

impl Factor {
    /// The human-readable summary of this factor, for display when a user
    /// chooses a factor to be challenged with.
    pub fn describe(&self) -> (r: String)
        ensures
            r@ == spec_describe(*self),
    {
        match self {
            Factor::Push { .. } => String::from_str("Okta Verify Push"),
            Factor::Sms { profile, .. } => String::from_str("Okta SMS to ").concat(
                profile.phone_number.as_str(),
            ),
            Factor::Call { profile, .. } => String::from_str("Okta Call to ").concat(
                profile.phone_number.as_str(),
            ),
            Factor::Token { .. } => String::from_str("Okta One-time Password"),
            Factor::Totp { .. } => String::from_str("Okta Time-based One-time Password"),
            Factor::Hotp { .. } => String::from_str("Okta Hardware One-time Password"),
            Factor::Question { profile, .. } => String::from_str("Question: ").concat(
                profile.question_text.as_str(),
            ),
            Factor::Web { .. } => String::from_str("Okta Web"),
        }
    }
}

} // verus!
