//! Decoding an inbound factor payload into exactly one `Factor` variant.
//!
//! The wire payload is a JSON object whose `factorType` member discriminates
//! the variant; `provider` and `status` carry upper-snake-case enum tokens,
//! and the per-kind profile supplies the variant's required fields. A
//! payload arrives here with its structure already read off the wire into
//! plain values; this module holds the rules: which discriminators are
//! known, which fields each kind requires, and that an unrecognized
//! discriminator fails with a typed error rather than defaulting.

use vstd::prelude::*;

use crate::error::DecodeError;
use crate::links::Link;
use crate::model::CallFactorProfile;
use crate::model::Factor;
use crate::model::FactorProvider;
use crate::model::FactorStatus;
use crate::model::FactorVerification;
use crate::model::QuestionFactorProfile;
use crate::model::SmsFactorProfile;
use crate::model::TokenFactorProfile;
use crate::model::WebFactorProfile;
use crate::text::str_eq;

verus! {

/// The kind a `factorType` discriminator selects.
#[derive(Debug, Clone, Copy, PartialEq, Eq, Structural)]
pub enum FactorKind {
    Push,
    Sms,
    Call,
    Token,
    Totp,
    Hotp,
    Question,
    Web,
}

/// One factor object as read off the wire, with every member held as a
/// plain value: the discriminator and enum tokens as the raw strings the
/// provider sent, the profile members each optional, and the relation map
/// in entry order.
#[derive(Debug, Clone, PartialEq, Eq)]
pub struct FactorPayload {
    pub factor_type: String,
    pub id: String,
    pub provider: String,
    pub status: Option<String>,
    pub profile: Option<ProfilePayload>,
    pub links: Vec<(String, Link)>,
    pub verify: Option<FactorVerification>,
}

/// The union of all per-kind profile members, each optional on the wire;
/// which of them are required is decided by the factor kind.
#[derive(Debug, Clone, PartialEq, Eq)]
pub struct ProfilePayload {
    pub phone_number: Option<String>,
    pub phone_extension: Option<String>,
    pub question: Option<String>,
    pub question_text: Option<String>,
    pub answer: Option<String>,
    pub credential_id: Option<String>,
}

/// The factor kind a `factorType` token selects, if any.
pub open spec fn spec_kind_of(t: Seq<char>) -> Option<FactorKind> {
    if t == "push"@ {
        Some(FactorKind::Push)
    } else if t == "sms"@ {
        Some(FactorKind::Sms)
    } else if t == "call"@ {
        Some(FactorKind::Call)
    } else if t == "token"@ {
        Some(FactorKind::Token)
    } else if t == "token:software:totp"@ {
        Some(FactorKind::Totp)
    } else if t == "token:hardware"@ {
        Some(FactorKind::Hotp)
    } else if t == "question"@ {
        Some(FactorKind::Question)
    } else if t == "web"@ {
        Some(FactorKind::Web)
    } else {
        None
    }
}

/// The provider an upper-snake-case provider token selects, if any.
pub open spec fn spec_provider_of(t: Seq<char>) -> Option<FactorProvider> {
    if t == "OKTA"@ {
        Some(FactorProvider::Okta)
    } else if t == "RSA"@ {
        Some(FactorProvider::Rsa)
    } else if t == "SYMANTEC"@ {
        Some(FactorProvider::Symantec)
    } else if t == "GOOGLE"@ {
        Some(FactorProvider::Google)
    } else if t == "DUO"@ {
        Some(FactorProvider::Duo)
    } else if t == "YUBICO"@ {
        Some(FactorProvider::Yubico)
    } else {
        None
    }
}

/// The status an upper-snake-case status token selects, if any.
pub open spec fn spec_status_of(t: Seq<char>) -> Option<FactorStatus> {
    if t == "NOT_SETUP"@ {
        Some(FactorStatus::NotSetup)
    } else if t == "PENDING_ACTIVATION"@ {
        Some(FactorStatus::PendingActivation)
    } else if t == "ENROLLED"@ {
        Some(FactorStatus::Enrolled)
    } else if t == "ACTIVE"@ {
        Some(FactorStatus::Active)
    } else if t == "INACTIVE"@ {
        Some(FactorStatus::Inactive)
    } else if t == "EXPIRED"@ {
        Some(FactorStatus::Expired)
    } else {
        None
    }
}

/// The factor's decode, stated as a value: the discriminator selects the
/// kind, unknown discriminator / provider / status tokens fail with the
/// matching typed error, and each kind requires exactly its declared
/// profile fields. No input ever defaults to a variant.
pub open spec fn spec_decode(p: FactorPayload) -> Result<Factor, DecodeError> {
    match spec_kind_of(p.factor_type@) {
        Option::None => Err(DecodeError::UnknownFactorType { token: p.factor_type }),
        Option::Some(kind) => match spec_provider_of(p.provider@) {
            Option::None => Err(DecodeError::UnknownProvider { token: p.provider }),
            Option::Some(provider) => match p.status {
                Option::Some(s) => if spec_status_of(s@) is None {
                    Err(DecodeError::UnknownStatus { token: s })
                } else {
                    spec_decode_kind(p, kind, provider, spec_status_of(s@))
                },
                Option::None => spec_decode_kind(p, kind, provider, None),
            },
        },
    }
}

/// The per-kind step of `spec_decode`: the required profile fields of the
/// selected kind, and the variant they populate.
pub open spec fn spec_decode_kind(
    p: FactorPayload,
    kind: FactorKind,
    provider: FactorProvider,
    status: Option<FactorStatus>,
) -> Result<Factor, DecodeError> {
    match kind {
        FactorKind::Push => Ok(
            Factor::Push { id: p.id, provider, status, links: p.links },
        ),
        FactorKind::Sms => match p.profile {
            Option::None => Err(DecodeError::MissingProfile),
            Option::Some(pr) => match pr.phone_number {
                Option::None => Err(DecodeError::MissingPhoneNumber),
                Option::Some(phone_number) => Ok(
                    Factor::Sms {
                        id: p.id,
                        provider,
                        status,
                        profile: SmsFactorProfile { phone_number },
                        links: p.links,
                    },
                ),
            },
        },
        FactorKind::Call => match p.profile {
            Option::None => Err(DecodeError::MissingProfile),
            Option::Some(pr) => match pr.phone_number {
                Option::None => Err(DecodeError::MissingPhoneNumber),
                Option::Some(phone_number) => Ok(
                    Factor::Call {
                        id: p.id,
                        provider,
                        status,
                        profile: CallFactorProfile {
                            phone_number,
                            phone_extension: pr.phone_extension,
                        },
                        links: p.links,
                    },
                ),
            },
        },
        FactorKind::Token => match p.profile {
            Option::None => Err(DecodeError::MissingProfile),
            Option::Some(pr) => match pr.credential_id {
                Option::None => Err(DecodeError::MissingCredentialId),
                Option::Some(credential_id) => Ok(
                    Factor::Token {
                        id: p.id,
                        provider,
                        status,
                        profile: TokenFactorProfile { credential_id },
                        links: p.links,
                        verify: p.verify,
                    },
                ),
            },
        },
        FactorKind::Totp => match p.profile {
            Option::None => Err(DecodeError::MissingProfile),
            Option::Some(pr) => match pr.credential_id {
                Option::None => Err(DecodeError::MissingCredentialId),
                Option::Some(credential_id) => Ok(
                    Factor::Totp {
                        id: p.id,
                        provider,
                        status,
                        profile: TokenFactorProfile { credential_id },
                        links: p.links,
                    },
                ),
            },
        },
        FactorKind::Hotp => match p.profile {
            Option::None => Err(DecodeError::MissingProfile),
            Option::Some(pr) => match pr.credential_id {
                Option::None => Err(DecodeError::MissingCredentialId),
                Option::Some(credential_id) => Ok(
                    Factor::Hotp {
                        id: p.id,
                        provider,
                        status,
                        profile: TokenFactorProfile { credential_id },
                        links: p.links,
                        verify: p.verify,
                    },
                ),
            },
        },
        FactorKind::Question => match p.profile {
            Option::None => Err(DecodeError::MissingProfile),
            Option::Some(pr) => match pr.question {
                Option::None => Err(DecodeError::MissingQuestion),
                Option::Some(question) => match pr.question_text {
                    Option::None => Err(DecodeError::MissingQuestionText),
                    Option::Some(question_text) => Ok(
                        Factor::Question {
                            id: p.id,
                            provider,
                            status,
                            profile: QuestionFactorProfile {
                                question,
                                question_text,
                                answer: pr.answer,
                            },
                            links: p.links,
                        },
                    ),
                },
            },
        },
        FactorKind::Web => match p.profile {
            Option::None => Err(DecodeError::MissingProfile),
            Option::Some(pr) => match pr.credential_id {
                Option::None => Err(DecodeError::MissingCredentialId),
                Option::Some(credential_id) => Ok(
                    Factor::Web {
                        id: p.id,
                        provider,
                        status,
                        profile: WebFactorProfile { credential_id },
                        links: p.links,
                    },
                ),
            },
        },
    }
}

/// The kind of an already-decoded factor.
pub open spec fn spec_factor_kind(f: Factor) -> FactorKind {
    match f {
        Factor::Push { .. } => FactorKind::Push,
        Factor::Sms { .. } => FactorKind::Sms,
        Factor::Call { .. } => FactorKind::Call,
        Factor::Token { .. } => FactorKind::Token,
        Factor::Totp { .. } => FactorKind::Totp,
        Factor::Hotp { .. } => FactorKind::Hotp,
        Factor::Question { .. } => FactorKind::Question,
        Factor::Web { .. } => FactorKind::Web,
    }
}

/// Decoding never mis-dispatches: whenever it succeeds, the variant it
/// yields is exactly the one the payload's `factorType` discriminator
/// selects.
pub proof fn lemma_decode_yields_matching_variant(p: FactorPayload)
    ensures
        spec_decode(p) matches Ok(f) ==> spec_kind_of(p.factor_type@) == Some(spec_factor_kind(f)),
{
}

/// An unrecognized discriminator never defaults to a variant: decoding
/// fails with the unknown-factor-type error carrying the offending token.
pub proof fn lemma_unknown_discriminator_fails(p: FactorPayload)
    requires
        spec_kind_of(p.factor_type@) is None,
    ensures
        spec_decode(p) == Err::<Factor, DecodeError>(
            DecodeError::UnknownFactorType { token: p.factor_type },
        ),
{
}

fn kind_of(t: &str) -> (r: Option<FactorKind>)
    ensures
        r == spec_kind_of(t@),
{
    if str_eq(t, "push") {
        Some(FactorKind::Push)
    } else if str_eq(t, "sms") {
        Some(FactorKind::Sms)
    } else if str_eq(t, "call") {
        Some(FactorKind::Call)
    } else if str_eq(t, "token") {
        Some(FactorKind::Token)
    } else if str_eq(t, "token:software:totp") {
        Some(FactorKind::Totp)
    } else if str_eq(t, "token:hardware") {
        Some(FactorKind::Hotp)
    } else if str_eq(t, "question") {
        Some(FactorKind::Question)
    } else if str_eq(t, "web") {
        Some(FactorKind::Web)
    } else {
        None
    }
}

fn provider_of(t: &str) -> (r: Option<FactorProvider>)
    ensures
        r == spec_provider_of(t@),
{
    if str_eq(t, "OKTA") {
        Some(FactorProvider::Okta)
    } else if str_eq(t, "RSA") {
        Some(FactorProvider::Rsa)
    } else if str_eq(t, "SYMANTEC") {
        Some(FactorProvider::Symantec)
    } else if str_eq(t, "GOOGLE") {
        Some(FactorProvider::Google)
    } else if str_eq(t, "DUO") {
        Some(FactorProvider::Duo)
    } else if str_eq(t, "YUBICO") {
        Some(FactorProvider::Yubico)
    } else {
        None
    }
}

fn status_of(t: &str) -> (r: Option<FactorStatus>)
    ensures
        r == spec_status_of(t@),
{
    if str_eq(t, "NOT_SETUP") {
        Some(FactorStatus::NotSetup)
    } else if str_eq(t, "PENDING_ACTIVATION") {
        Some(FactorStatus::PendingActivation)
    } else if str_eq(t, "ENROLLED") {
        Some(FactorStatus::Enrolled)
    } else if str_eq(t, "ACTIVE") {
        Some(FactorStatus::Active)
    } else if str_eq(t, "INACTIVE") {
        Some(FactorStatus::Inactive)
    } else if str_eq(t, "EXPIRED") {
        Some(FactorStatus::Expired)
    } else {
        None
    }
}

impl Factor {
    /// Decode one wire payload into exactly one `Factor` variant, or fail
    /// with the typed decode error `spec_decode` assigns to it.
    pub fn decode(p: FactorPayload) -> (r: Result<Factor, DecodeError>)
        ensures
            r == spec_decode(p),
    {
        let FactorPayload { factor_type, id, provider, status, profile, links, verify } = p;
        let kind = match kind_of(factor_type.as_str()) {
            Some(k) => k,
            None => {
                return Err(DecodeError::UnknownFactorType { token: factor_type });
            },
        };
        let provider = match provider_of(provider.as_str()) {
            Some(pv) => pv,
            None => {
                return Err(DecodeError::UnknownProvider { token: provider });
            },
        };
        let status: Option<FactorStatus> = match status {
            Some(s) => match status_of(s.as_str()) {
                Some(st) => Some(st),
                None => {
                    return Err(DecodeError::UnknownStatus { token: s });
                },
            },
            None => None,
        };
        match kind {
            FactorKind::Push => Ok(Factor::Push { id, provider, status, links }),
            FactorKind::Sms => match profile {
                None => Err(DecodeError::MissingProfile),
                Some(pr) => match pr.phone_number {
                    None => Err(DecodeError::MissingPhoneNumber),
                    Some(phone_number) => Ok(
                        Factor::Sms {
                            id,
                            provider,
                            status,
                            profile: SmsFactorProfile { phone_number },
                            links,
                        },
                    ),
                },
            },
            FactorKind::Call => match profile {
                None => Err(DecodeError::MissingProfile),
                Some(pr) => match pr.phone_number {
                    None => Err(DecodeError::MissingPhoneNumber),
                    Some(phone_number) => Ok(
                        Factor::Call {
                            id,
                            provider,
                            status,
                            profile: CallFactorProfile {
                                phone_number,
                                phone_extension: pr.phone_extension,
                            },
                            links,
                        },
                    ),
                },
            },
            FactorKind::Token => match profile {
                None => Err(DecodeError::MissingProfile),
                Some(pr) => match pr.credential_id {
                    None => Err(DecodeError::MissingCredentialId),
                    Some(credential_id) => Ok(
                        Factor::Token {
                            id,
                            provider,
                            status,
                            profile: TokenFactorProfile { credential_id },
                            links,
                            verify,
                        },
                    ),
                },
            },
            FactorKind::Totp => match profile {
                None => Err(DecodeError::MissingProfile),
                Some(pr) => match pr.credential_id {
                    None => Err(DecodeError::MissingCredentialId),
                    Some(credential_id) => Ok(
                        Factor::Totp {
                            id,
                            provider,
                            status,
                            profile: TokenFactorProfile { credential_id },
                            links,
                        },
                    ),
                },
            },
            FactorKind::Hotp => match profile {
                None => Err(DecodeError::MissingProfile),
                Some(pr) => match pr.credential_id {
                    None => Err(DecodeError::MissingCredentialId),
                    Some(credential_id) => Ok(
                        Factor::Hotp {
                            id,
                            provider,
                            status,
                            profile: TokenFactorProfile { credential_id },
                            links,
                            verify,
                        },
                    ),
                },
            },
            FactorKind::Question => match profile {
                None => Err(DecodeError::MissingProfile),
                Some(pr) => match pr.question {
                    None => Err(DecodeError::MissingQuestion),
                    Some(question) => match pr.question_text {
                        None => Err(DecodeError::MissingQuestionText),
                        Some(question_text) => Ok(
                            Factor::Question {
                                id,
                                provider,
                                status,
                                profile: QuestionFactorProfile {
                                    question,
                                    question_text,
                                    answer: pr.answer,
                                },
                                links,
                            },
                        ),
                    },
                },
            },
            FactorKind::Web => match profile {
                None => Err(DecodeError::MissingProfile),
                Some(pr) => match pr.credential_id {
                    None => Err(DecodeError::MissingCredentialId),
                    Some(credential_id) => Ok(
                        Factor::Web {
                            id,
                            provider,
                            status,
                            profile: WebFactorProfile { credential_id },
                            links,
                        },
                    ),
                },
            },
        }
    }
}

} // verus!
