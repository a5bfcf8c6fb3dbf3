//! A verified core for the multi-factor-authentication challenge step of a
//! login flow against an Okta-style identity provider: the closed set of
//! enrolled factors, hypermedia link resolution, protocol-correct
//! verification request payloads, and the dispatch rules that turn a
//! transport outcome into a typed result or a typed failure.

mod decode;
mod dispatch;
mod error;
mod links;
mod model;
mod request;
mod text;

pub use decode::FactorKind;
pub use decode::FactorPayload;
pub use decode::ProfilePayload;
pub use decode::lemma_decode_yields_matching_variant;
pub use decode::lemma_unknown_discriminator_fails;
pub use decode::spec_decode;
pub use decode::spec_decode_kind;
pub use decode::spec_factor_kind;
pub use decode::spec_kind_of;
pub use decode::spec_provider_of;
pub use decode::spec_status_of;
pub use dispatch::VerifyPlan;
pub use dispatch::verify_outcome;
pub use error::DecodeError;
pub use error::VerificationError;
pub use links::Link;
pub use links::resolve;
pub use links::spec_lookup;
pub use model::CallFactorProfile;
pub use model::Factor;
pub use model::FactorProvider;
pub use model::FactorStatus;
pub use model::FactorVerification;
pub use model::QuestionFactorProfile;
pub use model::SmsFactorProfile;
pub use model::TokenFactorProfile;
pub use model::WebFactorProfile;
pub use model::lemma_describe_hides_secrets;
pub use model::spec_agree_on_non_secrets;
pub use model::spec_describe;
pub use request::FactorVerificationRequest;
pub use request::esc_char;
pub use request::esc_seq;
pub use request::hex_nibble;
pub use request::json_string;
pub use request::lemma_sms_encode_omits_pass_code;
pub use request::spec_encode;
