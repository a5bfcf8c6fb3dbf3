use okta_mfa::CallFactorProfile;
use okta_mfa::Factor;
use okta_mfa::FactorProvider;
use okta_mfa::FactorStatus;
use okta_mfa::FactorVerification;
use okta_mfa::Link;
use okta_mfa::QuestionFactorProfile;
use okta_mfa::SmsFactorProfile;
use okta_mfa::TokenFactorProfile;
use okta_mfa::WebFactorProfile;

fn links() -> Vec<(String, Link)> {
    vec![(
        String::from("verify"),
        Link::Single { href: String::from("https://example.com/verify") },
    )]
}

#[test]
fn sms_description_is_exact() {
    let f = Factor::Sms {
        id: String::from("fid"),
        provider: FactorProvider::Okta,
        status: Some(FactorStatus::Active),
        profile: SmsFactorProfile { phone_number: String::from("+15551234567") },
        links: links(),
    };
    assert_eq!(f.describe(), "Okta SMS to +15551234567");
}

#[test]
fn push_description() {
    let f = Factor::Push {
        id: String::from("fid"),
        provider: FactorProvider::Okta,
        status: None,
        links: links(),
    };
    assert_eq!(f.describe(), "Okta Verify Push");
}

#[test]
fn call_description() {
    let f = Factor::Call {
        id: String::from("fid"),
        provider: FactorProvider::Okta,
        status: None,
        profile: CallFactorProfile {
            phone_number: String::from("+15557654321"),
            phone_extension: Some(String::from("9")),
        },
        links: links(),
    };
    assert_eq!(f.describe(), "Okta Call to +15557654321");
}

#[test]
fn token_descriptions() {
    let profile = TokenFactorProfile { credential_id: String::from("cred") };
    let token = Factor::Token {
        id: String::from("fid"),
        provider: FactorProvider::Rsa,
        status: None,
        profile: profile.clone(),
        links: links(),
        verify: None,
    };
    let totp = Factor::Totp {
        id: String::from("fid"),
        provider: FactorProvider::Google,
        status: None,
        profile: profile.clone(),
        links: links(),
    };
    let hotp = Factor::Hotp {
        id: String::from("fid"),
        provider: FactorProvider::Yubico,
        status: None,
        profile,
        links: links(),
        verify: None,
    };
    assert_eq!(token.describe(), "Okta One-time Password");
    assert_eq!(totp.describe(), "Okta Time-based One-time Password");
    assert_eq!(hotp.describe(), "Okta Hardware One-time Password");
}

#[test]
fn question_description_is_the_question_text() {
    let f = Factor::Question {
        id: String::from("fid"),
        provider: FactorProvider::Okta,
        status: None,
        profile: QuestionFactorProfile {
            question: String::from("disliked_food"),
            question_text: String::from("What is the food you least liked as a child?"),
            answer: Some(String::from("broccoli")),
        },
        links: links(),
    };
    assert_eq!(
        f.describe(),
        "Question: What is the food you least liked as a child?"
    );
}

#[test]
fn web_description() {
    let f = Factor::Web {
        id: String::from("fid"),
        provider: FactorProvider::Duo,
        status: None,
        profile: WebFactorProfile { credential_id: String::from("cred") },
        links: links(),
    };
    assert_eq!(f.describe(), "Okta Web");
}

#[test]
fn description_never_carries_answer_or_pass_code() {
    let with_secrets = Factor::Question {
        id: String::from("fid"),
        provider: FactorProvider::Okta,
        status: None,
        profile: QuestionFactorProfile {
            question: String::from("disliked_food"),
            question_text: String::from("What is the food you least liked as a child?"),
            answer: Some(String::from("broccoli")),
        },
        links: links(),
    };
    let without_secrets = Factor::Question {
        id: String::from("fid"),
        provider: FactorProvider::Okta,
        status: None,
        profile: QuestionFactorProfile {
            question: String::from("disliked_food"),
            question_text: String::from("What is the food you least liked as a child?"),
            answer: None,
        },
        links: links(),
    };
    assert_eq!(with_secrets.describe(), without_secrets.describe());
    assert!(!with_secrets.describe().contains("broccoli"));

    let hotp = Factor::Hotp {
        id: String::from("fid"),
        provider: FactorProvider::Yubico,
        status: None,
        profile: TokenFactorProfile { credential_id: String::from("cred") },
        links: links(),
        verify: Some(FactorVerification {
            pass_code: String::from("999000"),
            next_pass_code: Some(String::from("000999")),
        }),
    };
    assert!(!hotp.describe().contains("999000"));
    assert!(!hotp.describe().contains("cred"));

    let other_credential = Factor::Hotp {
        id: String::from("fid"),
        provider: FactorProvider::Yubico,
        status: None,
        profile: TokenFactorProfile { credential_id: String::from("another-cred") },
        links: links(),
        verify: None,
    };
    assert_eq!(hotp.describe(), other_credential.describe());
}
