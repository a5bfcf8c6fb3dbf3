use okta_mfa::Factor;
use okta_mfa::FactorProvider;
use okta_mfa::FactorStatus;
use okta_mfa::FactorVerificationRequest;
use okta_mfa::Link;
use okta_mfa::SmsFactorProfile;
use okta_mfa::TokenFactorProfile;
use okta_mfa::VerificationError;
use okta_mfa::WebFactorProfile;
use okta_mfa::QuestionFactorProfile;
use okta_mfa::CallFactorProfile;
use okta_mfa::verify_outcome;

fn sms_factor(links: Vec<(String, Link)>) -> Factor {
    Factor::Sms {
        id: String::from("fid"),
        provider: FactorProvider::Okta,
        status: Some(FactorStatus::Active),
        profile: SmsFactorProfile { phone_number: String::from("+15551234567") },
        links,
    }
}

fn sms_request() -> FactorVerificationRequest {
    FactorVerificationRequest::Sms {
        state_token: String::from("t"),
        pass_code: None,
    }
}

#[derive(Debug, Clone, PartialEq, Eq)]
struct LoginOutcome {
    state_token: String,
    status: String,
}

#[test]
fn sms_plan_resolves_verify_link_and_encodes_request() {
    let f = sms_factor(vec![(
        String::from("verify"),
        Link::Single { href: String::from("https://example.com/verify/sms") },
    )]);
    let plan = f.verify_plan(&sms_request()).unwrap();
    assert_eq!(plan.url, "https://example.com/verify/sms");
    assert_eq!(plan.body, "{\"stateToken\":\"t\"}");
}

#[test]
fn sms_plan_uses_first_of_many_links() {
    let f = sms_factor(vec![(
        String::from("verify"),
        Link::Multi {
            hrefs: vec![
                String::from("https://example.com/one"),
                String::from("https://example.com/two"),
            ],
        },
    )]);
    let plan = f.verify_plan(&sms_request()).unwrap();
    assert_eq!(plan.url, "https://example.com/one");
}

#[test]
fn sms_plan_missing_relation_is_protocol_error() {
    let f = sms_factor(vec![(
        String::from("activate"),
        Link::Single { href: String::from("https://example.com/activate") },
    )]);
    assert_eq!(
        f.verify_plan(&sms_request()),
        Err(VerificationError::MissingRelation)
    );
}

#[test]
fn sms_plan_empty_collection_is_protocol_error() {
    let f = sms_factor(vec![(String::from("verify"), Link::Multi { hrefs: vec![] })]);
    assert_eq!(
        f.verify_plan(&sms_request()),
        Err(VerificationError::EmptyLinkCollection)
    );
}

#[test]
fn sms_plan_rejects_mismatched_request_shape() {
    let f = sms_factor(vec![(
        String::from("verify"),
        Link::Single { href: String::from("https://example.com/verify/sms") },
    )]);
    let wrong = FactorVerificationRequest::Totp { pass_code: String::from("123456") };
    assert_eq!(f.verify_plan(&wrong), Err(VerificationError::MismatchedRequest));
}

#[test]
fn every_other_variant_is_unsupported() {
    let links = || {
        vec![(
            String::from("verify"),
            Link::Single { href: String::from("https://example.com/verify") },
        )]
    };
    let id = || String::from("fid");
    let others = vec![
        Factor::Push {
            id: id(),
            provider: FactorProvider::Okta,
            status: None,
            links: links(),
        },
        Factor::Call {
            id: id(),
            provider: FactorProvider::Okta,
            status: None,
            profile: CallFactorProfile {
                phone_number: String::from("+15550000000"),
                phone_extension: None,
            },
            links: links(),
        },
        Factor::Token {
            id: id(),
            provider: FactorProvider::Rsa,
            status: None,
            profile: TokenFactorProfile { credential_id: String::from("cred") },
            links: links(),
            verify: None,
        },
        Factor::Totp {
            id: id(),
            provider: FactorProvider::Google,
            status: None,
            profile: TokenFactorProfile { credential_id: String::from("cred") },
            links: links(),
        },
        Factor::Hotp {
            id: id(),
            provider: FactorProvider::Yubico,
            status: None,
            profile: TokenFactorProfile { credential_id: String::from("cred") },
            links: links(),
            verify: None,
        },
        Factor::Question {
            id: id(),
            provider: FactorProvider::Okta,
            status: None,
            profile: QuestionFactorProfile {
                question: String::from("disliked_food"),
                question_text: String::from("What is the food you least liked as a child?"),
                answer: None,
            },
            links: links(),
        },
        Factor::Web {
            id: id(),
            provider: FactorProvider::Duo,
            status: None,
            profile: WebFactorProfile { credential_id: String::from("cred") },
            links: links(),
        },
    ];
    for f in &others {
        assert_eq!(
            f.verify_plan(&sms_request()),
            Err(VerificationError::UnsupportedMethod),
            "variant {:?} must be unsupported",
            f
        );
    }
}

#[test]
fn two_hundred_with_decoded_body_is_returned_unchanged() {
    let login = LoginOutcome {
        state_token: String::from("next-token"),
        status: String::from("MFA_CHALLENGE"),
    };
    assert_eq!(verify_outcome(200, Some(login.clone())), Ok(login));
}

#[test]
fn every_two_xx_status_succeeds() {
    for status in 200u16..300 {
        assert_eq!(verify_outcome(status, Some(7u8)), Ok(7u8));
    }
}

#[test]
fn four_hundred_is_a_transport_error() {
    assert_eq!(
        verify_outcome::<LoginOutcome>(400, None),
        Err(VerificationError::Transport { status: 400 })
    );
}

#[test]
fn transport_error_wins_even_with_a_parseable_body() {
    assert_eq!(
        verify_outcome(500, Some(1u8)),
        Err(VerificationError::Transport { status: 500 })
    );
}

#[test]
fn undecodable_two_xx_body_is_a_decode_failure() {
    assert_eq!(
        verify_outcome::<LoginOutcome>(204, None),
        Err(VerificationError::ResponseDecode)
    );
}

#[test]
fn boundary_statuses() {
    assert_eq!(
        verify_outcome::<u8>(199, None),
        Err(VerificationError::Transport { status: 199 })
    );
    assert_eq!(
        verify_outcome::<u8>(300, None),
        Err(VerificationError::Transport { status: 300 })
    );
    assert_eq!(verify_outcome(299, Some(1u8)), Ok(1u8));
}
