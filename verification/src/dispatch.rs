//! The verification dispatcher: the single place that pairs a factor
//! variant with a legal request shape and maps a transport outcome into a
//! typed result or a typed failure.
//!
//! A verification attempt is one synchronous round trip. The dispatch is
//! split around the wire call: `verify_plan` decides, from the factor and
//! the request alone, the one POST to make or the typed error to fail with;
//! `verify_outcome` maps the HTTP status and the decoded body of that call
//! back into the caller's result. The caller performs the POST between the
//! two; nothing here retries, backs off, or swallows an error.

use vstd::prelude::*;

use crate::error::VerificationError;
use crate::links::Link;
use crate::links::resolve;
use crate::links::spec_lookup;
use crate::model::Factor;
use crate::request::FactorVerificationRequest;
use crate::request::spec_encode;

verus! {

/// The one wire call a verification attempt must make: POST `body` as JSON
/// (with both `Content-Type` and `Accept` set to `application/json`) to
/// `url`.
#[derive(Debug, Clone, PartialEq, Eq)]
pub struct VerifyPlan {
    pub url: String,
    pub body: String,
}

impl Factor {
    /// Decide the wire call for verifying this factor with `request`, or
    /// the typed error to fail with, making no wire call itself.
    ///
    /// Only the SMS factor kind has an implemented verification path: every
    /// other variant fails fast with the unsupported-method error. For an
    /// SMS factor, only the SMS request shape is accepted; the `"verify"`
    /// relation is then resolved in the factor's link map, and the plan
    /// carries the resolved URL and the encoded request.
    pub fn verify_plan(&self, request: &FactorVerificationRequest) -> (r: Result<
        VerifyPlan,
        VerificationError,
    >)
        ensures
            !(*self is Sms) ==> r == Err::<VerifyPlan, VerificationError>(
                VerificationError::UnsupportedMethod,
            ),
            *self is Sms && !(*request is Sms) ==> r == Err::<VerifyPlan, VerificationError>(
                VerificationError::MismatchedRequest,
            ),
            *self matches Factor::Sms { links, .. } ==> *request is Sms ==> (match spec_lookup(
                links@,
                "verify"@,
            ) {
                Option::None => r == Err::<VerifyPlan, VerificationError>(
                    VerificationError::MissingRelation,
                ),
                Option::Some(l) => match l {
                    Link::Single { href } => r matches Ok(p) && p.url@ == href@ && p.body@
                        == spec_encode(*request),
                    Link::Multi { hrefs } => if hrefs@.len() == 0 {
                        r == Err::<VerifyPlan, VerificationError>(
                            VerificationError::EmptyLinkCollection,
                        )
                    } else {
                        r matches Ok(p) && p.url@ == hrefs@[0]@ && p.body@ == spec_encode(*request)
                    },
                },
            }),
    {
        match self {
            Factor::Sms { links, .. } => match request {
                FactorVerificationRequest::Sms { .. } => {
                    let url = match resolve(links, "verify") {
                        Ok(u) => u,
                        Err(e) => {
                            return Err(e);
                        },
                    };
                    let body = request.to_json();
                    Ok(VerifyPlan { url, body })
                },
                _ => Err(VerificationError::MismatchedRequest),
            },
            _ => Err(VerificationError::UnsupportedMethod),
        }
    }
}

/// Map the outcome of the planned wire call into the caller's result: any
/// non-2xx status is a hard transport failure, a 2xx body that decoded is
/// returned unchanged, and a 2xx body that did not decode is a typed
/// decode failure, never a silent success.
///
/// The result shape is owned outside this core, so the decoded body
/// arrives here as an opaque value of the caller's type.
pub fn verify_outcome<T>(status: u16, parsed: Option<T>) -> (r: Result<T, VerificationError>)
    ensures
        !(200 <= status < 300) ==> r == Err::<T, VerificationError>(
            VerificationError::Transport { status },
        ),
        200 <= status < 300 ==> (match parsed {
            Option::Some(t) => r == Ok::<T, VerificationError>(t),
            Option::None => r == Err::<T, VerificationError>(VerificationError::ResponseDecode),
        }),
{
    if 200 <= status && status < 300 {
        match parsed {
            Some(t) => Ok(t),
            None => Err(VerificationError::ResponseDecode),
        }
    } else {
        Err(VerificationError::Transport { status })
    }
}

} // verus!
