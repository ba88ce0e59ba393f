//! The response classifier: raw HTTP replies become typed payloads or
//! taxonomy errors.
//!
//! Classification short-circuits in priority order: the two rate-limit
//! status signals first, regardless of body; then the service-unavailable
//! signal, whose body is only mined for a human-readable message and whose
//! decode failures degrade to a generic message instead of propagating;
//! only then is the body decoded as a generic JSON value, and decode
//! failures surface as typed decode errors. Nothing upstream of this
//! boundary inspects raw status codes or raw bodies again.

use vstd::prelude::*;
use vstd::string::StringExecFns;

use crate::error::ExchangeError;

verus! {

/// Status signal for "too many requests".
pub const STATUS_TOO_MANY_REQUESTS: u16 = 429;

/// Second, server-defined throttle signal; maps to the same rate-limited
/// kind as the canonical one.
pub const STATUS_IM_A_TEAPOT: u16 = 418;

/// Status signal for "service unavailable".
pub const STATUS_SERVICE_UNAVAILABLE: u16 = 503;

#[verifier::external_type_specification]
#[verifier::external_body]
/// A decoded generic JSON value, opaque to the verifier.
pub struct ExJsonValue(serde_json::Value);

#[verifier::external_type_specification]
#[verifier::external_body]
/// A JSON decode error, opaque to the verifier.
pub struct ExJsonError(serde_json::Error);

/// Whether these bytes decode as a generic JSON value.
pub uninterp spec fn json_accepts(bytes: Seq<u8>) -> bool;

/// Relies on `serde_json::from_slice`: whether the bytes parse is a
/// function of the bytes alone, and parsing either yields a value or a
/// decode error.
#[verifier::external_body]
fn parse_json(body: &[u8]) -> (r: Result<serde_json::Value, serde_json::Error>)
    ensures
        r is Ok <==> json_accepts(body@),
{
    serde_json::from_slice::<serde_json::Value>(body)
}

/// Relies on `serde_json::Value`'s `Display` for the human-readable text
/// of a decoded body; nothing is assumed of the text.
#[verifier::external_body]
fn json_value_text(v: &serde_json::Value) -> String {
    v.to_string()
}

/// Relies on `serde_json::Error`'s `Display` for the human-readable text
/// of a decode error; nothing is assumed of the text.
#[verifier::external_body]
fn json_error_text(e: &serde_json::Error) -> String {
    e.to_string()
}

/// A failure of the REST layer, before it is folded into the exchange
/// taxonomy.
#[derive(Debug)]
pub enum RestError {
    /// Already classified into the exchange taxonomy.
    Exchange(ExchangeError),
    /// The reply decoded, but not into the shape the caller expected.
    UnexpectedResponseType(String),
    /// The body did not decode as the expected JSON shape.
    Json(serde_json::Error),
}

impl RestError {
    /// Folds this REST-level failure into the closed exchange taxonomy, so
    /// that no raw decode error crosses the adapter boundary unconverted.
    pub fn into_exchange(self) -> (r: ExchangeError)
        ensures
            self matches RestError::Exchange(e) ==> r == e,
            self matches RestError::UnexpectedResponseType(d) ==> (r matches
                ExchangeError::UnexpectedResponseType(d2) && d2 == d),
            self is Json ==> (r matches ExchangeError::Other(m) && m@.len()
                >= "failed to decode response: "@.len() && m@.subrange(
                0,
                "failed to decode response: "@.len() as int,
            ) == "failed to decode response: "@),
    {
        match self {
            RestError::Exchange(e) => e,
            RestError::UnexpectedResponseType(d) => ExchangeError::UnexpectedResponseType(d),
            RestError::Json(e) => {
                let mut m = "failed to decode response: ".to_owned();
                let text = json_error_text(&e);
                m.append(text.as_str());
                proof {
                    assert(m@.subrange(0, "failed to decode response: "@.len() as int)
                        =~= "failed to decode response: "@);
                }
                ExchangeError::Other(m)
            },
        }
    }
}

/// Classifies one raw HTTP reply into a decoded generic JSON body or a
/// taxonomy error, in priority order and short-circuiting.
///
/// Both rate-limit signals win over any body, decodable or not. The
/// service-unavailable signal yields the unavailable kind either way: the
/// body's text when it decodes, a generic message when it does not — the
/// decode failure itself is never propagated. Any other status decodes the
/// body as generic JSON; failure there is a typed decode error, never a
/// silent default. Pure: the result is a function of status and body.
pub fn classify_reply(status: u16, body: &[u8]) -> (r: Result<serde_json::Value, RestError>)
    ensures
        status == STATUS_TOO_MANY_REQUESTS ==> (r matches Err(RestError::Exchange(
            ExchangeError::RateLimited(m),
        )) && m@ == "too many requests"@),
        status == STATUS_IM_A_TEAPOT ==> (r matches Err(RestError::Exchange(
            ExchangeError::RateLimited(m),
        )) && m@ == "I'm a teapot"@),
        status == STATUS_SERVICE_UNAVAILABLE ==> (r matches Err(RestError::Exchange(e))
            && e is Unavailable),
        status == STATUS_SERVICE_UNAVAILABLE && !json_accepts(body@) ==> (r matches Err(
            RestError::Exchange(ExchangeError::Unavailable(m)),
        ) && m@.len() >= "failed to read msg: "@.len() && m@.subrange(
            0,
            "failed to read msg: "@.len() as int,
        ) == "failed to read msg: "@),
        status != STATUS_TOO_MANY_REQUESTS && status != STATUS_IM_A_TEAPOT && status
            != STATUS_SERVICE_UNAVAILABLE ==> {
            &&& r is Ok <==> json_accepts(body@)
            &&& !json_accepts(body@) ==> r matches Err(RestError::Json(_))
        },
{
    if status == STATUS_TOO_MANY_REQUESTS {
        Err(RestError::Exchange(ExchangeError::RateLimited("too many requests".to_owned())))
    } else if status == STATUS_IM_A_TEAPOT {
        Err(RestError::Exchange(ExchangeError::RateLimited("I'm a teapot".to_owned())))
    } else if status == STATUS_SERVICE_UNAVAILABLE {
        match parse_json(body) {
            Ok(v) => Err(RestError::Exchange(ExchangeError::Unavailable(json_value_text(&v)))),
            Err(e) => {
                let mut m = "failed to read msg: ".to_owned();
                let text = json_error_text(&e);
                m.append(text.as_str());
                proof {
                    assert(m@.subrange(0, "failed to read msg: "@.len() as int)
                        =~= "failed to read msg: "@);
                }
                Err(RestError::Exchange(ExchangeError::Unavailable(m)))
            },
        }
    } else {
        match parse_json(body) {
            Ok(v) => Ok(v),
            Err(e) => Err(RestError::Json(e)),
        }
    }
}

/// A conversion out of a decoded payload into a caller-chosen response
/// shape; a payload of the wrong shape is an unexpected-response-type
/// error, never a silent default.
pub trait TryFromData<T>: Sized {
    /// Whether this conversion succeeds on `value`.
    spec fn accepts(value: &T) -> bool;

    /// The result of the conversion, where it succeeds.
    spec fn converted(value: T) -> Self;

    /// The detail reported when the conversion rejects `value`: a
    /// description of the payload that was found instead.
    spec fn rejection_detail(value: &T) -> Seq<char>;

    /// Converts `value`, reporting a wrong shape as an error carrying the
    /// rejected payload's description.
    fn try_from_data(value: T) -> (r: Result<Self, RestError>)
        ensures
            Self::accepts(&value) ==> (r matches Ok(v) && v == Self::converted(value)),
            !Self::accepts(&value) ==> (r matches Err(RestError::UnexpectedResponseType(d))
                && d@ == Self::rejection_detail(&value)),
    ;
}

/// One REST reply holding exactly one decoded payload; it is consumed into
/// either the payload or a typed error, and never retained past the call
/// that produced it.
pub struct RestResponse<T> {
    data: T,
}

impl<T> RestResponse<T> {
    /// The payload held by this reply.
    pub closed spec fn data(&self) -> &T {
        &self.data
    }

    /// Completes the strongly-typed decode stage: a decoded payload becomes
    /// a reply, a decode failure becomes a typed decode error.
    pub fn from_decoded(outcome: Result<T, serde_json::Error>) -> (r: Result<
        RestResponse<T>,
        RestError,
    >)
        ensures
            outcome matches Ok(d) ==> (r matches Ok(resp) && *resp.data() == d),
            outcome matches Err(e) ==> (r matches Err(RestError::Json(e2)) && e2 == e),
    {
        match outcome {
            Ok(data) => Ok(RestResponse { data }),
            Err(e) => Err(RestError::Json(e)),
        }
    }

    /// Into inner data.
    pub fn into_inner(self) -> (r: T)
        ensures
            r == *self.data(),
    {
        self.data
    }

    /// Convert into a response of the given type.
    pub fn into_response<U: TryFromData<T>>(self) -> (r: Result<U, RestError>)
        ensures
            U::accepts(self.data()) ==> (r matches Ok(v) && v == U::converted(*self.data())),
            !U::accepts(self.data()) ==> (r matches Err(RestError::UnexpectedResponseType(d))
                && d@ == U::rejection_detail(self.data())),
    {
        U::try_from_data(self.into_inner())
    }
}

/// A listen key, as granted for a user-data stream.
pub struct ListenKey {
    /// The granted key.
    pub listen_key: String,
}

/// An error message reported inside a reply body.
pub struct ErrorMessage {
    /// Numeric error code.
    pub code: i64,
    /// Human-readable message.
    pub msg: String,
}

/// A REST reply payload: the closed union of payload shapes the adapter
/// decodes. Payloads that carry floating-point market data stay with the
/// unverified decoding layer and reach the caller as generic values.
pub enum Data {
    /// A listen key grant.
    ListenKey(ListenKey),
    /// An error message body.
    Error(ErrorMessage),
    /// Any payload not otherwise recognized, kept as generic JSON.
    Unknown(serde_json::Value),
}

impl TryFromData<Data> for serde_json::Value {
    /// Only the generic payload converts to a generic JSON value.
    open spec fn accepts(value: &Data) -> bool {
        value is Unknown
    }

    open spec fn converted(value: Data) -> serde_json::Value {
        match value {
            Data::Unknown(u) => u,
            _ => vstd::pervasive::arbitrary(),
        }
    }

    /// The rejected payload, named by its variant.
    open spec fn rejection_detail(value: &Data) -> Seq<char> {
        match value {
            Data::ListenKey(_) => "unexpected response type: listen key"@,
            Data::Error(_) => "unexpected response type: error message"@,
            Data::Unknown(_) => Seq::empty(),
        }
    }

    fn try_from_data(value: Data) -> (r: Result<Self, RestError>) {
        match value {
            Data::Unknown(u) => Ok(u),
            Data::ListenKey(_) => Err(RestError::UnexpectedResponseType(
                "unexpected response type: listen key".to_owned(),
            )),
            Data::Error(_) => Err(RestError::UnexpectedResponseType(
                "unexpected response type: error message".to_owned(),
            )),
        }
    }
}

} // verus!
