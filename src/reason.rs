use vstd::prelude::*;
use crate::text::{decimal, push_decimal};
use vstd::string::StringExecFns;

verus! {

/// The reason for a failure, as the delivery API names it.
#[derive(Clone, Debug)]
pub enum ApiErrorReason {
    BadCollapseId,
    BadDeviceToken,
    BadExpirationDate,
    BadMessageId,
    BadPriority,
    BadTopic,
    DeviceTokenNotForTopic,
    DuplicateHeaders,
    IdleTimeout,
    MissingDeviceToken,
    MissingTopic,
    PayloadEmpty,
    TopicDisallowed,
    BadCertificate,
    BadCertificateEnvironment,
    ExpiredProviderToken,
    Forbidden,
    InvalidProviderToken,
    MissingProviderToken,
    BadPath,
    MethodNotAllowed,
    Unregistered,
    PayloadTooLarge,
    TooManyProviderTokenUpdates,
    TooManyRequests,
    InternalServerError,
    ServiceUnavailable,
    Shutdown,
    /// A reason this library does not know, kept as the service wrote it.
    Other(String),
}

/// The known reason that `s` names, if any.
pub open spec fn known_reason(s: Seq<char>) -> Option<ApiErrorReason> {
    if s == "BadCollapseId"@ { Some(ApiErrorReason::BadCollapseId) }
    else if s == "BadDeviceToken"@ { Some(ApiErrorReason::BadDeviceToken) }
    else if s == "BadExpirationDate"@ { Some(ApiErrorReason::BadExpirationDate) }
    else if s == "BadMessageId"@ { Some(ApiErrorReason::BadMessageId) }
    else if s == "BadPriority"@ { Some(ApiErrorReason::BadPriority) }
    else if s == "BadTopic"@ { Some(ApiErrorReason::BadTopic) }
    else if s == "DeviceTokenNotForTopic"@ { Some(ApiErrorReason::DeviceTokenNotForTopic) }
    else if s == "DuplicateHeaders"@ { Some(ApiErrorReason::DuplicateHeaders) }
    else if s == "IdleTimeout"@ { Some(ApiErrorReason::IdleTimeout) }
    else if s == "MissingDeviceToken"@ { Some(ApiErrorReason::MissingDeviceToken) }
    else if s == "MissingTopic"@ { Some(ApiErrorReason::MissingTopic) }
    else if s == "PayloadEmpty"@ { Some(ApiErrorReason::PayloadEmpty) }
    else if s == "TopicDisallowed"@ { Some(ApiErrorReason::TopicDisallowed) }
    else if s == "BadCertificate"@ { Some(ApiErrorReason::BadCertificate) }
    else if s == "BadCertificateEnvironment"@ { Some(ApiErrorReason::BadCertificateEnvironment) }
    else if s == "ExpiredProviderToken"@ { Some(ApiErrorReason::ExpiredProviderToken) }
    else if s == "Forbidden"@ { Some(ApiErrorReason::Forbidden) }
    else if s == "InvalidProviderToken"@ { Some(ApiErrorReason::InvalidProviderToken) }
    else if s == "MissingProviderToken"@ { Some(ApiErrorReason::MissingProviderToken) }
    else if s == "BadPath"@ { Some(ApiErrorReason::BadPath) }
    else if s == "MethodNotAllowed"@ { Some(ApiErrorReason::MethodNotAllowed) }
    else if s == "Unregistered"@ { Some(ApiErrorReason::Unregistered) }
    else if s == "PayloadTooLarge"@ { Some(ApiErrorReason::PayloadTooLarge) }
    else if s == "TooManyProviderTokenUpdates"@ { Some(ApiErrorReason::TooManyProviderTokenUpdates) }
    else if s == "TooManyRequests"@ { Some(ApiErrorReason::TooManyRequests) }
    else if s == "InternalServerError"@ { Some(ApiErrorReason::InternalServerError) }
    else if s == "ServiceUnavailable"@ { Some(ApiErrorReason::ServiceUnavailable) }
    else if s == "Shutdown"@ { Some(ApiErrorReason::Shutdown) }
    else { None }
}

/// `r` is what the name `s` decodes to: the known reason it names, or else
/// `Other` holding `s` itself.
pub open spec fn decodes_to(s: Seq<char>, r: ApiErrorReason) -> bool {
    match known_reason(s) {
        Some(k) => r == k,
        None => r is Other && r.name() == s,
    }
}

/// Tells whether `v` holds the text `lit`.
fn is_named(v: &String, lit: &str) -> (r: bool)
    ensures
        r == (v@ == lit@),
{
    *v == String::from_str(lit)
}

impl ApiErrorReason {
    /// The name of the reason on the wire.
    pub open spec fn name(&self) -> Seq<char> {
        match self {
            ApiErrorReason::BadCollapseId => "BadCollapseId"@,
            ApiErrorReason::BadDeviceToken => "BadDeviceToken"@,
            ApiErrorReason::BadExpirationDate => "BadExpirationDate"@,
            ApiErrorReason::BadMessageId => "BadMessageId"@,
            ApiErrorReason::BadPriority => "BadPriority"@,
            ApiErrorReason::BadTopic => "BadTopic"@,
            ApiErrorReason::DeviceTokenNotForTopic => "DeviceTokenNotForTopic"@,
            ApiErrorReason::DuplicateHeaders => "DuplicateHeaders"@,
            ApiErrorReason::IdleTimeout => "IdleTimeout"@,
            ApiErrorReason::MissingDeviceToken => "MissingDeviceToken"@,
            ApiErrorReason::MissingTopic => "MissingTopic"@,
            ApiErrorReason::PayloadEmpty => "PayloadEmpty"@,
            ApiErrorReason::TopicDisallowed => "TopicDisallowed"@,
            ApiErrorReason::BadCertificate => "BadCertificate"@,
            ApiErrorReason::BadCertificateEnvironment => "BadCertificateEnvironment"@,
            ApiErrorReason::ExpiredProviderToken => "ExpiredProviderToken"@,
            ApiErrorReason::Forbidden => "Forbidden"@,
            ApiErrorReason::InvalidProviderToken => "InvalidProviderToken"@,
            ApiErrorReason::MissingProviderToken => "MissingProviderToken"@,
            ApiErrorReason::BadPath => "BadPath"@,
            ApiErrorReason::MethodNotAllowed => "MethodNotAllowed"@,
            ApiErrorReason::Unregistered => "Unregistered"@,
            ApiErrorReason::PayloadTooLarge => "PayloadTooLarge"@,
            ApiErrorReason::TooManyProviderTokenUpdates => "TooManyProviderTokenUpdates"@,
            ApiErrorReason::TooManyRequests => "TooManyRequests"@,
            ApiErrorReason::InternalServerError => "InternalServerError"@,
            ApiErrorReason::ServiceUnavailable => "ServiceUnavailable"@,
            ApiErrorReason::Shutdown => "Shutdown"@,
            ApiErrorReason::Other(s) => s@,
        }
    }

    /// Decodes a reason name: a known name gives its reason, any other text
    /// gives `Other` holding that text.
    pub fn from_str(value: &str) -> (r: Self)
        ensures
            decodes_to(value@, r),
    {
        let v = String::from_str(value);
        if is_named(&v, "BadCollapseId") { ApiErrorReason::BadCollapseId }
        else if is_named(&v, "BadDeviceToken") { ApiErrorReason::BadDeviceToken }
        else if is_named(&v, "BadExpirationDate") { ApiErrorReason::BadExpirationDate }
        else if is_named(&v, "BadMessageId") { ApiErrorReason::BadMessageId }
        else if is_named(&v, "BadPriority") { ApiErrorReason::BadPriority }
        else if is_named(&v, "BadTopic") { ApiErrorReason::BadTopic }
        else if is_named(&v, "DeviceTokenNotForTopic") { ApiErrorReason::DeviceTokenNotForTopic }
        else if is_named(&v, "DuplicateHeaders") { ApiErrorReason::DuplicateHeaders }
        else if is_named(&v, "IdleTimeout") { ApiErrorReason::IdleTimeout }
        else if is_named(&v, "MissingDeviceToken") { ApiErrorReason::MissingDeviceToken }
        else if is_named(&v, "MissingTopic") { ApiErrorReason::MissingTopic }
        else if is_named(&v, "PayloadEmpty") { ApiErrorReason::PayloadEmpty }
        else if is_named(&v, "TopicDisallowed") { ApiErrorReason::TopicDisallowed }
        else if is_named(&v, "BadCertificate") { ApiErrorReason::BadCertificate }
        else if is_named(&v, "BadCertificateEnvironment") { ApiErrorReason::BadCertificateEnvironment }
        else if is_named(&v, "ExpiredProviderToken") { ApiErrorReason::ExpiredProviderToken }
        else if is_named(&v, "Forbidden") { ApiErrorReason::Forbidden }
        else if is_named(&v, "InvalidProviderToken") { ApiErrorReason::InvalidProviderToken }
        else if is_named(&v, "MissingProviderToken") { ApiErrorReason::MissingProviderToken }
        else if is_named(&v, "BadPath") { ApiErrorReason::BadPath }
        else if is_named(&v, "MethodNotAllowed") { ApiErrorReason::MethodNotAllowed }
        else if is_named(&v, "Unregistered") { ApiErrorReason::Unregistered }
        else if is_named(&v, "PayloadTooLarge") { ApiErrorReason::PayloadTooLarge }
        else if is_named(&v, "TooManyProviderTokenUpdates") { ApiErrorReason::TooManyProviderTokenUpdates }
        else if is_named(&v, "TooManyRequests") { ApiErrorReason::TooManyRequests }
        else if is_named(&v, "InternalServerError") { ApiErrorReason::InternalServerError }
        else if is_named(&v, "ServiceUnavailable") { ApiErrorReason::ServiceUnavailable }
        else if is_named(&v, "Shutdown") { ApiErrorReason::Shutdown }
        else { ApiErrorReason::Other(v) }
    }

    /// The name of the reason on the wire.
    pub fn to_str(&self) -> (r: &str)
        ensures
            r@ == self.name(),
    {
        match self {
            ApiErrorReason::BadCollapseId => "BadCollapseId",
            ApiErrorReason::BadDeviceToken => "BadDeviceToken",
            ApiErrorReason::BadExpirationDate => "BadExpirationDate",
            ApiErrorReason::BadMessageId => "BadMessageId",
            ApiErrorReason::BadPriority => "BadPriority",
            ApiErrorReason::BadTopic => "BadTopic",
            ApiErrorReason::DeviceTokenNotForTopic => "DeviceTokenNotForTopic",
            ApiErrorReason::DuplicateHeaders => "DuplicateHeaders",
            ApiErrorReason::IdleTimeout => "IdleTimeout",
            ApiErrorReason::MissingDeviceToken => "MissingDeviceToken",
            ApiErrorReason::MissingTopic => "MissingTopic",
            ApiErrorReason::PayloadEmpty => "PayloadEmpty",
            ApiErrorReason::TopicDisallowed => "TopicDisallowed",
            ApiErrorReason::BadCertificate => "BadCertificate",
            ApiErrorReason::BadCertificateEnvironment => "BadCertificateEnvironment",
            ApiErrorReason::ExpiredProviderToken => "ExpiredProviderToken",
            ApiErrorReason::Forbidden => "Forbidden",
            ApiErrorReason::InvalidProviderToken => "InvalidProviderToken",
            ApiErrorReason::MissingProviderToken => "MissingProviderToken",
            ApiErrorReason::BadPath => "BadPath",
            ApiErrorReason::MethodNotAllowed => "MethodNotAllowed",
            ApiErrorReason::Unregistered => "Unregistered",
            ApiErrorReason::PayloadTooLarge => "PayloadTooLarge",
            ApiErrorReason::TooManyProviderTokenUpdates => "TooManyProviderTokenUpdates",
            ApiErrorReason::TooManyRequests => "TooManyRequests",
            ApiErrorReason::InternalServerError => "InternalServerError",
            ApiErrorReason::ServiceUnavailable => "ServiceUnavailable",
            ApiErrorReason::Shutdown => "Shutdown",
            ApiErrorReason::Other(val) => val.as_str(),
        }
    }

    /// Whether this is the reason given for a device token that is not valid.
    pub fn is_bad_device_token(&self) -> (r: bool)
        ensures
            r == (self is BadDeviceToken),
    {
        match self {
            ApiErrorReason::BadDeviceToken => true,
            _ => false,
        }
    }
}

/// The length and the first and fourth characters of each known name, which
/// together tell the names apart.
proof fn lemma_reason_names_differ()
    ensures
        "BadCollapseId"@.len() == 13 && "BadCollapseId"@[0] == 'B' && "BadCollapseId"@[3] == 'C',
        "BadDeviceToken"@.len() == 14 && "BadDeviceToken"@[0] == 'B' && "BadDeviceToken"@[3] == 'D',
        "BadExpirationDate"@.len() == 17 && "BadExpirationDate"@[0] == 'B' && "BadExpirationDate"@[3] == 'E',
        "BadMessageId"@.len() == 12 && "BadMessageId"@[0] == 'B' && "BadMessageId"@[3] == 'M',
        "BadPriority"@.len() == 11 && "BadPriority"@[0] == 'B' && "BadPriority"@[3] == 'P',
        "BadTopic"@.len() == 8 && "BadTopic"@[0] == 'B' && "BadTopic"@[3] == 'T',
        "DeviceTokenNotForTopic"@.len() == 22 && "DeviceTokenNotForTopic"@[0] == 'D' && "DeviceTokenNotForTopic"@[3] == 'i',
        "DuplicateHeaders"@.len() == 16 && "DuplicateHeaders"@[0] == 'D' && "DuplicateHeaders"@[3] == 'l',
        "IdleTimeout"@.len() == 11 && "IdleTimeout"@[0] == 'I' && "IdleTimeout"@[3] == 'e',
        "MissingDeviceToken"@.len() == 18 && "MissingDeviceToken"@[0] == 'M' && "MissingDeviceToken"@[3] == 's',
        "MissingTopic"@.len() == 12 && "MissingTopic"@[0] == 'M' && "MissingTopic"@[3] == 's',
        "PayloadEmpty"@.len() == 12 && "PayloadEmpty"@[0] == 'P' && "PayloadEmpty"@[3] == 'l',
        "TopicDisallowed"@.len() == 15 && "TopicDisallowed"@[0] == 'T' && "TopicDisallowed"@[3] == 'i',
        "BadCertificate"@.len() == 14 && "BadCertificate"@[0] == 'B' && "BadCertificate"@[3] == 'C',
        "BadCertificateEnvironment"@.len() == 25 && "BadCertificateEnvironment"@[0] == 'B' && "BadCertificateEnvironment"@[3] == 'C',
        "ExpiredProviderToken"@.len() == 20 && "ExpiredProviderToken"@[0] == 'E' && "ExpiredProviderToken"@[3] == 'i',
        "Forbidden"@.len() == 9 && "Forbidden"@[0] == 'F' && "Forbidden"@[3] == 'b',
        "InvalidProviderToken"@.len() == 20 && "InvalidProviderToken"@[0] == 'I' && "InvalidProviderToken"@[3] == 'a',
        "MissingProviderToken"@.len() == 20 && "MissingProviderToken"@[0] == 'M' && "MissingProviderToken"@[3] == 's',
        "BadPath"@.len() == 7 && "BadPath"@[0] == 'B' && "BadPath"@[3] == 'P',
        "MethodNotAllowed"@.len() == 16 && "MethodNotAllowed"@[0] == 'M' && "MethodNotAllowed"@[3] == 'h',
        "Unregistered"@.len() == 12 && "Unregistered"@[0] == 'U' && "Unregistered"@[3] == 'e',
        "PayloadTooLarge"@.len() == 15 && "PayloadTooLarge"@[0] == 'P' && "PayloadTooLarge"@[3] == 'l',
        "TooManyProviderTokenUpdates"@.len() == 27 && "TooManyProviderTokenUpdates"@[0] == 'T' && "TooManyProviderTokenUpdates"@[3] == 'M',
        "TooManyRequests"@.len() == 15 && "TooManyRequests"@[0] == 'T' && "TooManyRequests"@[3] == 'M',
        "InternalServerError"@.len() == 19 && "InternalServerError"@[0] == 'I' && "InternalServerError"@[3] == 'e',
        "ServiceUnavailable"@.len() == 18 && "ServiceUnavailable"@[0] == 'S' && "ServiceUnavailable"@[3] == 'v',
        "Shutdown"@.len() == 8 && "Shutdown"@[0] == 'S' && "Shutdown"@[3] == 't',
{
    reveal_strlit("BadCollapseId");
    reveal_strlit("BadDeviceToken");
    reveal_strlit("BadExpirationDate");
    reveal_strlit("BadMessageId");
    reveal_strlit("BadPriority");
    reveal_strlit("BadTopic");
    reveal_strlit("DeviceTokenNotForTopic");
    reveal_strlit("DuplicateHeaders");
    reveal_strlit("IdleTimeout");
    reveal_strlit("MissingDeviceToken");
    reveal_strlit("MissingTopic");
    reveal_strlit("PayloadEmpty");
    reveal_strlit("TopicDisallowed");
    reveal_strlit("BadCertificate");
    reveal_strlit("BadCertificateEnvironment");
    reveal_strlit("ExpiredProviderToken");
    reveal_strlit("Forbidden");
    reveal_strlit("InvalidProviderToken");
    reveal_strlit("MissingProviderToken");
    reveal_strlit("BadPath");
    reveal_strlit("MethodNotAllowed");
    reveal_strlit("Unregistered");
    reveal_strlit("PayloadTooLarge");
    reveal_strlit("TooManyProviderTokenUpdates");
    reveal_strlit("TooManyRequests");
    reveal_strlit("InternalServerError");
    reveal_strlit("ServiceUnavailable");
    reveal_strlit("Shutdown");
}

/// Decoding the name of a known reason gives that reason back, and nothing
/// else.
pub proof fn lemma_known_reason_round_trip(r: ApiErrorReason)
    requires
        !(r is Other),
    ensures
        decodes_to(r.name(), r),
        forall|r2: ApiErrorReason| decodes_to(r.name(), r2) ==> r2 == r,
{
    lemma_reason_names_differ();
}

/// A name that no known reason has decodes to `Other` holding that name, and
/// encoding that result gives the name back unchanged.
pub proof fn lemma_unknown_reason_round_trip(s: Seq<char>, r: ApiErrorReason)
    requires
        known_reason(s) is None,
        decodes_to(s, r),
    ensures
        r is Other,
        r.name() == s,
{
}

/// Error returned by the delivery API: the status of the answer and the reason
/// its body gave.
#[derive(Clone, Debug)]
pub struct ApiError {
    pub status: u32,
    pub reason: ApiErrorReason,
}

impl ApiError {
    /// Whether the service rejected the device token as not valid.
    pub fn is_bad_device_token(&self) -> (r: bool)
        ensures
            r == (self.reason is BadDeviceToken),
    {
        self.reason.is_bad_device_token()
    }
}

/// Why a notification was not delivered.
#[derive(Debug)]
pub enum SendError {
    /// The service answered and rejected the request.
    Api(ApiError),
    /// Anything else: the transport, the certificate, or the encoding failed.
    Other(String),
}

impl SendError {
    /// The service's rejection, when this is one.
    pub fn as_api_error(&self) -> (r: Option<&ApiError>)
        ensures
            match self {
                SendError::Api(e) => r == Some(e),
                SendError::Other(_) => r is None,
            },
    {
        match self {
            SendError::Api(e) => Some(e),
            SendError::Other(_) => None,
        }
    }

    /// Whether the service rejected the device token as not valid.
    pub fn is_bad_device_token(&self) -> (r: bool)
        ensures
            r == (self is Api && self->Api_0.reason is BadDeviceToken),
    {
        match self {
            SendError::Api(e) => e.is_bad_device_token(),
            SendError::Other(_) => false,
        }
    }
}

impl From<ApiError> for SendError {
    fn from(e: ApiError) -> (r: Self)
        ensures
            r == SendError::Api(e),
    {
        SendError::Api(e)
    }
}

impl vstd::std_specs::convert::FromSpecImpl<ApiError> for SendError {
    open spec fn obeys_from_spec() -> bool {
        true
    }

    open spec fn from_spec(e: ApiError) -> SendError {
        SendError::Api(e)
    }
}

/// The `reason` member that serde_json finds in a response body: `Some` when
/// the bytes are a JSON object whose `reason` is a string.
pub uninterp spec fn json_reason(data: Seq<u8>) -> Option<Seq<char>>;

/// Relies on serde_json::from_slice: decodes the bytes as a JSON value; the
/// `reason` member is handed back when the value is an object and that member
/// is a string.
#[verifier::external_body]
fn decode_reason(data: &[u8]) -> (r: Option<String>)
    ensures
        match r {
            Some(s) => json_reason(data@) == Some(s@),
            None => json_reason(data@) is None,
        },
{
    match serde_json::from_slice::<serde_json::Value>(data) {
        Ok(serde_json::Value::Object(mut m)) => match m.remove("reason") {
            Some(serde_json::Value::String(s)) => Some(s),
            _ => None,
        },
        _ => None,
    }
}

/// The bytes as a list of decimal numbers separated by `, `.
pub open spec fn byte_list(d: Seq<u8>) -> Seq<char>
    decreases d.len(),
{
    if d.len() == 0 {
        seq![]
    } else if d.len() == 1 {
        decimal(d[0] as nat)
    } else {
        byte_list(d.drop_last()) + ", "@ + decimal(d.last() as nat)
    }
}

/// The text kept for a response body that is not the expected JSON object.
pub open spec fn diagnostic(d: Seq<u8>) -> Seq<char> {
    "Unknown API response: ["@ + byte_list(d) + "]"@
}

/// The reason that a response body gives.
pub open spec fn body_reason(data: Seq<u8>, r: ApiErrorReason) -> bool {
    match json_reason(data) {
        Some(s) => decodes_to(s, r),
        None => r is Other && r.name() == diagnostic(data),
    }
}

/// The body of an error answer of the delivery API.
#[derive(Clone, Debug)]
pub struct ErrorResponse {
    pub reason: String,
}

/// The diagnostic text for a body that could not be decoded.
fn describe_bytes(data: &[u8]) -> (r: String)
    ensures
        r@ == diagnostic(data@),
{
    let mut s = String::from_str("Unknown API response: [");
    let n = data.len();
    let mut i: usize = 0;
    while i < n
        invariant
            n == data@.len(),
            i <= n,
            s@ == "Unknown API response: ["@ + byte_list(data@.take(i as int)),
        decreases n - i,
    {
        let ghost before = s@;
        if i > 0 {
            s.append(", ");
        }
        push_decimal(&mut s, data[i] as u64);
        proof {
            let t = data@.take(i as int + 1);
            assert(t.drop_last() =~= data@.take(i as int));
            assert(t.last() == data@[i as int]);
            if i == 0 {
                assert(byte_list(data@.take(0)) =~= seq![]);
            }
            assert(s@ =~= "Unknown API response: ["@ + byte_list(t));
        }
        i = i + 1;
    }
    assert(data@.take(n as int) =~= data@);
    s.append("]");
    s
}

impl ErrorResponse {
    /// Reads the reason out of the body of an error answer. This never fails:
    /// a body that is not a JSON object with a string `reason` gives `Other`
    /// holding a description of its bytes.
    pub fn parse_payload(data: &[u8]) -> (r: ApiErrorReason)
        ensures
            body_reason(data@, r),
    {
        match decode_reason(data) {
            Some(reason) => ApiErrorReason::from_str(reason.as_str()),
            None => ApiErrorReason::Other(describe_bytes(data)),
        }
    }
}

} // verus!
