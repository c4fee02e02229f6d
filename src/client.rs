use vstd::prelude::*;
use vstd::string::StringExecFns;
use crate::notification::{MessageId, Notification, NotificationView, is_v4};
use crate::payload::{ApnsRequest, PayloadView};
use crate::reason::{
    ApiError, ApiErrorReason, ErrorResponse, SendError, body_reason, json_reason,
    lemma_known_reason_round_trip,
};
use crate::text::{decimal, push_decimal, uuid_text};

verus! {

/// The production endpoint of the delivery API.
pub const APN_URL_PRODUCTION: &'static str = "https://api.push.apple.com";

/// The development (sandbox) endpoint of the delivery API.
pub const APN_URL_DEV: &'static str = "https://api.development.push.apple.com";

/// A client certificate: the path of a PKCS#12 bundle and its passphrase.
#[derive(Clone, Debug)]
pub struct ProviderCertificate {
    pub p12_path: String,
    pub passphrase: Option<String>,
}

/// How the client authenticates to the service.
#[derive(Clone, Debug)]
pub enum Auth {
    ProviderCertificate(ProviderCertificate),
}

impl Auth {
    /// The certificate that this authentication uses.
    pub fn as_cert(&self) -> (r: &ProviderCertificate)
        ensures
            *self == Auth::ProviderCertificate(*r),
    {
        match self {
            Auth::ProviderCertificate(c) => c,
        }
    }
}

/// The settings of a client.
pub struct ApnsSyncView {
    pub production: bool,
    pub verbose: bool,
    pub delivery_disabled: bool,
}

/// The decisions of a client of the delivery API: where a notification goes,
/// with which headers and body, and what the service's answer means. The
/// exchange itself is carried out by a transport, which hands the status and
/// body of the answer back to `interpret_response`.
pub struct ApnsSync {
    production: bool,
    verbose: bool,
    delivery_disabled: bool,
    auth: Auth,
}

impl View for ApnsSync {
    type V = ApnsSyncView;

    closed spec fn view(&self) -> ApnsSyncView {
        ApnsSyncView {
            production: self.production,
            verbose: self.verbose,
            delivery_disabled: self.delivery_disabled,
        }
    }
}

/// The endpoint for a setting of the production flag.
pub open spec fn base_url(production: bool) -> Seq<char> {
    if production { APN_URL_PRODUCTION@ } else { APN_URL_DEV@ }
}

/// The address to which a notification for `device_token` is posted.
pub open spec fn device_url(production: bool, device_token: Seq<char>) -> Seq<char> {
    base_url(production) + "/3/device/"@ + device_token
}

/// The text of an optional number; empty when absent.
pub open spec fn optional_decimal(o: Option<nat>) -> Seq<char> {
    match o {
        Some(x) => decimal(x),
        None => seq![],
    }
}

/// The header lines sent with a notification, in order. A header whose field
/// is absent is sent with an empty value, which the transport leaves out.
pub open spec fn header_lines(n: NotificationView, id: MessageId) -> Seq<Seq<char>> {
    seq![
        "apns-id:"@ + uuid_text(id.value),
        "apns-expiration:"@ + optional_decimal(
            match n.expiration {
                Some(x) => Some(x as nat),
                None => None,
            },
        ),
        "apns-priority:"@ + optional_decimal(
            match n.priority {
                Some(p) => Some(p.number() as nat),
                None => None,
            },
        ),
        "apns-topic:"@ + n.topic,
        "apns-collapse-id:"@ + match n.collapse_id {
            Some(c) => c,
            None => seq![],
        },
    ]
}

/// What the answer with `status` and `body` means for the notification sent
/// under `id`: status 200 is success under that id; any other status is a
/// rejection carrying the status and the reason the body gives.
pub open spec fn response_outcome(
    id: MessageId,
    status: u32,
    body: Seq<u8>,
    r: Result<MessageId, SendError>,
) -> bool {
    &&& (r is Ok <==> status == 200)
    &&& (r matches Ok(i) ==> i == id)
    &&& (r matches Err(e) ==> e is Api && e->Api_0.status == status && body_reason(
        body,
        e->Api_0.reason,
    ))
}

/// What a request holds.
pub struct HttpPostView {
    pub url: Seq<char>,
    pub headers: Seq<Seq<char>>,
    pub payload: PayloadView,
}

/// A request to post to the service: its address, its header lines, and the
/// JSON body.
#[derive(Clone, Debug)]
pub struct HttpPost {
    pub url: String,
    pub headers: Vec<String>,
    pub body: ApnsRequest,
}

impl View for HttpPost {
    type V = HttpPostView;

    open spec fn view(&self) -> HttpPostView {
        HttpPostView {
            url: self.url@,
            headers: self.headers.deep_view(),
            payload: self.body.aps@,
        }
    }
}

/// The request for a notification sent with a given id.
pub open spec fn request_for(c: ApnsSyncView, n: NotificationView, id: MessageId) -> HttpPostView {
    HttpPostView {
        url: device_url(c.production, n.device_token),
        headers: header_lines(n, id),
        payload: n.payload,
    }
}

/// What sending a notification takes: the id it goes under and, unless
/// delivery is disabled, the request to post.
#[derive(Debug)]
pub struct Dispatch {
    pub id: MessageId,
    pub request: Option<HttpPost>,
}

/// One header line: the name with its colon, then the value.
fn header(name: &str, value: &str) -> (r: String)
    ensures
        r@ == name@ + value@,
{
    let mut s = String::from_str(name);
    s.append(value);
    s
}

/// The header line for an optional number; the value is empty when absent.
fn number_header(name: &str, value: Option<u64>) -> (r: String)
    ensures
        r@ == name@ + optional_decimal(
            match value {
                Some(x) => Some(x as nat),
                None => None,
            },
        ),
{
    let mut s = String::from_str(name);
    match value {
        Some(x) => push_decimal(&mut s, x),
        None => {
            assert(s@ =~= name@ + seq![]);
        },
    }
    s
}

/// Encodes the delivery metadata of a notification as header lines: the id,
/// the expiration, the priority, the topic and the collapse id, in this order.
pub fn encode_headers(n: &Notification, id: MessageId) -> (r: Vec<String>)
    ensures
        r.deep_view() == header_lines(n@, id),
{
    let id_text = id.to_hyphenated();
    let priority = match n.priority {
        Some(p) => Some(p.to_int() as u64),
        None => None,
    };
    let collapse = match &n.collapse_id {
        Some(c) => header("apns-collapse-id:", c.as_str()),
        None => header("apns-collapse-id:", ""),
    };
    proof {
        reveal_strlit("");
    }
    let mut r: Vec<String> = Vec::new();
    r.push(header("apns-id:", id_text.as_str()));
    r.push(number_header("apns-expiration:", n.expiration));
    r.push(number_header("apns-priority:", priority));
    r.push(header("apns-topic:", n.topic.as_str()));
    r.push(collapse);
    assert(r.deep_view() =~= header_lines(n@, id));
    r
}

impl ApnsSync {
    /// A client for the production endpoint, quiet, with delivery enabled.
    pub fn new(auth: Auth) -> (r: Self)
        ensures
            r@ == (ApnsSyncView { production: true, verbose: false, delivery_disabled: false }),
            r.auth() == auth,
    {
        ApnsSync { production: true, verbose: false, delivery_disabled: false, auth }
    }

    /// A client that authenticates with the certificate bundle at `path`.
    pub fn with_certificate(path: String, passphrase: Option<String>) -> (r: ApnsSync)
        ensures
            r@ == (ApnsSyncView { production: true, verbose: false, delivery_disabled: false }),
            r.auth() == Auth::ProviderCertificate(ProviderCertificate { p12_path: path, passphrase }),
    {
        Self::new(Auth::ProviderCertificate(ProviderCertificate { p12_path: path, passphrase }))
    }

    /// The authentication the client was made with.
    pub closed spec fn auth(&self) -> Auth {
        self.auth
    }

    /// The authentication the client was made with.
    pub fn get_auth(&self) -> (r: &Auth)
        ensures
            *r == self.auth(),
    {
        &self.auth
    }

    /// Whether the transport should log verbosely.
    pub fn is_verbose(&self) -> (r: bool)
        ensures
            r == self@.verbose,
    {
        self.verbose
    }

    /// Enables or disables verbose logging by the transport.
    pub fn set_verbose(&mut self, verbose: bool)
        ensures
            final(self)@ == (ApnsSyncView { verbose, ..old(self)@ }),
            final(self).auth() == old(self).auth(),
    {
        self.verbose = verbose;
    }

    /// Chooses the production endpoint or the development sandbox.
    pub fn set_production(&mut self, production: bool)
        ensures
            final(self)@ == (ApnsSyncView { production, ..old(self)@ }),
            final(self).auth() == old(self).auth(),
    {
        self.production = production;
    }

    /// Disables delivery altogether: no request is made, and sending only
    /// hands back the notification's id. Meant for tests of applications.
    pub fn disable_delivery_for_testing(&mut self)
        ensures
            final(self)@ == (ApnsSyncView { delivery_disabled: true, ..old(self)@ }),
            final(self).auth() == old(self).auth(),
    {
        self.delivery_disabled = true;
    }

    /// The address for a device token.
    pub fn build_url(&self, device_token: &str) -> (r: String)
        ensures
            r@ == device_url(self@.production, device_token@),
    {
        let root = if self.production { APN_URL_PRODUCTION } else { APN_URL_DEV };
        let mut s = String::from_str(root);
        s.append("/3/device/");
        s.append(device_token);
        s
    }

    /// Decides how a notification is sent: the id it goes under (its own, or
    /// a fresh one) and, unless delivery is disabled, the request to post.
    pub fn dispatch(&self, notification: Notification) -> (r: Dispatch)
        ensures
            notification.id matches Some(i) ==> r.id == i,
            notification.id is None ==> is_v4(r.id.value),
            r.request is None <==> self@.delivery_disabled,
            r.request matches Some(q) ==> q@ == request_for(self@, notification@, r.id),
    {
        let id = match notification.id {
            Some(i) => i,
            None => MessageId::new_v4(),
        };
        if self.delivery_disabled {
            return Dispatch { id, request: None };
        }
        let url = self.build_url(notification.device_token.as_str());
        let headers = encode_headers(&notification, id);
        let body = ApnsRequest { aps: notification.payload };
        Dispatch { id, request: Some(HttpPost { url, headers, body }) }
    }

    /// Reads the service's answer to the request for the notification sent
    /// under `id`: status 200 is success; any other status is a rejection,
    /// whose reason the body gives.
    pub fn interpret_response(id: MessageId, status: u32, body: &[u8]) -> (r: Result<
        MessageId,
        SendError,
    >)
        ensures
            response_outcome(id, status, body@, r),
    {
        if status != 200 {
            let reason = ErrorResponse::parse_payload(body);
            Err(SendError::Api(ApiError { status, reason }))
        } else {
            Ok(id)
        }
    }
}

/// A notification without an expiration is sent with an empty expiration
/// header: the header is there, and its value holds nothing.
pub proof fn lemma_absent_expiration_empty(n: NotificationView, id: MessageId)
    requires
        n.expiration is None,
    ensures
        header_lines(n, id).len() == 5,
        header_lines(n, id)[1] == "apns-expiration:"@,
{
    assert(header_lines(n, id)[1] =~= "apns-expiration:"@);
}

/// A rejection whose body names a known reason is exactly the service's error
/// with that status and that reason; it counts as a bad device token only when
/// the reason is `BadDeviceToken`.
pub proof fn lemma_known_rejection(
    id: MessageId,
    status: u32,
    body: Seq<u8>,
    k: ApiErrorReason,
    r: Result<MessageId, SendError>,
)
    requires
        !(k is Other),
        status != 200,
        json_reason(body) == Some(k.name()),
        response_outcome(id, status, body, r),
    ensures
        r == Err::<MessageId, SendError>(SendError::Api(ApiError { status, reason: k })),
        (r->Err_0->Api_0.reason is BadDeviceToken) == (k is BadDeviceToken),
{
    lemma_known_reason_round_trip(k);
}

} // verus!
