use vstd::prelude::*;
use vstd::utf8::encode_utf8;

verus! {

/// Notification priority; its number is what the service reads.
#[derive(PartialEq, Eq, Structural, Clone, Copy, Debug)]
pub enum Priority {
    Low,
    High,
}

impl Priority {
    /// The number of the priority on the wire.
    pub open spec fn number(self) -> u32 {
        match self {
            Priority::Low => 5,
            Priority::High => 10,
        }
    }

    /// Converts the priority to its numeric value.
    pub fn to_int(self) -> (r: u32)
        ensures
            r == self.number(),
    {
        match self {
            Priority::Low => 5,
            Priority::High => 10,
        }
    }
}

/// The most bytes a collapse id may hold.
pub const COLLAPSE_ID_MAX_BYTES: usize = 64;

/// The length of a text in bytes, as UTF-8.
pub open spec fn byte_len(s: Seq<char>) -> nat {
    encode_utf8(s).len()
}

/// A collapse id that is longer than the service allows.
#[derive(Debug)]
pub struct CollapseIdTooLongError;

/// A key under which the service replaces earlier notifications; at most
/// 64 bytes long.
#[derive(Clone, Debug)]
pub struct CollapseId(String);

impl View for CollapseId {
    type V = Seq<char>;

    closed spec fn view(&self) -> Seq<char> {
        self.0@
    }
}

impl CollapseId {
    /// Makes a collapse id; fails when the value is longer than 64 bytes.
    pub fn new(value: String) -> (r: Result<Self, CollapseIdTooLongError>)
        ensures
            r is Ok <==> byte_len(value@) <= COLLAPSE_ID_MAX_BYTES,
            r matches Ok(c) ==> c@ == value@,
    {
        if value.as_str().as_bytes().len() > COLLAPSE_ID_MAX_BYTES {
            Err(CollapseIdTooLongError)
        } else {
            Ok(CollapseId(value))
        }
    }

    /// The id as text.
    pub fn as_str(&self) -> (r: &str)
        ensures
            r@ == self@,
    {
        self.0.as_str()
    }
}

/// What an alert payload holds, with each text as its characters.
pub struct AlertPayloadView {
    pub title: Option<Seq<char>>,
    pub body: Option<Seq<char>>,
    pub title_loc_key: Option<Seq<char>>,
    pub title_loc_args: Option<Seq<Seq<char>>>,
    pub action_loc_key: Option<Seq<char>>,
    pub loc_key: Option<Seq<char>>,
    pub loc_args: Option<Seq<Seq<char>>>,
    pub loc_image: Option<Seq<char>>,
}

/// The alert content of a notification. Absent fields are left out of the
/// encoded body.
#[derive(Clone, Debug)]
pub struct AlertPayload {
    pub title: Option<String>,
    pub body: Option<String>,
    pub title_loc_key: Option<String>,
    pub title_loc_args: Option<Vec<String>>,
    pub action_loc_key: Option<String>,
    pub loc_key: Option<String>,
    pub loc_args: Option<Vec<String>>,
    pub loc_image: Option<String>,
}

impl View for AlertPayload {
    type V = AlertPayloadView;

    open spec fn view(&self) -> AlertPayloadView {
        AlertPayloadView {
            title: self.title.deep_view(),
            body: self.body.deep_view(),
            title_loc_key: self.title_loc_key.deep_view(),
            title_loc_args: self.title_loc_args.deep_view(),
            action_loc_key: self.action_loc_key.deep_view(),
            loc_key: self.loc_key.deep_view(),
            loc_args: self.loc_args.deep_view(),
            loc_image: self.loc_image.deep_view(),
        }
    }
}

/// An alert payload with only a title and a body, either of which may be absent.
pub open spec fn titled(title: Option<Seq<char>>, body: Option<Seq<char>>) -> AlertPayloadView {
    AlertPayloadView {
        title,
        body,
        title_loc_key: None,
        title_loc_args: None,
        action_loc_key: None,
        loc_key: None,
        loc_args: None,
        loc_image: None,
    }
}

impl AlertPayload {
    /// An alert payload with the given title and body and nothing else.
    pub fn new(title: Option<String>, body: Option<String>) -> (r: Self)
        ensures
            r@ == titled(title.deep_view(), body.deep_view()),
    {
        AlertPayload {
            title: title,
            body: body,
            title_loc_key: None,
            title_loc_args: None,
            action_loc_key: None,
            loc_key: None,
            loc_args: None,
            loc_image: None,
        }
    }
}

impl Default for AlertPayload {
    fn default() -> (r: Self)
        ensures
            r@ == titled(None, None),
    {
        AlertPayload::new(None, None)
    }
}

/// What an alert holds.
pub enum AlertView {
    Simple(Seq<char>),
    Payload(AlertPayloadView),
}

/// The alert content: a plain message, or an alert payload. On the wire the
/// first is a bare string and the second an object, with no tag.
#[derive(Clone, Debug)]
pub enum Alert {
    Simple(String),
    Payload(AlertPayload),
}

impl View for Alert {
    type V = AlertView;

    open spec fn view(&self) -> AlertView {
        match self {
            Alert::Simple(s) => AlertView::Simple(s@),
            Alert::Payload(p) => AlertView::Payload(p@),
        }
    }
}

/// What an optional alert holds.
pub open spec fn alert_view(a: Option<Alert>) -> Option<AlertView> {
    match a {
        Some(x) => Some(x@),
        None => None,
    }
}

/// What a payload holds.
pub struct PayloadView {
    pub alert: Option<AlertView>,
    pub badge: Option<u32>,
    pub sound: Option<Seq<char>>,
    pub content_available: Option<bool>,
    pub category: Option<Seq<char>>,
    pub thread_id: Option<Seq<char>>,
}

/// The body of a notification. Absent fields are left out of the encoded body.
#[derive(Clone, Debug)]
pub struct Payload {
    pub alert: Option<Alert>,
    /// The numeric badge of the app; 0 removes it.
    pub badge: Option<u32>,
    /// The sound to play; `default` is the default sound.
    pub sound: Option<String>,
    /// Marks the app as having content available.
    pub content_available: Option<bool>,
    pub category: Option<String>,
    pub thread_id: Option<String>,
}

impl View for Payload {
    type V = PayloadView;

    open spec fn view(&self) -> PayloadView {
        PayloadView {
            alert: alert_view(self.alert),
            badge: self.badge,
            sound: self.sound.deep_view(),
            content_available: self.content_available,
            category: self.category.deep_view(),
            thread_id: self.thread_id.deep_view(),
        }
    }
}

/// A payload with nothing set.
pub open spec fn empty_payload() -> PayloadView {
    PayloadView {
        alert: None,
        badge: None,
        sound: None,
        content_available: None,
        category: None,
        thread_id: None,
    }
}

impl Default for Payload {
    fn default() -> (r: Self)
        ensures
            r@ == empty_payload(),
    {
        Payload {
            alert: None,
            badge: None,
            sound: None,
            content_available: None,
            category: None,
            thread_id: None,
        }
    }
}

/// The JSON body sent for a notification: the payload under the `aps` key.
#[derive(Clone, Debug)]
pub struct ApnsRequest {
    pub aps: Payload,
}

} // verus!
