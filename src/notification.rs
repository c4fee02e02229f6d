use vstd::prelude::*;
use vstd::string::StringExecFns;
use crate::payload::{
    Alert, AlertPayload, AlertPayloadView, AlertView, CollapseId, Payload, PayloadView, Priority,
    empty_payload, titled,
};
use crate::text::uuid_text;

verus! {

/// The 128-bit identifier of a notification, a UUID.
#[derive(PartialEq, Eq, Structural, Clone, Copy, Debug)]
pub struct MessageId {
    pub value: u128,
}

/// A version-4 (random) UUID: version bits 4, variant bits `10`.
pub open spec fn is_v4(v: u128) -> bool {
    (v >> 76u128) & 0xfu128 == 4 && (v >> 62u128) & 0x3u128 == 2
}

/// Relies on uuid::Uuid::new_v4 and Uuid::as_u128: random bits with the
/// version set to 4 and the variant to `10`.
#[verifier::external_body]
fn random_uuid() -> (r: u128)
    ensures
        is_v4(r),
{
    uuid::Uuid::new_v4().as_u128()
}

/// Relies on uuid::Uuid::from_u128 and uuid's `Display`: the value, taken
/// big-endian, as 32 lower-case hex digits grouped 8-4-4-4-12.
#[verifier::external_body]
fn uuid_hyphenated(v: u128) -> (r: String)
    ensures
        r@ == uuid_text(v),
{
    uuid::Uuid::from_u128(v).to_string()
}

impl MessageId {
    /// A fresh random identifier, a version-4 UUID.
    pub fn new_v4() -> (r: Self)
        ensures
            is_v4(r.value),
    {
        MessageId { value: random_uuid() }
    }

    /// The hyphenated text of the identifier.
    pub fn to_hyphenated(&self) -> (r: String)
        ensures
            r@ == uuid_text(self.value),
    {
        uuid_hyphenated(self.value)
    }
}

/// What a notification holds.
pub struct NotificationView {
    pub topic: Seq<char>,
    pub device_token: Seq<char>,
    pub payload: PayloadView,
    pub id: Option<MessageId>,
    pub expiration: Option<u64>,
    pub priority: Option<Priority>,
    pub collapse_id: Option<Seq<char>>,
}

/// A notification: the payload and the delivery metadata sent as headers.
#[derive(Clone, Debug)]
pub struct Notification {
    /// The topic to use, usually the app's bundle id.
    pub topic: String,
    pub device_token: String,
    pub payload: Payload,
    /// Identifies the message; one is made at sending when absent.
    pub id: Option<MessageId>,
    /// Expiration time as a UNIX timestamp.
    pub expiration: Option<u64>,
    pub priority: Option<Priority>,
    pub collapse_id: Option<CollapseId>,
}

/// What an optional collapse id holds.
pub open spec fn collapse_view(c: Option<CollapseId>) -> Option<Seq<char>> {
    match c {
        Some(x) => Some(x@),
        None => None,
    }
}

impl View for Notification {
    type V = NotificationView;

    open spec fn view(&self) -> NotificationView {
        NotificationView {
            topic: self.topic@,
            device_token: self.device_token@,
            payload: self.payload@,
            id: self.id,
            expiration: self.expiration,
            priority: self.priority,
            collapse_id: collapse_view(self.collapse_id),
        }
    }
}

impl Notification {
    /// A notification with the given topic, device token and payload, and no
    /// metadata.
    pub fn new(topic: String, device_token: String, payload: Payload) -> (r: Self)
        ensures
            r@ == (NotificationView {
                topic: topic@,
                device_token: device_token@,
                payload: payload@,
                id: None,
                expiration: None,
                priority: None,
                collapse_id: None,
            }),
    {
        Notification {
            topic,
            device_token,
            payload,
            id: None,
            expiration: None,
            priority: None,
            collapse_id: None,
        }
    }
}

/// The alert after a title is set: a plain message is dropped, the title of
/// an alert payload is replaced, and its other fields are kept.
pub open spec fn with_title(a: Option<AlertView>, t: Seq<char>) -> AlertView {
    match a {
        Some(AlertView::Payload(p)) => AlertView::Payload(AlertPayloadView { title: Some(t), ..p }),
        _ => AlertView::Payload(titled(Some(t), None)),
    }
}

/// The alert after a body is set: a plain message becomes the title, the
/// body of an alert payload is replaced, and its other fields are kept.
pub open spec fn with_body(a: Option<AlertView>, b: Seq<char>) -> AlertView {
    match a {
        None => AlertView::Payload(titled(None, Some(b))),
        Some(AlertView::Simple(s)) => AlertView::Payload(titled(Some(s), Some(b))),
        Some(AlertView::Payload(p)) => AlertView::Payload(AlertPayloadView { body: Some(b), ..p }),
    }
}

/// The notification with its payload replaced.
pub open spec fn with_payload(n: NotificationView, p: PayloadView) -> NotificationView {
    NotificationView { payload: p, ..n }
}

/// The notification with its alert replaced.
pub open spec fn with_alert(n: NotificationView, a: AlertView) -> NotificationView {
    with_payload(n, PayloadView { alert: Some(a), ..n.payload })
}

/// Builds a notification one field at a time.
pub struct NotificationBuilder {
    notification: Notification,
}

impl View for NotificationBuilder {
    type V = NotificationView;

    closed spec fn view(&self) -> NotificationView {
        self.notification@
    }
}

impl NotificationBuilder {
    /// A builder for a notification to `device_id` under `topic`, with an
    /// empty payload.
    pub fn new(topic: String, device_id: String) -> (r: Self)
        ensures
            r@ == (NotificationView {
                topic: topic@,
                device_token: device_id@,
                payload: empty_payload(),
                id: None,
                expiration: None,
                priority: None,
                collapse_id: None,
            }),
    {
        NotificationBuilder { notification: Notification::new(topic, device_id, Payload::default()) }
    }

    /// Replaces the whole payload.
    pub fn payload(self, payload: Payload) -> (r: Self)
        ensures
            r@ == with_payload(self@, payload@),
    {
        let mut n = self.notification;
        n.payload = payload;
        NotificationBuilder { notification: n }
    }

    /// Sets a plain alert message, replacing any alert.
    pub fn alert(self, alert: &str) -> (r: Self)
        ensures
            r@ == with_alert(self@, AlertView::Simple(alert@)),
    {
        let mut n = self.notification;
        n.payload.alert = Some(Alert::Simple(String::from_str(alert)));
        NotificationBuilder { notification: n }
    }

    /// Sets the alert's title.
    pub fn title(self, title: &str) -> (r: Self)
        ensures
            r@ == with_alert(self@, with_title(self@.payload.alert, title@)),
    {
        let title = String::from_str(title);
        let mut n = self.notification;
        let payload = match n.payload.alert {
            None => AlertPayload::new(Some(title), None),
            Some(Alert::Simple(_)) => AlertPayload::new(Some(title), None),
            Some(Alert::Payload(p)) => {
                let mut p = p;
                p.title = Some(title);
                p
            },
        };
        n.payload.alert = Some(Alert::Payload(payload));
        NotificationBuilder { notification: n }
    }

    /// Sets the alert's body.
    pub fn body(self, body: &str) -> (r: Self)
        ensures
            r@ == with_alert(self@, with_body(self@.payload.alert, body@)),
    {
        let body = String::from_str(body);
        let mut n = self.notification;
        let payload = match n.payload.alert {
            None => AlertPayload::new(None, Some(body)),
            Some(Alert::Simple(title)) => AlertPayload::new(Some(title), Some(body)),
            Some(Alert::Payload(p)) => {
                let mut p = p;
                p.body = Some(body);
                p
            },
        };
        n.payload.alert = Some(Alert::Payload(payload));
        NotificationBuilder { notification: n }
    }

    /// Sets the badge number.
    pub fn badge(self, number: u32) -> (r: Self)
        ensures
            r@ == with_payload(self@, PayloadView { badge: Some(number), ..self@.payload }),
    {
        let mut n = self.notification;
        n.payload.badge = Some(number);
        NotificationBuilder { notification: n }
    }

    /// Sets the sound to play.
    pub fn sound(self, sound: &str) -> (r: Self)
        ensures
            r@ == with_payload(self@, PayloadView { sound: Some(sound@), ..self@.payload }),
    {
        let mut n = self.notification;
        n.payload.sound = Some(String::from_str(sound));
        NotificationBuilder { notification: n }
    }

    /// Marks the app as having content available.
    pub fn content_available(self) -> (r: Self)
        ensures
            r@ == with_payload(self@, PayloadView { content_available: Some(true), ..self@.payload }),
    {
        let mut n = self.notification;
        n.payload.content_available = Some(true);
        NotificationBuilder { notification: n }
    }

    /// Sets the category.
    pub fn category(self, category: String) -> (r: Self)
        ensures
            r@ == with_payload(self@, PayloadView { category: Some(category@), ..self@.payload }),
    {
        let mut n = self.notification;
        n.payload.category = Some(category);
        NotificationBuilder { notification: n }
    }

    /// Sets the thread id, which groups notifications.
    pub fn thread_id(self, thread_id: String) -> (r: Self)
        ensures
            r@ == with_payload(self@, PayloadView { thread_id: Some(thread_id@), ..self@.payload }),
    {
        let mut n = self.notification;
        n.payload.thread_id = Some(thread_id);
        NotificationBuilder { notification: n }
    }

    /// Sets the notification's id.
    pub fn id(self, id: MessageId) -> (r: Self)
        ensures
            r@ == (NotificationView { id: Some(id), ..self@ }),
    {
        let mut n = self.notification;
        n.id = Some(id);
        NotificationBuilder { notification: n }
    }

    /// Sets the expiration time, a UNIX timestamp.
    pub fn expiration(self, expiration: u64) -> (r: Self)
        ensures
            r@ == (NotificationView { expiration: Some(expiration), ..self@ }),
    {
        let mut n = self.notification;
        n.expiration = Some(expiration);
        NotificationBuilder { notification: n }
    }

    /// Sets the priority.
    pub fn priority(self, priority: Priority) -> (r: Self)
        ensures
            r@ == (NotificationView { priority: Some(priority), ..self@ }),
    {
        let mut n = self.notification;
        n.priority = Some(priority);
        NotificationBuilder { notification: n }
    }

    /// Sets the collapse id.
    pub fn collapse_id(self, id: CollapseId) -> (r: Self)
        ensures
            r@ == (NotificationView { collapse_id: Some(id@), ..self@ }),
    {
        let mut n = self.notification;
        n.collapse_id = Some(id);
        NotificationBuilder { notification: n }
    }

    /// The notification built so far.
    pub fn build(self) -> (r: Notification)
        ensures
            r@ == self@,
    {
        self.notification
    }
}

/// Setting a title and a body gives the same alert in either order; on a
/// notification with no alert it is an alert payload with just that title
/// and body.
pub proof fn lemma_title_body_commute(n: NotificationView, t: Seq<char>, b: Seq<char>)
    ensures
        with_body(Some(with_title(n.payload.alert, t)), b)
            == with_title(Some(with_body(n.payload.alert, b)), t),
        n.payload.alert is None ==> with_body(Some(with_title(n.payload.alert, t)), b)
            == AlertView::Payload(titled(Some(t), Some(b))),
{
}

/// Setting a title over a plain message drops the message: the alert holds
/// the title and no body.
pub proof fn lemma_title_replaces_message(n: NotificationView, x: Seq<char>, t: Seq<char>)
    requires
        n.payload.alert == Some(AlertView::Simple(x)),
    ensures
        with_title(n.payload.alert, t) == AlertView::Payload(titled(Some(t), None)),
{
}

} // verus!
