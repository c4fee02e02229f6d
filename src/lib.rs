//! A client library for a push-notification delivery API: the notification
//! model, its builder, the encoding of delivery metadata as request headers,
//! and the classification of the service's answers.

mod text;
mod reason;

pub use text::{decimal, digit_char, hex_char, hex_digits, uuid_text};
pub use reason::{ApiError, ApiErrorReason, ErrorResponse, SendError, body_reason, byte_list, decodes_to, diagnostic, json_reason, known_reason, lemma_known_reason_round_trip, lemma_unknown_reason_round_trip};
mod payload;
pub use payload::{
    Alert, AlertPayload, AlertPayloadView, AlertView, ApnsRequest, COLLAPSE_ID_MAX_BYTES,
    CollapseId, CollapseIdTooLongError, Payload, PayloadView, Priority, alert_view, byte_len,
    empty_payload, titled,
};
mod notification;
pub use notification::{
    MessageId, Notification, NotificationBuilder, NotificationView, collapse_view, is_v4,
    lemma_title_body_commute, lemma_title_replaces_message, with_alert, with_body, with_payload,
    with_title,
};
mod client;
pub use client::{
    APN_URL_DEV, APN_URL_PRODUCTION, ApnsSync, ApnsSyncView, Auth, Dispatch, HttpPost, HttpPostView,
    ProviderCertificate, base_url, device_url, encode_headers, header_lines,
    lemma_absent_expiration_empty, lemma_known_rejection, optional_decimal, request_for,
    response_outcome,
};
