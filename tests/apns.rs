use apns::{
    Alert, AlertPayload, ApiError, ApiErrorReason, ApnsSync, Auth, CollapseId, ErrorResponse,
    MessageId, Notification, NotificationBuilder, Payload, Priority, ProviderCertificate,
    SendError, encode_headers, APN_URL_DEV, APN_URL_PRODUCTION,
};

const KNOWN: [&str; 28] = [
    "BadCollapseId", "BadDeviceToken", "BadExpirationDate", "BadMessageId", "BadPriority",
    "BadTopic", "DeviceTokenNotForTopic", "DuplicateHeaders", "IdleTimeout",
    "MissingDeviceToken", "MissingTopic", "PayloadEmpty", "TopicDisallowed", "BadCertificate",
    "BadCertificateEnvironment", "ExpiredProviderToken", "Forbidden", "InvalidProviderToken",
    "MissingProviderToken", "BadPath", "MethodNotAllowed", "Unregistered", "PayloadTooLarge",
    "TooManyProviderTokenUpdates", "TooManyRequests", "InternalServerError",
    "ServiceUnavailable", "Shutdown",
];

fn client() -> ApnsSync {
    ApnsSync::with_certificate("cert.p12".to_string(), Some("pw".to_string()))
}

fn alert_payload(n: &Notification) -> AlertPayload {
    match &n.payload.alert {
        Some(Alert::Payload(p)) => p.clone(),
        _ => panic!("expected an alert payload"),
    }
}

#[test]
fn known_reason_names_round_trip() {
    for name in KNOWN.iter() {
        let r = ApiErrorReason::from_str(name);
        assert!(!matches!(r, ApiErrorReason::Other(_)), "{}", name);
        assert_eq!(r.to_str(), *name);
        assert_eq!(ApiErrorReason::from_str(r.to_str()).to_str(), *name);
    }
    assert!(matches!(ApiErrorReason::from_str("Unregistered"), ApiErrorReason::Unregistered));
    assert!(matches!(ApiErrorReason::from_str("Shutdown"), ApiErrorReason::Shutdown));
}

#[test]
fn unknown_reason_name_is_kept() {
    let r = ApiErrorReason::from_str("SomethingNew");
    match &r {
        ApiErrorReason::Other(s) => assert_eq!(s, "SomethingNew"),
        _ => panic!("expected Other"),
    }
    assert_eq!(r.to_str(), "SomethingNew");
    assert!(matches!(ApiErrorReason::from_str("unregistered"), ApiErrorReason::Other(_)));
    assert!(matches!(ApiErrorReason::from_str(""), ApiErrorReason::Other(_)));
}

#[test]
fn parse_known_reason_body() {
    let r = ErrorResponse::parse_payload(br#"{"reason":"Unregistered"}"#);
    assert!(matches!(r, ApiErrorReason::Unregistered));
    let r = ErrorResponse::parse_payload(br#"{"timestamp": 5, "reason": "BadDeviceToken"}"#);
    assert!(r.is_bad_device_token());
}

#[test]
fn parse_unknown_reason_body() {
    let r = ErrorResponse::parse_payload(br#"{"reason":"BrandNewReason"}"#);
    assert_eq!(r.to_str(), "BrandNewReason");
    assert!(matches!(r, ApiErrorReason::Other(_)));
}

#[test]
fn parse_malformed_body() {
    let r = ErrorResponse::parse_payload(b"oops");
    assert_eq!(r.to_str(), "Unknown API response: [111, 111, 112, 115]");
    let r = ErrorResponse::parse_payload(b"");
    assert_eq!(r.to_str(), "Unknown API response: []");
    let r = ErrorResponse::parse_payload(br#"{"reason": 7}"#);
    assert!(matches!(r, ApiErrorReason::Other(_)));
    assert!(r.to_str().starts_with("Unknown API response: [123, "));
    let r = ErrorResponse::parse_payload(&[255]);
    assert_eq!(r.to_str(), "Unknown API response: [255]");
}

#[test]
fn bad_device_token_predicate() {
    assert!(ApiErrorReason::BadDeviceToken.is_bad_device_token());
    assert!(!ApiErrorReason::Unregistered.is_bad_device_token());
    assert!(!ApiErrorReason::Other("BadDeviceToken".to_string()).is_bad_device_token());
    let e = ApiError { status: 400, reason: ApiErrorReason::BadDeviceToken };
    assert!(e.is_bad_device_token());
    assert!(SendError::Api(e).is_bad_device_token());
    let o = SendError::Other("connection refused".to_string());
    assert!(!o.is_bad_device_token());
    assert!(o.as_api_error().is_none());
}

#[test]
fn priority_numbers() {
    assert_eq!(Priority::Low.to_int(), 5);
    assert_eq!(Priority::High.to_int(), 10);
}

#[test]
fn collapse_id_bounds() {
    assert!(CollapseId::new(String::new()).is_ok());
    let ok = CollapseId::new("a".repeat(64)).unwrap();
    assert_eq!(ok.as_str(), "a".repeat(64));
    assert!(CollapseId::new("a".repeat(65)).is_err());
    // 32 two-byte characters are 64 bytes; 33 are too many.
    assert!(CollapseId::new("é".repeat(32)).is_ok());
    assert!(CollapseId::new("é".repeat(33)).is_err());
}

#[test]
fn title_then_body_and_body_then_title_agree() {
    let a = NotificationBuilder::new("t".to_string(), "d".to_string()).title("T").body("B").build();
    let b = NotificationBuilder::new("t".to_string(), "d".to_string()).body("B").title("T").build();
    for n in [a, b].iter() {
        let p = alert_payload(n);
        assert_eq!(p.title.as_deref(), Some("T"));
        assert_eq!(p.body.as_deref(), Some("B"));
        assert!(p.loc_key.is_none());
    }
}

#[test]
fn title_replaces_plain_alert() {
    let n = NotificationBuilder::new("t".to_string(), "d".to_string()).alert("X").title("T").build();
    let p = alert_payload(&n);
    assert_eq!(p.title.as_deref(), Some("T"));
    assert_eq!(p.body, None);
}

#[test]
fn body_keeps_plain_alert_as_title() {
    let n = NotificationBuilder::new("t".to_string(), "d".to_string()).alert("X").body("B").build();
    let p = alert_payload(&n);
    assert_eq!(p.title.as_deref(), Some("X"));
    assert_eq!(p.body.as_deref(), Some("B"));
}

#[test]
fn title_keeps_other_alert_fields() {
    let mut ap = AlertPayload::new(None, Some("B".to_string()));
    ap.loc_key = Some("K".to_string());
    let mut payload = Payload::default();
    payload.alert = Some(Alert::Payload(ap));
    let n = NotificationBuilder::new("t".to_string(), "d".to_string())
        .payload(payload)
        .title("T")
        .build();
    let p = alert_payload(&n);
    assert_eq!(p.title.as_deref(), Some("T"));
    assert_eq!(p.body.as_deref(), Some("B"));
    assert_eq!(p.loc_key.as_deref(), Some("K"));
}

#[test]
fn plain_setters_assign() {
    let cid = CollapseId::new("group".to_string()).unwrap();
    let n = NotificationBuilder::new("topic".to_string(), "token".to_string())
        .alert("Hi")
        .alert("Hello")
        .badge(3)
        .sound("default")
        .content_available()
        .category("cat".to_string())
        .thread_id("th".to_string())
        .id(MessageId { value: 7 })
        .expiration(100)
        .expiration(200)
        .priority(Priority::Low)
        .collapse_id(cid)
        .build();
    assert_eq!(n.topic, "topic");
    assert_eq!(n.device_token, "token");
    assert!(matches!(&n.payload.alert, Some(Alert::Simple(s)) if s == "Hello"));
    assert_eq!(n.payload.badge, Some(3));
    assert_eq!(n.payload.sound.as_deref(), Some("default"));
    assert_eq!(n.payload.content_available, Some(true));
    assert_eq!(n.payload.category.as_deref(), Some("cat"));
    assert_eq!(n.payload.thread_id.as_deref(), Some("th"));
    assert_eq!(n.id, Some(MessageId { value: 7 }));
    assert_eq!(n.expiration, Some(200));
    assert_eq!(n.priority, Some(Priority::Low));
    assert_eq!(n.collapse_id.as_ref().map(|c| c.as_str()), Some("group"));
}

#[test]
fn headers_of_a_bare_notification() {
    let n = Notification::new("com.example.app".to_string(), "abcd1234".to_string(), Payload::default());
    let id = MessageId { value: 0x0123456789abcdef0011223344556677 };
    let h = encode_headers(&n, id);
    assert_eq!(
        h,
        vec![
            "apns-id:01234567-89ab-cdef-0011-223344556677".to_string(),
            "apns-expiration:".to_string(),
            "apns-priority:".to_string(),
            "apns-topic:com.example.app".to_string(),
            "apns-collapse-id:".to_string(),
        ]
    );
}

#[test]
fn headers_with_metadata() {
    let n = NotificationBuilder::new("com.example.app".to_string(), "abcd1234".to_string())
        .expiration(1500000000)
        .priority(Priority::High)
        .collapse_id(CollapseId::new("news".to_string()).unwrap())
        .build();
    let h = encode_headers(&n, MessageId { value: 0 });
    assert_eq!(h[0], "apns-id:00000000-0000-0000-0000-000000000000");
    assert_eq!(h[1], "apns-expiration:1500000000");
    assert_eq!(h[2], "apns-priority:10");
    assert_eq!(h[4], "apns-collapse-id:news");
    let n = NotificationBuilder::new("a".to_string(), "b".to_string())
        .expiration(0)
        .priority(Priority::Low)
        .build();
    let h = encode_headers(&n, MessageId { value: u128::MAX });
    assert_eq!(h[0], "apns-id:ffffffff-ffff-ffff-ffff-ffffffffffff");
    assert_eq!(h[1], "apns-expiration:0");
    assert_eq!(h[2], "apns-priority:5");
    let h = encode_headers(&NotificationBuilder::new("a".to_string(), "b".to_string()).expiration(u64::MAX).build(), MessageId { value: 1 });
    assert_eq!(h[1], "apns-expiration:18446744073709551615");
}

#[test]
fn disabled_delivery_returns_the_configured_id() {
    let mut c = client();
    c.disable_delivery_for_testing();
    let n = NotificationBuilder::new("com.example.app".to_string(), "abcd1234".to_string())
        .alert("Hello")
        .id(MessageId { value: 42 })
        .build();
    let d = c.dispatch(n);
    assert_eq!(d.id, MessageId { value: 42 });
    assert!(d.request.is_none());
}

#[test]
fn disabled_delivery_makes_an_id() {
    let mut c = client();
    c.disable_delivery_for_testing();
    let n = NotificationBuilder::new("com.example.app".to_string(), "abcd1234".to_string())
        .alert("Hello")
        .build();
    let a = c.dispatch(n.clone());
    let b = c.dispatch(n);
    assert!(a.request.is_none());
    assert_ne!(a.id, b.id);
    assert_eq!((a.id.value >> 76) & 0xf, 4);
}

#[test]
fn dispatch_builds_the_request() {
    let c = client();
    let n = NotificationBuilder::new("com.example.app".to_string(), "abcd1234".to_string())
        .alert("Hello")
        .id(MessageId { value: 1 })
        .build();
    let d = c.dispatch(n);
    let q = d.request.unwrap();
    assert_eq!(q.url, format!("{}/3/device/abcd1234", APN_URL_PRODUCTION));
    assert_eq!(q.url, "https://api.push.apple.com/3/device/abcd1234");
    assert_eq!(q.headers.len(), 5);
    assert_eq!(q.headers[0], "apns-id:00000000-0000-0000-0000-000000000001");
    assert_eq!(q.headers[3], "apns-topic:com.example.app");
    assert!(matches!(&q.body.aps.alert, Some(Alert::Simple(s)) if s == "Hello"));

    let mut c = client();
    c.set_production(false);
    c.set_verbose(true);
    assert!(c.is_verbose());
    let q = c.dispatch(NotificationBuilder::new("t".to_string(), "tok".to_string()).build()).request.unwrap();
    assert_eq!(q.url, format!("{}/3/device/tok", APN_URL_DEV));
    assert_eq!(c.build_url("x"), "https://api.development.push.apple.com/3/device/x");
}

#[test]
fn status_200_is_success() {
    let r = ApnsSync::interpret_response(MessageId { value: 9 }, 200, b"");
    assert_eq!(r.unwrap(), MessageId { value: 9 });
}

#[test]
fn status_410_unregistered_is_rejection() {
    let r = ApnsSync::interpret_response(MessageId { value: 9 }, 410, br#"{"reason":"Unregistered"}"#);
    let e = r.unwrap_err();
    let api = e.as_api_error().unwrap();
    assert_eq!(api.status, 410);
    assert!(matches!(api.reason, ApiErrorReason::Unregistered));
    assert!(!api.is_bad_device_token());
    assert!(!e.is_bad_device_token());
    let e = ApnsSync::interpret_response(MessageId { value: 9 }, 400, br#"{"reason":"BadDeviceToken"}"#).unwrap_err();
    assert!(e.is_bad_device_token());
    let e = ApnsSync::interpret_response(MessageId { value: 9 }, 500, b"<html>").unwrap_err();
    assert!(matches!(e, SendError::Api(ApiError { status: 500, reason: ApiErrorReason::Other(_) })));
}

#[test]
fn certificate_is_kept() {
    let c = client();
    let cert = c.get_auth().as_cert();
    assert_eq!(cert.p12_path, "cert.p12");
    assert_eq!(cert.passphrase.as_deref(), Some("pw"));
    let a = Auth::ProviderCertificate(ProviderCertificate { p12_path: "p".to_string(), passphrase: None });
    assert!(ApnsSync::new(a).get_auth().as_cert().passphrase.is_none());
}

#[test]
fn api_error_converts_into_send_error() {
    let e: SendError = ApiError { status: 403, reason: ApiErrorReason::Forbidden }.into();
    let api = e.as_api_error().unwrap();
    assert_eq!(api.status, 403);
    assert!(matches!(api.reason, ApiErrorReason::Forbidden));
}

#[test]
fn fresh_ids_are_version_four() {
    for _ in 0..16 {
        let id = MessageId::new_v4();
        assert_eq!((id.value >> 76) & 0xf, 4);
        assert_eq!((id.value >> 62) & 0x3, 2);
    }
    let mut c = client();
    c.disable_delivery_for_testing();
    let d = c.dispatch(NotificationBuilder::new("t".to_string(), "d".to_string()).build());
    assert_eq!((d.id.value >> 62) & 0x3, 2);
}
