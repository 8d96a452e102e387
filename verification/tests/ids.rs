use webhooks::ids::{ApplicationId, EndpointId, EventId, IdBody, MessageId};

#[test]
fn can_be_build_from_string() {
    assert!(IdBody::parse("test", "test_1srOrx2ZWZBpBUvZwXKQmoEYga2").is_ok())
}

#[test]
fn eq_test() {
    let a = IdBody::parse("test", "test_1srOrx2ZWZBpBUvZwXKQmoEYga2").unwrap();
    let b = IdBody::parse("test", "test_1srOrx2ZWZBpBUvZwXKQmoEYga2").unwrap();
    let c = IdBody::parse("test", "test_0ujtsYcgvSTl8PAuAdqWYSMnLOv").unwrap();

    assert!(a.eq(&b));
    assert!(a.eq(&a));
    assert!(!a.eq(&c));
    assert!(!b.eq(&c));
}

#[test]
fn display_with_prefix() {
    let sut = IdBody::fresh();

    let binding = sut.prefixed_string("test");
    let (prefix, _) = binding.split_once('_').unwrap();

    assert_eq!("test", prefix);
}

#[test]
fn debug_format() {
    let sut = IdBody::parse("test", "test_1srOrx2ZWZBpBUvZwXKQmoEYga2").unwrap();

    assert_eq!(
        "test_1srOrx2ZWZBpBUvZwXKQmoEYga2",
        sut.prefixed_string("test")
    );
}

#[test]
fn test_to_base62() {
    let sut = IdBody::parse("test", "test_1srOrx2ZWZBpBUvZwXKQmoEYga2").unwrap();

    assert_eq!("1srOrx2ZWZBpBUvZwXKQmoEYga2", sut.to_base62());
}

#[test]
fn id_round_trip() {
    let id = IdBody::fresh();
    let printed = id.prefixed_string("test");

    let parsed = IdBody::parse("test", printed.as_str()).unwrap();

    assert_eq!(id, parsed);
    assert_eq!(id.to_base62(), parsed.to_base62());
}

#[test]
fn overflowing_body_is_canonicalized() {
    // 27 times 'z' encodes a value above 160 bits; the decoder keeps the low
    // 20 bytes, so the stored body differs from the input.
    let sut = IdBody::parse("test", "test_zzzzzzzzzzzzzzzzzzzzzzzzzzz").unwrap();

    let body = sut.to_base62();
    assert_eq!(27, body.chars().count());
    assert_ne!("zzzzzzzzzzzzzzzzzzzzzzzzzzz", body);
}

#[test]
fn parse_rejects_malformed_strings() {
    assert!(IdBody::parse("test", "wrong_1srOrx2ZWZBpBUvZwXKQmoEYga2").is_err());
    assert!(IdBody::parse("test", "1srOrx2ZWZBpBUvZwXKQmoEYga2").is_err());
    assert!(IdBody::parse("test", "test_").is_err());
    assert!(IdBody::parse("test", "test_foo").is_err());
    assert!(IdBody::parse("test", "test_1srOrx2ZWZBpBUvZwXKQmoEYga!").is_err());
    assert!(IdBody::parse("test", "").is_err());
}

#[test]
fn entity_ids_carry_their_prefixes() {
    let app = ApplicationId::new();
    assert!(app.id_string().starts_with("app_"));
    assert!(ApplicationId::parse(app.id_string().as_str()).is_ok());

    let ep = EndpointId::new();
    assert!(ep.id_string().starts_with("ep_"));
    assert!(EndpointId::parse(ep.id_string().as_str()).is_ok());

    let evt = EventId::new();
    assert!(evt.id_string().starts_with("evt_"));
    assert!(EventId::parse(evt.id_string().as_str()).is_ok());

    let msg = MessageId::new();
    assert!(msg.id_string().starts_with("rmsg_"));
    assert!(MessageId::parse(msg.id_string().as_str()).is_ok());

    // A prefix of the wrong kind is rejected.
    assert!(EndpointId::parse(app.id_string().as_str()).is_err());
}
