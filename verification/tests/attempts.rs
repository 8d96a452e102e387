use webhooks::events::{AttemptCollection, AttemptId, Message};
use webhooks::ids::{EndpointId, EventId, MessageId};
use webhooks::sender::Status::Numeric;
use webhooks::sender::{classify_response, SentResult, Status};

#[test]
fn get_attempts_from_collection() {
    let mut sut = AttemptCollection::new(MessageId::new());

    sut.push(Numeric(504));
    sut.push(Numeric(502));
    sut.push(Numeric(500));
    sut.push(Numeric(400));
    sut.push(Numeric(200));

    let mut vec = sut.all().into_iter();

    assert_eq!(Numeric(504), vec.next().unwrap().status());
    assert_eq!(Numeric(502), vec.next().unwrap().status());
    assert_eq!(Numeric(500), vec.next().unwrap().status());
    assert_eq!(Numeric(400), vec.next().unwrap().status());
    assert_eq!(Numeric(200), vec.next().unwrap().status());
    assert!(vec.next().is_none());
}

#[test]
fn should_have_ordered_unique_attempts() {
    let mut sut = AttemptCollection::new(MessageId::new());

    sut.push(Numeric(500));
    sut.push(Numeric(501));
    sut.push(Numeric(502));
    sut.push(Numeric(200));

    let vec = sut.all();
    let mut iter = vec.iter();

    assert_eq!(1, iter.next().unwrap().attempt_id());
    assert_eq!(2, iter.next().unwrap().attempt_id());
    assert_eq!(3, iter.next().unwrap().attempt_id());
    assert_eq!(4, iter.next().unwrap().attempt_id());
}

#[test]
fn attempt_id_rejects_zero() {
    assert!(AttemptId::new(MessageId::new(), 0).is_err());
    assert!(AttemptId::new(MessageId::new(), 1).is_ok());
}

#[test]
fn status_299_is_delivered_300_is_not() {
    assert!(Numeric(200).is_delivered());
    assert!(Numeric(299).is_delivered());
    assert!(!Numeric(300).is_delivered());
    assert!(!Numeric(400).is_delivered());
    assert!(!Status::Unknown(String::from("test")).is_delivered());

    assert!(classify_response(299, 5, String::from("response")).is_ok());
    assert!(classify_response(300, 5, String::from("response")).is_err());
}

#[test]
fn collection_from_parts_checks_consistency() {
    let message_id = MessageId::new();
    let mut source = AttemptCollection::new(message_id.clone());
    source.push(Numeric(500));
    source.push(Numeric(200));

    let rebuilt = AttemptCollection::from_parts(message_id.clone(), source.all());
    assert!(rebuilt.is_ok());

    // Rows for another message are rejected.
    assert!(AttemptCollection::from_parts(MessageId::new(), source.all()).is_err());

    // A delivered attempt followed by another is rejected.
    let mut more = AttemptCollection::new(message_id.clone());
    more.push(Numeric(200));
    more.push(Numeric(500));
    assert!(AttemptCollection::from_parts(message_id, more.all()).is_err());
}

#[test]
fn record_attempt_returns_matching_log() {
    let mut msg = Message::new(EventId::new(), EndpointId::new());

    let result = SentResult::with_body(Numeric(204), 37, String::from(""));
    let log = msg.record_attempt(result, 1000);

    assert_eq!(1, log.attempt_id());
    assert_eq!(msg.id, log.message_id());
    assert_eq!(1000, log.processing_time());
    assert_eq!(37, log.response_time());
    assert_eq!(Some(String::from("")), log.response_body());

    let attempts = msg.attempts();
    assert_eq!(1, attempts.len());
    assert_eq!(Numeric(204), attempts[0].status());
    assert!(attempts[0].is_delivered());
    assert!(msg.attempts.has_delivered());
}
