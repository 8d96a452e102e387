use webhooks::circuit_breaker::CircuitBreaker;
use webhooks::configuration::EndpointStatus;
use webhooks::dispatch::{dispatch_begin, dispatch_finish};
use webhooks::events::Event;
use webhooks::ingest::{
    create_application, create_endpoint, create_event, route_event, CreateAppRequest,
    CreateEndpointRequest, CreateEventRequest,
};
use webhooks::retry::{ExponentialConfig, RandCrateRandomGenerator, Retry, RetryPolicyConfig};
use webhooks::sender::Status::{Numeric, Unknown};
use webhooks::sender::{classify_response, SentResult};

fn policy() -> Retry<RandCrateRandomGenerator> {
    Retry::new(
        5,
        RetryPolicyConfig::Exponential(ExponentialConfig::new(2, 2000)),
        None,
        RandCrateRandomGenerator::new(),
    )
}

fn acme_event(topic: &str) -> (webhooks::configuration::Application, Event) {
    let app = create_application(&CreateAppRequest { name: String::from("Acme") }).unwrap();
    let request = CreateEventRequest {
        topic: String::from(topic),
        payload: String::from("{\"foo\":\"bar\"}"),
    };
    let event = create_event(&request, &app, 1_000).unwrap();
    (app, event)
}

#[test]
fn happy_path() {
    let (app, event) = acme_event("contact.created");
    let request = CreateEndpointRequest {
        url: String::from("http://svc/hook"),
        topics: vec![String::from("contact.created")],
    };
    let mut endpoint = create_endpoint(&request, app.id.clone()).unwrap();

    let (mut messages, tasks) = route_event(&event, &vec![endpoint.clone()]);
    assert_eq!(1, messages.len());
    let mut msg = messages.remove(0);
    let task = tasks[0].clone();

    let mut breaker = CircuitBreaker::new();
    assert!(dispatch_begin(&mut breaker, &endpoint));

    let outcome = classify_response(204, 12, String::from(""));
    let processing = event.calculate_processing_time(2_000);
    let plan = dispatch_finish(
        &mut breaker,
        &mut msg,
        &mut endpoint,
        &policy(),
        &task,
        outcome,
        processing,
    );

    let attempts = msg.attempts();
    assert_eq!(1, attempts.len());
    assert_eq!(Numeric(204), attempts[0].status());
    assert!(attempts[0].is_delivered());
    assert!(matches!(endpoint.status, EndpointStatus::Initial));
    assert!(!plan.disable_endpoint);
    assert!(plan.retry.is_none());
    assert_eq!(Some(String::from("")), plan.log.response_body());
    assert_eq!(1000, plan.log.processing_time());
}

#[test]
fn retry_then_succeed() {
    let (app, event) = acme_event("contact.created");
    let request = CreateEndpointRequest {
        url: String::from("http://svc/hook"),
        topics: vec![String::from("contact.created")],
    };
    let mut endpoint = create_endpoint(&request, app.id.clone()).unwrap();

    let (mut messages, tasks) = route_event(&event, &vec![endpoint.clone()]);
    let mut msg = messages.remove(0);
    let task1 = tasks[0].clone();

    let retry_policy = policy();
    let mut breaker = CircuitBreaker::new();

    // Attempt 1: 502.
    assert!(dispatch_begin(&mut breaker, &endpoint));
    let plan1 = dispatch_finish(
        &mut breaker,
        &mut msg,
        &mut endpoint,
        &retry_policy,
        &task1,
        classify_response(502, 10, String::from("bad gateway")),
        100,
    );
    let (task2, delay1) = plan1.retry.expect("first failure schedules a retry");
    assert_eq!(2000, delay1);
    assert_eq!(2, task2.attempt);
    assert!(!plan1.disable_endpoint);

    // Attempt 2: 502 again.
    assert!(dispatch_begin(&mut breaker, &endpoint));
    let plan2 = dispatch_finish(
        &mut breaker,
        &mut msg,
        &mut endpoint,
        &retry_policy,
        &task2,
        classify_response(502, 10, String::from("bad gateway")),
        100,
    );
    let (task3, delay2) = plan2.retry.expect("second failure schedules a retry");
    assert_eq!(4000, delay2);
    assert_eq!(3, task3.attempt);

    // Attempt 3: 200.
    assert!(dispatch_begin(&mut breaker, &endpoint));
    let plan3 = dispatch_finish(
        &mut breaker,
        &mut msg,
        &mut endpoint,
        &retry_policy,
        &task3,
        classify_response(200, 10, String::from("ok")),
        100,
    );
    assert!(plan3.retry.is_none());
    assert!(!plan3.disable_endpoint);

    let statuses: Vec<_> = msg.attempts().iter().map(|a| a.status()).collect();
    assert_eq!(vec![Numeric(502), Numeric(502), Numeric(200)], statuses);
    assert!(matches!(endpoint.status, EndpointStatus::Initial));
}

#[test]
fn breaker_trips_and_disables_endpoint() {
    let (app, event) = acme_event("contact.created");
    let request = CreateEndpointRequest {
        url: String::from("http://svc/hook"),
        topics: vec![String::from("contact.created")],
    };
    let mut endpoint = create_endpoint(&request, app.id.clone()).unwrap();

    let (mut messages, tasks) = route_event(&event, &vec![endpoint.clone()]);
    let mut msg = messages.remove(0);
    let mut task = tasks[0].clone();

    let retry_policy = policy();
    let mut breaker = CircuitBreaker::new();

    // Two failures leave the breaker open and schedule retries.
    for _ in 0..2 {
        assert!(dispatch_begin(&mut breaker, &endpoint));
        let plan = dispatch_finish(
            &mut breaker,
            &mut msg,
            &mut endpoint,
            &retry_policy,
            &task,
            classify_response(500, 10, String::from("boom")),
            100,
        );
        assert!(!plan.disable_endpoint);
        let (next, _) = plan.retry.expect("retry scheduled while the breaker holds");
        task = next;
    }

    // The third consecutive failure trips the breaker.
    assert!(dispatch_begin(&mut breaker, &endpoint));
    let plan = dispatch_finish(
        &mut breaker,
        &mut msg,
        &mut endpoint,
        &retry_policy,
        &task,
        classify_response(500, 10, String::from("boom")),
        100,
    );
    assert!(plan.disable_endpoint);
    assert!(plan.retry.is_none());
    assert!(matches!(endpoint.status, EndpointStatus::DisabledFailing));

    let statuses: Vec<_> = msg.attempts().iter().map(|a| a.status()).collect();
    assert_eq!(vec![Numeric(500), Numeric(500), Numeric(500)], statuses);

    // A later task for this endpoint (say, from another event) is rejected
    // without an attempt: the endpoint is disabled, so no revive happens.
    let (more_messages, _) = route_event(&event, &vec![endpoint.clone()]);
    assert_eq!(0, more_messages.len());
    assert!(!dispatch_begin(&mut breaker, &endpoint));
}

#[test]
fn transport_error_unknown() {
    let (app, event) = acme_event("contact.created");
    let request = CreateEndpointRequest {
        url: String::from("http://svc/hook"),
        topics: vec![String::from("contact.created")],
    };
    let mut endpoint = create_endpoint(&request, app.id.clone()).unwrap();

    let (mut messages, tasks) = route_event(&event, &vec![endpoint.clone()]);
    let mut msg = messages.remove(0);
    let task = tasks[0].clone();

    let mut breaker = CircuitBreaker::new();
    assert!(dispatch_begin(&mut breaker, &endpoint));

    // The sender maps a connection failure to an Unknown status, no body.
    let outcome = Err(SentResult::without_body(
        Unknown(String::from("connection refused")),
        30,
    ));
    let plan = dispatch_finish(
        &mut breaker,
        &mut msg,
        &mut endpoint,
        &policy(),
        &task,
        outcome,
        100,
    );

    let attempts = msg.attempts();
    assert_eq!(1, attempts.len());
    assert_eq!(Unknown(String::from("connection refused")), attempts[0].status());
    assert!(!attempts[0].is_delivered());
    assert_eq!(None, plan.log.response_body());
    assert!(plan.retry.is_some());
}

#[test]
fn revive_on_enable() {
    let (app, event) = acme_event("contact.created");
    let request = CreateEndpointRequest {
        url: String::from("http://svc/hook"),
        topics: vec![String::from("contact.created")],
    };
    let mut endpoint = create_endpoint(&request, app.id.clone()).unwrap();

    let retry_policy = policy();
    let mut breaker = CircuitBreaker::new();

    // Run the endpoint into the ground: three failures trip the breaker and
    // disable the endpoint.
    let (mut messages, tasks) = route_event(&event, &vec![endpoint.clone()]);
    let mut msg = messages.remove(0);
    let mut task = tasks[0].clone();
    for _ in 0..3 {
        assert!(dispatch_begin(&mut breaker, &endpoint));
        let plan = dispatch_finish(
            &mut breaker,
            &mut msg,
            &mut endpoint,
            &retry_policy,
            &task,
            classify_response(500, 10, String::from("boom")),
            100,
        );
        if let Some((next, _)) = plan.retry {
            task = next;
        }
    }
    assert!(matches!(endpoint.status, EndpointStatus::DisabledFailing));

    // While disabled, ingestion routes nothing for it and the consumer
    // rejects without an attempt.
    let (none_routed, _) = route_event(&event, &vec![endpoint.clone()]);
    assert!(none_routed.is_empty());
    assert!(!dispatch_begin(&mut breaker, &endpoint));

    // The operator re-enables the endpoint: the next task revives the
    // breaker, and its counter starts at zero — a single fresh failure is
    // reported as Open again, not as a trip.
    endpoint.enable_manually();
    let (mut revived_messages, revived_tasks) = route_event(&event, &vec![endpoint.clone()]);
    assert_eq!(1, revived_messages.len());
    let mut revived_msg = revived_messages.remove(0);
    let revived_task = revived_tasks[0].clone();

    assert!(dispatch_begin(&mut breaker, &endpoint));
    let plan = dispatch_finish(
        &mut breaker,
        &mut revived_msg,
        &mut endpoint,
        &retry_policy,
        &revived_task,
        classify_response(500, 10, String::from("boom")),
        100,
    );
    assert!(!plan.disable_endpoint, "the revived counter starts at zero");
    assert!(plan.retry.is_some());

    // And a delivery that succeeds completes normally.
    assert!(dispatch_begin(&mut breaker, &endpoint));
    let (task2, _) = plan.retry.unwrap();
    let plan2 = dispatch_finish(
        &mut breaker,
        &mut revived_msg,
        &mut endpoint,
        &retry_policy,
        &task2,
        classify_response(204, 10, String::from("")),
        100,
    );
    assert!(!plan2.disable_endpoint);
    assert!(plan2.retry.is_none());
    assert!(revived_msg.attempts.has_delivered());
}
