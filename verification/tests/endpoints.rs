use webhooks::configuration::{Application, Endpoint, EndpointStatus, TopicsList};
use webhooks::ids::ApplicationId;
use webhooks::ingest::{create_endpoint, ensure_endpoint_owned, CreateEndpointRequest};

fn init_new() -> Endpoint {
    Endpoint::new(
        "https://localhost",
        ApplicationId::new(),
        TopicsList::from_strings(&vec![String::from("test")]).unwrap(),
    )
    .unwrap()
}

fn init_disabled() -> Endpoint {
    let mut endpoint = init_new();
    endpoint.disable_manually();

    endpoint
}

#[test]
fn endpoint_disable_manually_is_not_active() {
    let mut endpoint = init_new();
    assert!(endpoint.is_active());

    endpoint.disable_manually();
    assert!(!endpoint.is_active());
}

#[test]
fn endpoint_disable_failing_is_not_active() {
    let mut endpoint = init_new();
    assert!(endpoint.is_active());

    endpoint.disable_failing();
    assert!(!endpoint.is_active());
}

#[test]
fn endpoint_enable_manually_is_active() {
    let mut endpoint = init_disabled();
    assert!(!endpoint.is_active());

    endpoint.enable_manually();
    assert!(endpoint.is_active());
}

#[test]
fn endpoint_url_is_normalized() {
    let endpoint = Endpoint::new(
        "http://localhost:8080",
        ApplicationId::new(),
        TopicsList::from_strings(&vec![String::from("test")]).unwrap(),
    )
    .unwrap();

    assert_eq!("http://localhost:8080/", endpoint.url);
    assert!(matches!(endpoint.status, EndpointStatus::Initial));
}

#[test]
fn endpoint_rejects_invalid_url() {
    let topics = TopicsList::from_strings(&vec![String::from("test")]).unwrap();
    assert!(Endpoint::new("invalid-url", ApplicationId::new(), topics).is_err());
}

#[test]
fn endpoint_rejects_non_http_scheme() {
    let topics = TopicsList::from_strings(&vec![String::from("test")]).unwrap();
    assert!(Endpoint::new("ftp://example.com/x", ApplicationId::new(), topics).is_err());
}

#[test]
fn create_endpoint_empty_topics_rejected() {
    let request = CreateEndpointRequest {
        url: String::from("http://localhost:8080"),
        topics: vec![],
    };

    assert!(create_endpoint(&request, ApplicationId::new()).is_err());
}

#[test]
fn create_endpoint_starts_initial() {
    let request = CreateEndpointRequest {
        url: String::from("http://svc/hook"),
        topics: vec![String::from("contact.created")],
    };

    let endpoint = create_endpoint(&request, ApplicationId::new()).unwrap();

    assert!(matches!(endpoint.status, EndpointStatus::Initial));
    assert_eq!("http://svc/hook", endpoint.url);
    assert_eq!(
        vec![String::from("contact.created")],
        endpoint.topics.as_strings()
    );
}

#[test]
fn endpoint_status_string_round_trip() {
    for status in [
        EndpointStatus::Initial,
        EndpointStatus::DisabledManually,
        EndpointStatus::DisabledFailing,
        EndpointStatus::EnabledManually,
    ] {
        assert_eq!(status, EndpointStatus::parse(status.as_str()).unwrap());
    }

    assert_eq!("initial", EndpointStatus::Initial.as_str());
    assert_eq!("disabled_failing", EndpointStatus::DisabledFailing.as_str());
    assert!(EndpointStatus::parse("unknown").is_err());
}

#[test]
fn endpoint_ownership_check() {
    let app = Application::new(String::from("Acme"));
    let other = Application::new(String::from("Other"));
    let endpoint = Endpoint::new(
        "http://svc/hook",
        app.id.clone(),
        TopicsList::from_strings(&vec![String::from("test")]).unwrap(),
    )
    .unwrap();

    assert!(ensure_endpoint_owned(&endpoint, &app).is_ok());
    assert!(ensure_endpoint_owned(&endpoint, &other).is_err());
}
