use vstd::prelude::*;

use crate::configuration::{
    accepts_endpoint_url, is_topic_name, normalized_url, Application, Endpoint, TopicsList,
    Topic,
};
use crate::cmd::SentMessage;
use crate::error::{is_entity_not_found, is_invalid_argument, Error};
use crate::events::{json_norm, Event, Message, Payload};
use crate::ids::ApplicationId;

verus! {

/// The whitespace that name trimming removes: the Unicode white-space
/// characters.
pub open spec fn is_blank_char(c: char) -> bool {
    ||| c == '\t' || c == '\n' || c == '\u{0B}' || c == '\u{0C}' || c == '\r' || c == ' '
    ||| c == '\u{85}' || c == '\u{A0}' || c == '\u{1680}'
    ||| ('\u{2000}' <= c && c <= '\u{200A}')
    ||| c == '\u{2028}' || c == '\u{2029}' || c == '\u{202F}' || c == '\u{205F}' || c
        == '\u{3000}'
}

/// Blank after trimming: nothing but whitespace (the empty string included).
pub open spec fn is_blank(s: Seq<char>) -> bool {
    forall|i: int| 0 <= i < s.len() ==> is_blank_char(#[trigger] s[i])
}

/// The body of `POST /application`.
#[derive(Debug)]
pub struct CreateAppRequest {
    pub name: String,
}

/// The body answered for a created application.
#[derive(Debug)]
pub struct CreateAppResponse {
    pub id: String,
    pub name: String,
}

impl CreateAppResponse {
    /// The response that describes `app`.
    pub fn from_application(app: &Application) -> (r: Self)
        ensures
            r.id@ == "app"@ + "_"@ + app.id@,
            r.name@ == app.name@,
    {
        CreateAppResponse { id: app.id.id_string(), name: app.name.clone() }
    }
}

/// The body of `POST /application/{app_id}/endpoint`.
#[derive(Debug)]
pub struct CreateEndpointRequest {
    pub url: String,
    pub topics: Vec<String>,
}

/// The body answered for a created endpoint.
#[derive(Debug)]
pub struct CreateEndpointResponse {
    pub id: String,
    pub app_id: String,
    pub url: String,
    pub topics: Vec<String>,
}

impl CreateEndpointResponse {
    /// The response that describes `endpoint`.
    pub fn from_endpoint(endpoint: &Endpoint) -> (r: Self)
        ensures
            r.id@ == "ep"@ + "_"@ + endpoint.id@,
            r.app_id@ == "app"@ + "_"@ + endpoint.app_id@,
            r.url@ == endpoint.url@,
            r.topics@.map_values(|s: String| s@) == endpoint.topics@,
    {
        CreateEndpointResponse {
            id: endpoint.id.id_string(),
            app_id: endpoint.app_id.id_string(),
            url: endpoint.url.clone(),
            topics: endpoint.topics.as_strings(),
        }
    }
}

/// The body of `POST /application/{app_id}/event`.
#[derive(Debug)]
pub struct CreateEventRequest {
    pub topic: String,
    pub payload: String,
}

/// The body answered for an accepted event.
#[derive(Debug)]
pub struct CreateEventResponse {
    pub id: String,
}

impl CreateEventResponse {
    /// The response that names the persisted event.
    pub fn from_event(event: &Event) -> (r: Self)
        ensures
            r.id@ == "evt"@ + "_"@ + event.id@,
    {
        CreateEventResponse { id: event.id.id_string() }
    }
}

/// Creates an application from the request.  Accepted exactly when the name
/// is not blank after trimming.
pub fn create_application(request: &CreateAppRequest) -> (r: Result<Application, Error>)
    ensures
        match r {
            Ok(app) => {
                &&& !is_blank(request.name@)
                &&& app.id.wf()
                &&& app.name@ == request.name@
            },
            Err(e) => is_blank(request.name@) && is_invalid_argument(e, "Name cannot be empty"@),
        },
{
    let len = request.name.as_str().unicode_len();
    let mut i: usize = 0;
    while i < len
        invariant
            i <= len,
            len == request.name@.len(),
            forall|j: int| 0 <= j < i ==> is_blank_char(#[trigger] request.name@[j]),
        decreases len - i,
    {
        let c = request.name.as_str().get_char(i);
        let blank = (c == '\t' || c == '\n' || c == '\u{0B}' || c == '\u{0C}' || c == '\r' || c
            == ' ') || (c == '\u{85}' || c == '\u{A0}' || c == '\u{1680}') || ('\u{2000}' <= c && c
            <= '\u{200A}') || (c == '\u{2028}' || c == '\u{2029}' || c == '\u{202F}' || c
            == '\u{205F}' || c == '\u{3000}');
        if !blank {
            return Ok(Application::new(request.name.clone()));
        }
        i += 1;
    }
    Err(Error::InvalidArgument(String::from_str("Name cannot be empty")))
}

/// Creates an endpoint owned by `app_id` from the request.  Accepted exactly
/// when every topic name is valid, the topic list is non-empty, and the URL
/// is an absolute `http`/`https` URL; an empty topic list or any malformed
/// part is rejected with the matching message.
pub fn create_endpoint(request: &CreateEndpointRequest, app_id: ApplicationId) -> (r: Result<
    Endpoint,
    Error,
>)
    ensures
        match r {
            Ok(ep) => {
                &&& accepts_endpoint_url(request.url@)
                &&& request.topics@.len() > 0
                &&& (forall|i: int|
                    0 <= i < request.topics@.len() ==> is_topic_name(
                        #[trigger] request.topics@[i]@,
                    ))
                &&& ep.id.wf()
                &&& ep.app_id == app_id
                &&& ep.url@ == normalized_url(request.url@)
                &&& ep.topics@ == request.topics@.map_values(|s: String| s@)
                &&& ep.status is Initial
            },
            Err(e) => {
                &&& !({
                    &&& accepts_endpoint_url(request.url@)
                    &&& request.topics@.len() > 0
                    &&& (forall|i: int|
                        0 <= i < request.topics@.len() ==> is_topic_name(
                            #[trigger] request.topics@[i]@,
                        ))
                })
                &&& if exists|i: int|
                    0 <= i < request.topics@.len() && !is_topic_name(
                        #[trigger] request.topics@[i]@,
                    ) {
                    is_invalid_argument(e, "Invalid topic name"@)
                } else if request.topics@.len() == 0 {
                    is_invalid_argument(e, "Topic collection could not be empty"@)
                } else {
                    is_invalid_argument(e, "Url should be valid"@)
                }
            },
        },
{
    let topics = match TopicsList::from_strings(&request.topics) {
        Ok(l) => l,
        Err(e) => {
            return Err(e);
        },
    };
    Endpoint::new(request.url.as_str(), app_id, topics)
}

/// Builds the event a valid request describes, owned by `app` and stamped
/// with the ingestion clock.  Accepted exactly when the topic name is valid
/// and the payload is syntactically valid JSON.
pub fn create_event(request: &CreateEventRequest, app: &Application, now_ms: u64) -> (r: Result<
    Event,
    Error,
>)
    ensures
        match r {
            Ok(ev) => {
                &&& is_topic_name(request.topic@)
                &&& json_norm(request.payload@) is Some
                &&& ev.id.wf()
                &&& ev.app_id == app.id
                &&& ev.topic@ == request.topic@
                &&& ev.payload@ == json_norm(request.payload@).unwrap()
                &&& ev.created_at == now_ms
            },
            Err(e) => {
                &&& !(is_topic_name(request.topic@) && json_norm(request.payload@) is Some)
                &&& if !is_topic_name(request.topic@) {
                    is_invalid_argument(e, "Invalid topic name"@)
                } else {
                    is_invalid_argument(e, "Payload should be valid JSON"@)
                }
            },
        },
{
    let topic = match Topic::new(request.topic.as_str()) {
        Ok(t) => t,
        Err(e) => {
            return Err(e);
        },
    };
    let payload = match Payload::from_json(request.payload.as_str()) {
        Ok(p) => p,
        Err(e) => {
            return Err(e);
        },
    };
    Ok(Event::new(app.id.clone(), payload, topic, now_ms))
}

/// The ownership check behind enabling or disabling an endpoint: the
/// endpoint must belong to the application named in the request's path, else
/// the caller answers a 404.
pub fn ensure_endpoint_owned(endpoint: &Endpoint, app: &Application) -> (r: Result<(), Error>)
    ensures
        r is Ok <==> endpoint.app_id@ == app.id@,
        r matches Err(e) ==> is_entity_not_found(e, "Endpoint not found"@),
{
    if endpoint.app_id == app.id {
        Ok(())
    } else {
        Err(Error::EntityNotFound(String::from_str("Endpoint not found")))
    }
}

/// Whether routing delivers to this endpoint: the endpoint belongs to the
/// event's application, is active, and subscribes to the topic.
pub open spec fn eligible(ep: Endpoint, app_id: Seq<char>, topic: Seq<char>) -> bool {
    ep.app_id@ == app_id && ep.status.spec_is_active() && ep.topics@.contains(topic)
}

/// The endpoints routing picks, in order: the application's active
/// subscribers of `topic`.
pub open spec fn eligible_targets(
    endpoints: Seq<Endpoint>,
    app_id: Seq<char>,
    topic: Seq<char>,
) -> Seq<Endpoint>
    decreases endpoints.len(),
{
    if endpoints.len() == 0 {
        Seq::empty()
    } else {
        let rest = eligible_targets(endpoints.drop_last(), app_id, topic);
        if eligible(endpoints.last(), app_id, topic) {
            rest.push(endpoints.last())
        } else {
            rest
        }
    }
}

/// Ingestion filter law: routing never enqueues for a disabled or foreign
/// endpoint.  Every routed target belongs to the application, is active,
/// subscribes to the topic, and is one of the given endpoints.
pub proof fn lemma_no_delivery_to_disabled(
    endpoints: Seq<Endpoint>,
    app_id: Seq<char>,
    topic: Seq<char>,
)
    ensures
        forall|k: int|
            0 <= k < eligible_targets(endpoints, app_id, topic).len() ==> eligible(
                #[trigger] eligible_targets(endpoints, app_id, topic)[k],
                app_id,
                topic,
            ),
        forall|k: int|
            0 <= k < eligible_targets(endpoints, app_id, topic).len() ==> endpoints.contains(
                #[trigger] eligible_targets(endpoints, app_id, topic)[k],
            ),
    decreases endpoints.len(),
{
    if endpoints.len() > 0 {
        let sub = endpoints.drop_last();
        lemma_no_delivery_to_disabled(sub, app_id, topic);
        let t = eligible_targets(endpoints, app_id, topic);
        let rest = eligible_targets(sub, app_id, topic);
        assert forall|k: int| 0 <= k < t.len() implies eligible(#[trigger] t[k], app_id, topic)
            && endpoints.contains(t[k]) by {
            if k < rest.len() {
                assert(t[k] == rest[k]);
                assert(sub.contains(rest[k]));
                let j = choose|j: int| 0 <= j < sub.len() && sub[j] == rest[k];
                assert(endpoints[j] == rest[k]);
            } else {
                assert(t[k] == endpoints.last());
            }
        }
    }
}

/// Routes a persisted event: one message and one first-attempt delivery task
/// for every active endpoint of the event's application subscribed to the
/// event's topic, in the endpoints' order.  Endpoints that are disabled, not
/// subscribed, or owned by another application get nothing.
pub fn route_event(event: &Event, endpoints: &Vec<Endpoint>) -> (r: (Vec<Message>, Vec<SentMessage>))
    ensures
        ({
            let targets = eligible_targets(endpoints@, event.app_id@, event.topic@);
            let msgs = r.0@;
            let tasks = r.1@;
            &&& msgs.len() == targets.len()
            &&& tasks.len() == targets.len()
            &&& (forall|k: int|
                0 <= k < msgs.len() ==> {
                    &&& (#[trigger] msgs[k]).wf()
                    &&& msgs[k].id.wf()
                    &&& msgs[k].event_id == event.id
                    &&& msgs[k].endpoint_id == targets[k].id
                    &&& msgs[k].attempts@.len() == 0
                })
            &&& (forall|k: int|
                0 <= k < tasks.len() ==> {
                    &&& (#[trigger] tasks[k]).spec_msg_id()@ == msgs[k].id@
                    &&& tasks[k].attempt == 1
                })
        }),
{
    let mut msgs: Vec<Message> = Vec::new();
    let mut tasks: Vec<SentMessage> = Vec::new();
    let mut i: usize = 0;
    while i < endpoints.len()
        invariant
            i <= endpoints@.len(),
            msgs@.len() == eligible_targets(
                endpoints@.take(i as int),
                event.app_id@,
                event.topic@,
            ).len(),
            tasks@.len() == msgs@.len(),
            forall|k: int|
                0 <= k < msgs@.len() ==> {
                    &&& (#[trigger] msgs@[k]).wf()
                    &&& msgs@[k].id.wf()
                    &&& msgs@[k].event_id == event.id
                    &&& msgs@[k].endpoint_id == eligible_targets(
                        endpoints@.take(i as int),
                        event.app_id@,
                        event.topic@,
                    )[k].id
                    &&& msgs@[k].attempts@.len() == 0
                },
            forall|k: int|
                0 <= k < tasks@.len() ==> {
                    &&& (#[trigger] tasks@[k]).spec_msg_id()@ == msgs@[k].id@
                    &&& tasks@[k].attempt == 1
                },
        decreases endpoints@.len() - i,
    {
        let ep = &endpoints[i];
        let ghost prev = endpoints@.take(i as int);
        let owned = ep.app_id == event.app_id;
        let subscribed = ep.topics.contains(&event.topic);
        if owned && ep.is_active() && subscribed {
            let msg = Message::new(event.id.clone(), ep.id.clone());
            let task = SentMessage::new(msg.id.clone());
            msgs.push(msg);
            tasks.push(task);
        }
        proof {
            let cur = endpoints@.take(i as int + 1);
            assert(cur.drop_last() =~= prev);
            assert(cur.last() == endpoints@[i as int]);
        }
        i += 1;
    }
    proof {
        assert(endpoints@.take(endpoints@.len() as int) =~= endpoints@);
    }
    (msgs, tasks)
}

} // verus!
