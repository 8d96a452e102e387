use vstd::prelude::*;

use crate::error::{is_invalid_argument, Error};
use crate::ids::{ApplicationId, EndpointId};

verus! {

/// The characters a topic name may hold: letters, `_`, `.` and `-`.
pub open spec fn is_topic_char(c: char) -> bool {
    ('a' <= c && c <= 'z') || ('A' <= c && c <= 'Z') || c == '_' || c == '.' || c == '-'
}

/// A valid topic name: non-empty, every character from the topic alphabet.
/// Spaces, digits and the empty string are rejected.
pub open spec fn is_topic_name(s: Seq<char>) -> bool {
    s.len() > 0 && (forall|i: int| 0 <= i < s.len() ==> is_topic_char(#[trigger] s[i]))
}

/// A named routing topic; events carry one and endpoints subscribe to a set.
#[derive(Debug)]
pub struct Topic {
    name: String,
}

impl View for Topic {
    type V = Seq<char>;

    closed spec fn view(&self) -> Seq<char> {
        self.name@
    }
}

impl Topic {
    #[verifier::type_invariant]
    closed spec fn inv(self) -> bool {
        is_topic_name(self@)
    }

    /// Accepts exactly the valid topic names.
    pub fn new(name: &str) -> (r: Result<Topic, Error>)
        ensures
            match r {
                Ok(t) => is_topic_name(name@) && t@ == name@,
                Err(e) => !is_topic_name(name@) && is_invalid_argument(e, "Invalid topic name"@),
            },
    {
        let len = name.unicode_len();
        if len == 0 {
            return Err(Error::InvalidArgument(String::from_str("Invalid topic name")));
        }
        let mut i: usize = 0;
        while i < len
            invariant
                i <= len,
                len == name@.len(),
                forall|j: int| 0 <= j < i ==> is_topic_char(#[trigger] name@[j]),
            decreases len - i,
        {
            let c = name.get_char(i);
            let ok = ('a' <= c && c <= 'z') || ('A' <= c && c <= 'Z') || c == '_' || c == '.' || c
                == '-';
            if !ok {
                return Err(Error::InvalidArgument(String::from_str("Invalid topic name")));
            }
            i += 1;
        }
        Ok(Topic { name: name.to_owned() })
    }

    /// The topic's name.
    pub fn as_str(&self) -> (r: &str)
        ensures
            r@ == self@,
    {
        self.name.as_str()
    }
}

impl PartialEq for Topic {
    fn eq(&self, other: &Self) -> (r: bool) {
        self.name == other.name
    }
}

impl vstd::std_specs::cmp::PartialEqSpecImpl for Topic {
    open spec fn obeys_eq_spec() -> bool {
        true
    }

    open spec fn eq_spec(&self, other: &Self) -> bool {
        self@ == other@
    }
}

impl Clone for Topic {
    fn clone(&self) -> (r: Self)
        ensures
            r == *self,
    {
        proof {
            use_type_invariant(self);
        }
        Topic { name: self.name.clone() }
    }
}

/// The non-empty set of topics an endpoint subscribes to.
#[derive(Debug)]
pub struct TopicsList {
    topics: Vec<Topic>,
}

impl View for TopicsList {
    type V = Seq<Seq<char>>;

    closed spec fn view(&self) -> Seq<Seq<char>> {
        self.topics@.map_values(|t: Topic| t@)
    }
}

impl TopicsList {
    #[verifier::type_invariant]
    closed spec fn inv(self) -> bool {
        self.topics@.len() > 0
    }

    /// Accepts exactly the non-empty topic vectors.
    pub fn new(topics: Vec<Topic>) -> (r: Result<TopicsList, Error>)
        ensures
            match r {
                Ok(l) => topics@.len() > 0 && l@ == topics@.map_values(|t: Topic| t@),
                Err(e) => topics@.len() == 0 && is_invalid_argument(
                    e,
                    "Topic collection could not be empty"@,
                ),
            },
    {
        if topics.len() == 0 {
            return Err(
                Error::InvalidArgument(String::from_str("Topic collection could not be empty")),
            );
        }
        Ok(TopicsList { topics })
    }

    /// Builds the list from plain names: every name must be a valid topic and
    /// the vector must be non-empty.
    pub fn from_strings(value: &Vec<String>) -> (r: Result<TopicsList, Error>)
        ensures
            match r {
                Ok(l) => {
                    &&& value@.len() > 0
                    &&& (forall|i: int|
                        0 <= i < value@.len() ==> is_topic_name(#[trigger] value@[i]@))
                    &&& l@ == value@.map_values(|s: String| s@)
                },
                Err(e) => {
                    &&& {
                        ||| value@.len() == 0
                        ||| exists|i: int| 0 <= i < value@.len() && !is_topic_name(#[trigger] value@[i]@)
                    }
                    &&& if exists|i: int| 0 <= i < value@.len() && !is_topic_name(#[trigger] value@[i]@) {
                        is_invalid_argument(e, "Invalid topic name"@)
                    } else {
                        is_invalid_argument(e, "Topic collection could not be empty"@)
                    }
                },
            },
    {
        let mut topics: Vec<Topic> = Vec::new();
        let mut i: usize = 0;
        while i < value.len()
            invariant
                i <= value@.len(),
                topics@.len() == i,
                forall|j: int| 0 <= j < i ==> is_topic_name(#[trigger] value@[j]@),
                forall|j: int| 0 <= j < i ==> #[trigger] topics@[j]@ == value@[j]@,
            decreases value@.len() - i,
        {
            match Topic::new(value[i].as_str()) {
                Ok(t) => topics.push(t),
                Err(e) => {
                    return Err(e);
                },
            }
            i += 1;
        }
        match Self::new(topics) {
            Ok(l) => {
                proof {
                    assert(l@ =~= value@.map_values(|s: String| s@));
                }
                Ok(l)
            },
            Err(e) => Err(e),
        }
    }

    /// Whether the list holds `topic`.
    pub fn contains(&self, topic: &Topic) -> (r: bool)
        ensures
            r == self@.contains(topic@),
    {
        let mut i: usize = 0;
        while i < self.topics.len()
            invariant
                i <= self.topics@.len(),
                forall|j: int| 0 <= j < i ==> self@[j] != topic@,
            decreases self.topics@.len() - i,
        {
            if &self.topics[i] == topic {
                proof {
                    assert(self@[i as int] == topic@);
                }
                return true;
            }
            i += 1;
        }
        proof {
            assert(forall|j: int| 0 <= j < self@.len() ==> self@[j] != topic@);
        }
        false
    }

    /// The topic names as plain strings, in order.
    pub fn as_strings(&self) -> (r: Vec<String>)
        ensures
            r@.map_values(|s: String| s@) == self@,
    {
        let mut out: Vec<String> = Vec::new();
        let mut i: usize = 0;
        while i < self.topics.len()
            invariant
                i <= self.topics@.len(),
                out@.len() == i,
                forall|j: int| 0 <= j < i ==> #[trigger] out@[j]@ == self@[j],
            decreases self.topics@.len() - i,
        {
            out.push(self.topics[i].name.clone());
            i += 1;
        }
        proof {
            assert(out@.map_values(|s: String| s@) =~= self@);
        }
        out
    }

    /// The topics themselves, in order.
    pub fn all(&self) -> (r: &Vec<Topic>)
        ensures
            r@.map_values(|t: Topic| t@) == self@,
    {
        &self.topics
    }
}

impl PartialEq for TopicsList {
    fn eq(&self, other: &Self) -> (r: bool) {
        let n = self.topics.len();
        if n != other.topics.len() {
            proof {
                assert(self@.len() == self.topics@.len());
                assert(other@.len() == other.topics@.len());
            }
            return false;
        }
        let mut i: usize = 0;
        while i < n
            invariant
                i <= n,
                n == self.topics@.len(),
                n == other.topics@.len(),
                forall|j: int| 0 <= j < i ==> self@[j] == other@[j],
            decreases n - i,
        {
            if &self.topics[i] != &other.topics[i] {
                proof {
                    assert(self@[i as int] != other@[i as int]);
                }
                return false;
            }
            i += 1;
        }
        proof {
            assert(self@ =~= other@);
        }
        true
    }
}

impl vstd::std_specs::cmp::PartialEqSpecImpl for TopicsList {
    open spec fn obeys_eq_spec() -> bool {
        true
    }

    open spec fn eq_spec(&self, other: &Self) -> bool {
        self@ == other@
    }
}

impl Clone for TopicsList {
    fn clone(&self) -> (r: Self)
        ensures
            r@ == self@,
    {
        proof {
            use_type_invariant(self);
        }
        let mut out: Vec<Topic> = Vec::new();
        let mut i: usize = 0;
        while i < self.topics.len()
            invariant
                i <= self.topics@.len(),
                out@.len() == i,
                forall|j: int| 0 <= j < i ==> #[trigger] out@[j]@ == self@[j],
            decreases self.topics@.len() - i,
        {
            out.push(self.topics[i].clone());
            i += 1;
        }
        let r = TopicsList { topics: out };
        proof {
            assert(r@ =~= self@);
        }
        r
    }
}

/// A producer application; endpoints and events belong to one.
#[derive(Debug)]
pub struct Application {
    pub id: ApplicationId,
    pub name: String,
}

impl Application {
    /// A new application with a fresh id and the given name.
    pub fn new(name: String) -> (r: Self)
        ensures
            r.id.wf(),
            r.name@ == name@,
    {
        Application { id: ApplicationId::new(), name }
    }
}

impl Clone for Application {
    fn clone(&self) -> (r: Self)
        ensures
            r.id == self.id,
            r.name@ == self.name@,
    {
        Application { id: self.id.clone(), name: self.name.clone() }
    }
}

/// An endpoint's delivery status.  `Initial` and `EnabledManually` accept
/// deliveries; the two disabled states do not.
#[derive(Clone, Copy, Debug, PartialEq, Eq, Structural)]
pub enum EndpointStatus {
    Initial,
    DisabledManually,
    DisabledFailing,
    EnabledManually,
}

impl EndpointStatus {
    /// Active exactly in `Initial` and `EnabledManually`.
    pub fn is_active(&self) -> (r: bool)
        ensures
            r == self.spec_is_active(),
    {
        match self {
            EndpointStatus::Initial | EndpointStatus::EnabledManually => true,
            EndpointStatus::DisabledManually | EndpointStatus::DisabledFailing => false,
        }
    }

    pub open spec fn spec_is_active(self) -> bool {
        self is Initial || self is EnabledManually
    }

    /// The name a status is stored under.
    pub open spec fn spec_str(self) -> Seq<char> {
        match self {
            EndpointStatus::Initial => "initial"@,
            EndpointStatus::DisabledManually => "disabled_manually"@,
            EndpointStatus::DisabledFailing => "disabled_failing"@,
            EndpointStatus::EnabledManually => "enabled_manually"@,
        }
    }

    /// The status's stored name.
    pub fn as_str(&self) -> (r: &'static str)
        ensures
            r@ == self.spec_str(),
    {
        match self {
            EndpointStatus::Initial => "initial",
            EndpointStatus::DisabledManually => "disabled_manually",
            EndpointStatus::DisabledFailing => "disabled_failing",
            EndpointStatus::EnabledManually => "enabled_manually",
        }
    }

    /// The inverse of `as_str`: accepts exactly the four stored names.
    pub fn parse(value: &str) -> (r: Result<EndpointStatus, Error>)
        ensures
            match r {
                Ok(st) => value@ == st.spec_str(),
                Err(e) => (forall|st: EndpointStatus| value@ != st.spec_str())
                    && is_invalid_argument(e, "Unexpected endpoint status"@),
            },
    {
        let owned = value.to_owned();
        if owned == String::from_str("initial") {
            Ok(EndpointStatus::Initial)
        } else if owned == String::from_str("disabled_manually") {
            Ok(EndpointStatus::DisabledManually)
        } else if owned == String::from_str("disabled_failing") {
            Ok(EndpointStatus::DisabledFailing)
        } else if owned == String::from_str("enabled_manually") {
            Ok(EndpointStatus::EnabledManually)
        } else {
            proof {
                assert forall|st: EndpointStatus| value@ != st.spec_str() by {
                    if st is Initial {
                        assert(value@ != "initial"@);
                    } else if st is DisabledManually {
                        assert(value@ != "disabled_manually"@);
                    } else if st is DisabledFailing {
                        assert(value@ != "disabled_failing"@);
                    } else {
                        assert(value@ != "enabled_manually"@);
                    }
                }
            }
            Err(Error::InvalidArgument(String::from_str("Unexpected endpoint status")))
        }
    }
}

/// Whether a string is accepted as an endpoint URL, and what it normalizes
/// to.  Acceptance means: it parses as an absolute URL whose scheme is
/// `http` or `https`.
pub open spec fn accepts_endpoint_url(s: Seq<char>) -> bool {
    url_parts(s) is Some && is_http_scheme(url_parts(s).unwrap().0)
}

/// The normalized serialization of an accepted URL string.
pub open spec fn normalized_url(s: Seq<char>) -> Seq<char> {
    url_parts(s).unwrap().1
}

/// `http` or `https`.
pub open spec fn is_http_scheme(scheme: Seq<char>) -> bool {
    scheme == "http"@ || scheme == "https"@
}

/// What `url::Url::parse` makes of a string: `None` where parsing fails,
/// otherwise the scheme (lowercased) and the normalized serialization.
/// A function of the input characters alone.
pub uninterp spec fn url_parts(s: Seq<char>) -> Option<(Seq<char>, Seq<char>)>;

/// Relies on `url::Url::parse`, `Url::scheme` and `Url::as_str`: parsing
/// either fails or yields a URL whose scheme and serialization depend on the
/// input alone.
#[verifier::external_body]
fn parse_url(s: &str) -> (r: Option<(String, String)>)
    ensures
        r is Some <==> url_parts(s@) is Some,
        r is Some ==> (r.unwrap().0@, r.unwrap().1@) == url_parts(s@).unwrap(),
{
    match url::Url::parse(s) {
        Ok(u) => Some((u.scheme().to_string(), u.as_str().to_string())),
        Err(_) => None,
    }
}

/// A registered delivery target: a URL subscribed to topics, owned by one
/// application, with a delivery status.
#[derive(Debug)]
pub struct Endpoint {
    pub id: EndpointId,
    pub app_id: ApplicationId,
    pub url: String,
    pub topics: TopicsList,
    pub status: EndpointStatus,
}

impl Endpoint {
    /// A new endpoint in `Initial` status with a fresh id.  Accepts exactly
    /// the absolute `http`/`https` URLs and stores the normalized form.
    pub fn new(url: &str, app_id: ApplicationId, topics: TopicsList) -> (r: Result<Endpoint, Error>)
        ensures
            match r {
                Ok(ep) => {
                    &&& accepts_endpoint_url(url@)
                    &&& ep.id.wf()
                    &&& ep.app_id == app_id
                    &&& ep.url@ == normalized_url(url@)
                    &&& ep.topics@ == topics@
                    &&& ep.status is Initial
                },
                Err(e) => !accepts_endpoint_url(url@) && is_invalid_argument(
                    e,
                    "Url should be valid"@,
                ),
            },
    {
        match parse_url(url) {
            Some((scheme, normalized)) => {
                let is_http = scheme == String::from_str("http") || scheme == String::from_str(
                    "https",
                );
                if !is_http {
                    return Err(Error::InvalidArgument(String::from_str("Url should be valid")));
                }
                Ok(
                    Endpoint {
                        id: EndpointId::new(),
                        app_id,
                        url: normalized,
                        topics,
                        status: EndpointStatus::Initial,
                    },
                )
            },
            None => Err(Error::InvalidArgument(String::from_str("Url should be valid"))),
        }
    }

    /// Active exactly when the status is.
    pub fn is_active(&self) -> (r: bool)
        ensures
            r == self.status.spec_is_active(),
    {
        self.status.is_active()
    }

    /// An operator turns the endpoint off; only the status changes.
    pub fn disable_manually(&mut self)
        ensures
            final(self).status is DisabledManually,
            final(self).id == old(self).id,
            final(self).app_id == old(self).app_id,
            final(self).url == old(self).url,
            final(self).topics == old(self).topics,
    {
        self.status = EndpointStatus::DisabledManually;
    }

    /// The breaker tripped on this endpoint; only the status changes.
    pub fn disable_failing(&mut self)
        ensures
            final(self).status is DisabledFailing,
            final(self).id == old(self).id,
            final(self).app_id == old(self).app_id,
            final(self).url == old(self).url,
            final(self).topics == old(self).topics,
    {
        self.status = EndpointStatus::DisabledFailing;
    }

    /// An operator turns the endpoint back on; only the status changes.
    pub fn enable_manually(&mut self)
        ensures
            final(self).status is EnabledManually,
            final(self).id == old(self).id,
            final(self).app_id == old(self).app_id,
            final(self).url == old(self).url,
            final(self).topics == old(self).topics,
    {
        self.status = EndpointStatus::EnabledManually;
    }
}

impl Clone for Endpoint {
    fn clone(&self) -> (r: Self)
        ensures
            r.id == self.id,
            r.app_id == self.app_id,
            r.url@ == self.url@,
            r.topics@ == self.topics@,
            r.status == self.status,
    {
        Endpoint {
            id: self.id.clone(),
            app_id: self.app_id.clone(),
            url: self.url.clone(),
            topics: self.topics.clone(),
            status: self.status,
        }
    }
}

} // verus!
