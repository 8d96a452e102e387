use vstd::prelude::*;

use crate::error::{is_invalid_argument, Error};

verus! {

/// The base62 alphabet of an id body: `0`-`9`, `A`-`Z`, `a`-`z`.
pub open spec fn is_base62_char(c: char) -> bool {
    ('0' <= c && c <= '9') || ('A' <= c && c <= 'Z') || ('a' <= c && c <= 'z')
}

/// A well-formed id body: exactly 27 base62 characters.
pub open spec fn is_id_body(s: Seq<char>) -> bool {
    s.len() == 27 && (forall|i: int| 0 <= i < s.len() ==> is_base62_char(#[trigger] s[i]))
}

/// The canonical re-encoding that the ksuid decoder produces for an accepted
/// 27-character base62 body: the body decoded to its 20 bytes (truncating an
/// overflowing value to its low 20 bytes) and encoded again.  A function of
/// the input characters alone.
pub uninterp spec fn ksuid_canon(s: Seq<char>) -> Seq<char>;

/// Relies on `svix_ksuid::Ksuid::from_str` and `to_base62`: `from_str`
/// accepts every 27-character base62 string, and `to_base62` re-encodes the
/// decoded 20 bytes into 27 base62 characters, zero-padded, so the result is
/// again a well-formed body and re-decoding it reproduces the same bytes and
/// hence the same encoding.  `from_str` checks the byte length and truncates
/// each character to its low byte, so it also accepts a few malformed
/// non-ASCII strings; this contract claims nothing about those, and the one
/// caller only hands over bodies it has already validated.
#[verifier::external_body]
fn ksuid_decode(s: &str) -> (r: Option<String>)
    ensures
        is_id_body(s@) ==> r is Some,
        is_id_body(s@) ==> r.unwrap()@ == ksuid_canon(s@),
        is_id_body(s@) ==> is_id_body(r.unwrap()@),
        is_id_body(s@) ==> ksuid_canon(r.unwrap()@) == r.unwrap()@,
{
    match <svix_ksuid::Ksuid as std::str::FromStr>::from_str(s) {
        Ok(k) => Some(svix_ksuid::KsuidLike::to_base62(&k)),
        Err(_) => None,
    }
}

/// Relies on `svix_ksuid::Ksuid::now` and `to_base62`: a fresh ksuid encodes
/// to 27 base62 characters, and decoding that string yields the same 20 bytes,
/// so re-encoding returns it unchanged.  Holds of every generated value.
/// Assumes the system clock reads at or after the Unix epoch: on a machine
/// where it does not, `svix_ksuid` panics before producing any value.
#[verifier::external_body]
fn ksuid_fresh_body() -> (r: String)
    ensures
        is_id_body(r@),
        ksuid_canon(r@) == r@,
{
    svix_ksuid::KsuidLike::to_base62(&<svix_ksuid::Ksuid as svix_ksuid::KsuidLike>::now(None))
}

/// The body of a prefixed, K-sortable id: 27 base62 characters in canonical
/// form.  Two ids are equal exactly when their body characters are equal.
#[derive(Debug)]
pub struct IdBody {
    body: String,
}

impl View for IdBody {
    type V = Seq<char>;

    closed spec fn view(&self) -> Seq<char> {
        self.body@
    }
}

/// Does `value` have the exact shape `<prefix>_<27 base62 characters>`?
pub open spec fn parse_accepts(prefix: Seq<char>, value: Seq<char>) -> bool {
    &&& value.len() == prefix.len() + 28
    &&& value.subrange(0, prefix.len() as int) == prefix
    &&& value[prefix.len() as int] == '_'
    &&& is_id_body(value.skip(prefix.len() as int + 1))
}

/// The body characters of a `<prefix>_<body>` string.
pub open spec fn body_of(prefix: Seq<char>, value: Seq<char>) -> Seq<char> {
    value.skip(prefix.len() as int + 1)
}

/// The message of the error that rejects a malformed id.
pub open spec fn id_parse_error_msg(prefix: Seq<char>) -> Seq<char> {
    "expected '"@ + prefix + "_' followed by a 27-character base62 id"@
}

impl IdBody {
    /// A body is well formed when it holds 27 base62 characters in canonical
    /// form, so that re-decoding and re-encoding it returns it unchanged.
    pub open spec fn wf(self) -> bool {
        is_id_body(self@) && ksuid_canon(self@) == self@
    }

    /// A fresh, time-ordered, random body.
    pub fn fresh() -> (r: IdBody)
        ensures
            r.wf(),
    {
        IdBody { body: ksuid_fresh_body() }
    }

    /// Parses `<prefix>_<body>`: accepted exactly when the prefix matches,
    /// an underscore follows, and the rest is 27 base62 characters; the kept
    /// body is the canonical re-encoding of those characters.
    pub fn parse(prefix: &str, value: &str) -> (r: Result<IdBody, Error>)
        ensures
            match r {
                Ok(id) => {
                    &&& parse_accepts(prefix@, value@)
                    &&& id@ == ksuid_canon(body_of(prefix@, value@))
                    &&& id.wf()
                },
                Err(e) => {
                    &&& !parse_accepts(prefix@, value@)
                    &&& is_invalid_argument(e, id_parse_error_msg(prefix@))
                },
            },
    {
        let plen = prefix.unicode_len();
        let vlen = value.unicode_len();
        if vlen < plen || vlen - plen != 28 {
            return Err(Self::parse_error(prefix));
        }
        let mut i: usize = 0;
        while i < plen
            invariant
                i <= plen,
                plen == prefix@.len(),
                vlen == value@.len(),
                vlen == plen + 28,
                forall|j: int| 0 <= j < i ==> value@[j] == prefix@[j],
            decreases plen - i,
        {
            if value.get_char(i) != prefix.get_char(i) {
                proof {
                    assert(value@.subrange(0, plen as int)[i as int] == value@[i as int]);
                }
                return Err(Self::parse_error(prefix));
            }
            i += 1;
        }
        if value.get_char(plen) != '_' {
            return Err(Self::parse_error(prefix));
        }
        let mut k: usize = plen + 1;
        while k < vlen
            invariant
                plen + 1 <= k <= vlen,
                plen == prefix@.len(),
                vlen == value@.len(),
                vlen == plen + 28,
                forall|j: int| plen + 1 <= j < k ==> is_base62_char(#[trigger] value@[j]),
            decreases vlen - k,
        {
            let c = value.get_char(k);
            let ok = ('0' <= c && c <= '9') || ('A' <= c && c <= 'Z') || ('a' <= c && c <= 'z');
            if !ok {
                proof {
                    assert(value@.skip(plen as int + 1)[k - plen - 1] == value@[k as int]);
                }
                return Err(Self::parse_error(prefix));
            }
            k += 1;
        }
        let body_str = value.substring_char(plen + 1, vlen);
        proof {
            assert(value@.subrange(0, plen as int) =~= prefix@);
            assert(body_str@ =~= value@.skip(plen as int + 1));
            assert forall|j: int| 0 <= j < body_str@.len() implies is_base62_char(
                #[trigger] body_str@[j],
            ) by {
                assert(body_str@[j] == value@[j + plen + 1]);
            }
            assert(is_id_body(body_str@));
        }
        match ksuid_decode(body_str) {
            Some(b) => Ok(IdBody { body: b }),
            None => {
                proof {
                    assert(false);
                }
                Err(Self::parse_error(prefix))
            },
        }
    }

    /// The error every rejected parse returns.
    fn parse_error(prefix: &str) -> (r: Error)
        ensures
            is_invalid_argument(r, id_parse_error_msg(prefix@)),
    {
        let mut m = String::from_str("expected '");
        m.append(prefix);
        m.append("_' followed by a 27-character base62 id");
        Error::InvalidArgument(m)
    }

    /// The 27 body characters, without any prefix.
    pub fn to_base62(&self) -> (r: String)
        ensures
            r@ == self@,
    {
        self.body.clone()
    }

    /// The full id string `<prefix>_<body>`.
    pub fn prefixed_string(&self, prefix: &str) -> (r: String)
        ensures
            r@ == prefix@ + "_"@ + self@,
    {
        let mut s = String::from_str(prefix);
        s.append("_");
        s.append(self.body.as_str());
        s
    }
}

impl PartialEq for IdBody {
    fn eq(&self, other: &Self) -> (r: bool) {
        self.body == other.body
    }
}

impl vstd::std_specs::cmp::PartialEqSpecImpl for IdBody {
    open spec fn obeys_eq_spec() -> bool {
        true
    }

    open spec fn eq_spec(&self, other: &Self) -> bool {
        self@ == other@
    }
}

impl Clone for IdBody {
    fn clone(&self) -> (r: Self)
        ensures
            r == *self,
    {
        IdBody { body: self.body.clone() }
    }
}

/// An application's id: `app_<27-char-base62>`.
#[derive(Debug)]
pub struct ApplicationId {
    body: IdBody,
}

impl View for ApplicationId {
    type V = Seq<char>;

    closed spec fn view(&self) -> Seq<char> {
        self.body@
    }
}

impl ApplicationId {
    pub open spec fn wf(self) -> bool {
        is_id_body(self@) && ksuid_canon(self@) == self@
    }

    pub fn new() -> (r: Self)
        ensures
            r.wf(),
    {
        ApplicationId { body: IdBody::fresh() }
    }

    /// Accepts exactly `app_<27 base62 chars>` and keeps the canonical body.
    pub fn parse(value: &str) -> (r: Result<Self, Error>)
        ensures
            match r {
                Ok(id) => parse_accepts("app"@, value@) && id@ == ksuid_canon(
                    body_of("app"@, value@),
                ) && id.wf(),
                Err(e) => !parse_accepts("app"@, value@) && is_invalid_argument(
                    e,
                    id_parse_error_msg("app"@),
                ),
            },
    {
        match IdBody::parse("app", value) {
            Ok(body) => Ok(ApplicationId { body }),
            Err(e) => Err(e),
        }
    }

    /// The 27 body characters.
    pub fn to_base62(&self) -> (r: String)
        ensures
            r@ == self@,
    {
        self.body.to_base62()
    }

    /// The full id string `app_<body>`.
    pub fn id_string(&self) -> (r: String)
        ensures
            r@ == "app"@ + "_"@ + self@,
    {
        self.body.prefixed_string("app")
    }
}

impl PartialEq for ApplicationId {
    fn eq(&self, other: &Self) -> (r: bool) {
        self.body == other.body
    }
}

impl vstd::std_specs::cmp::PartialEqSpecImpl for ApplicationId {
    open spec fn obeys_eq_spec() -> bool {
        true
    }

    open spec fn eq_spec(&self, other: &Self) -> bool {
        self@ == other@
    }
}

impl Clone for ApplicationId {
    fn clone(&self) -> (r: Self)
        ensures
            r == *self,
    {
        ApplicationId { body: self.body.clone() }
    }
}

/// An endpoint's id: `ep_<27-char-base62>`.
#[derive(Debug)]
pub struct EndpointId {
    body: IdBody,
}

impl View for EndpointId {
    type V = Seq<char>;

    closed spec fn view(&self) -> Seq<char> {
        self.body@
    }
}

impl EndpointId {
    pub open spec fn wf(self) -> bool {
        is_id_body(self@) && ksuid_canon(self@) == self@
    }

    pub fn new() -> (r: Self)
        ensures
            r.wf(),
    {
        EndpointId { body: IdBody::fresh() }
    }

    /// Accepts exactly `ep_<27 base62 chars>` and keeps the canonical body.
    pub fn parse(value: &str) -> (r: Result<Self, Error>)
        ensures
            match r {
                Ok(id) => parse_accepts("ep"@, value@) && id@ == ksuid_canon(
                    body_of("ep"@, value@),
                ) && id.wf(),
                Err(e) => !parse_accepts("ep"@, value@) && is_invalid_argument(
                    e,
                    id_parse_error_msg("ep"@),
                ),
            },
    {
        match IdBody::parse("ep", value) {
            Ok(body) => Ok(EndpointId { body }),
            Err(e) => Err(e),
        }
    }

    /// The 27 body characters.
    pub fn to_base62(&self) -> (r: String)
        ensures
            r@ == self@,
    {
        self.body.to_base62()
    }

    /// The full id string `ep_<body>`.
    pub fn id_string(&self) -> (r: String)
        ensures
            r@ == "ep"@ + "_"@ + self@,
    {
        self.body.prefixed_string("ep")
    }
}

impl PartialEq for EndpointId {
    fn eq(&self, other: &Self) -> (r: bool) {
        self.body == other.body
    }
}

impl vstd::std_specs::cmp::PartialEqSpecImpl for EndpointId {
    open spec fn obeys_eq_spec() -> bool {
        true
    }

    open spec fn eq_spec(&self, other: &Self) -> bool {
        self@ == other@
    }
}

impl Clone for EndpointId {
    fn clone(&self) -> (r: Self)
        ensures
            r == *self,
    {
        EndpointId { body: self.body.clone() }
    }
}

/// An event's id: `evt_<27-char-base62>`.
#[derive(Debug)]
pub struct EventId {
    body: IdBody,
}

impl View for EventId {
    type V = Seq<char>;

    closed spec fn view(&self) -> Seq<char> {
        self.body@
    }
}

impl EventId {
    pub open spec fn wf(self) -> bool {
        is_id_body(self@) && ksuid_canon(self@) == self@
    }

    pub fn new() -> (r: Self)
        ensures
            r.wf(),
    {
        EventId { body: IdBody::fresh() }
    }

    /// Accepts exactly `evt_<27 base62 chars>` and keeps the canonical body.
    pub fn parse(value: &str) -> (r: Result<Self, Error>)
        ensures
            match r {
                Ok(id) => parse_accepts("evt"@, value@) && id@ == ksuid_canon(
                    body_of("evt"@, value@),
                ) && id.wf(),
                Err(e) => !parse_accepts("evt"@, value@) && is_invalid_argument(
                    e,
                    id_parse_error_msg("evt"@),
                ),
            },
    {
        match IdBody::parse("evt", value) {
            Ok(body) => Ok(EventId { body }),
            Err(e) => Err(e),
        }
    }

    /// The 27 body characters.
    pub fn to_base62(&self) -> (r: String)
        ensures
            r@ == self@,
    {
        self.body.to_base62()
    }

    /// The full id string `evt_<body>`.
    pub fn id_string(&self) -> (r: String)
        ensures
            r@ == "evt"@ + "_"@ + self@,
    {
        self.body.prefixed_string("evt")
    }
}

impl PartialEq for EventId {
    fn eq(&self, other: &Self) -> (r: bool) {
        self.body == other.body
    }
}

impl vstd::std_specs::cmp::PartialEqSpecImpl for EventId {
    open spec fn obeys_eq_spec() -> bool {
        true
    }

    open spec fn eq_spec(&self, other: &Self) -> bool {
        self@ == other@
    }
}

impl Clone for EventId {
    fn clone(&self) -> (r: Self)
        ensures
            r == *self,
    {
        EventId { body: self.body.clone() }
    }
}

/// A routed message's id: `rmsg_<27-char-base62>`.
#[derive(Debug)]
pub struct MessageId {
    body: IdBody,
}

impl View for MessageId {
    type V = Seq<char>;

    closed spec fn view(&self) -> Seq<char> {
        self.body@
    }
}

impl MessageId {
    pub open spec fn wf(self) -> bool {
        is_id_body(self@) && ksuid_canon(self@) == self@
    }

    pub fn new() -> (r: Self)
        ensures
            r.wf(),
    {
        MessageId { body: IdBody::fresh() }
    }

    /// Accepts exactly `rmsg_<27 base62 chars>` and keeps the canonical body.
    pub fn parse(value: &str) -> (r: Result<Self, Error>)
        ensures
            match r {
                Ok(id) => parse_accepts("rmsg"@, value@) && id@ == ksuid_canon(
                    body_of("rmsg"@, value@),
                ) && id.wf(),
                Err(e) => !parse_accepts("rmsg"@, value@) && is_invalid_argument(
                    e,
                    id_parse_error_msg("rmsg"@),
                ),
            },
    {
        match IdBody::parse("rmsg", value) {
            Ok(body) => Ok(MessageId { body }),
            Err(e) => Err(e),
        }
    }

    /// The 27 body characters.
    pub fn to_base62(&self) -> (r: String)
        ensures
            r@ == self@,
    {
        self.body.to_base62()
    }

    /// The full id string `rmsg_<body>`.
    pub fn id_string(&self) -> (r: String)
        ensures
            r@ == "rmsg"@ + "_"@ + self@,
    {
        self.body.prefixed_string("rmsg")
    }
}

impl PartialEq for MessageId {
    fn eq(&self, other: &Self) -> (r: bool) {
        self.body == other.body
    }
}

impl vstd::std_specs::cmp::PartialEqSpecImpl for MessageId {
    open spec fn obeys_eq_spec() -> bool {
        true
    }

    open spec fn eq_spec(&self, other: &Self) -> bool {
        self@ == other@
    }
}

impl Clone for MessageId {
    fn clone(&self) -> (r: Self)
        ensures
            r == *self,
    {
        MessageId { body: self.body.clone() }
    }
}

/// Round trip: printing an id and parsing the print gives the id back,
/// body characters for body characters.
pub proof fn lemma_id_round_trip(id: IdBody, prefix: Seq<char>, printed: Seq<char>)
    requires
        id.wf(),
        printed == prefix + "_"@ + id@,
        !prefix.contains('_'),
    ensures
        parse_accepts(prefix, printed),
        ksuid_canon(body_of(prefix, printed)) == id@,
{
    reveal_strlit("_");
    assert(printed.subrange(0, prefix.len() as int) =~= prefix);
    assert(printed[prefix.len() as int] == '_');
    assert(printed.skip(prefix.len() as int + 1) =~= id@);
}

} // verus!
