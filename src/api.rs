//! The request builder, the finished request descriptor, and the response
//! envelope.
//!
//! A request is configured by a chain of steps that each take the builder and
//! hand it back; [`Rq::prepare`] resolves it into a [`Prepared`] request for
//! the transport, and [`Rs::from_reply`] normalizes what the transport
//! received.
use vstd::prelude::*;
use vstd::string::StringSliceAdditionalSpecFns;

use crate::json::{entry_map, has_key, keys_unique, upsert, Json};
use crate::text::{owned, str_eq};
use crate::{join_url, url_joined, url_parsed, Bot, Error};

verus! {

/// The HTTP verbs a request can use.
#[derive(Debug, Clone, Copy, PartialEq, Eq, Structural)]
pub enum Method {
    Get,
    Post,
    Put,
    Delete,
}

/// The verb that a method name stands for; names are case-sensitive.
pub open spec fn method_named(s: Seq<char>) -> Option<Method> {
    if s == "GET"@ {
        Some(Method::Get)
    } else if s == "POST"@ {
        Some(Method::Post)
    } else if s == "PUT"@ {
        Some(Method::Put)
    } else if s == "DELETE"@ {
        Some(Method::Delete)
    } else {
        None
    }
}

impl Method {
    /// The method's name on the wire.
    pub open spec fn name(self) -> Seq<char> {
        match self {
            Method::Get => "GET"@,
            Method::Post => "POST"@,
            Method::Put => "PUT"@,
            Method::Delete => "DELETE"@,
        }
    }

    /// Reads a method name; only GET, POST, PUT and DELETE are known.
    pub fn parse(s: &str) -> (r: Option<Method>)
        ensures
            r == method_named(s@),
    {
        if str_eq(s, "GET") {
            Some(Method::Get)
        } else if str_eq(s, "POST") {
            Some(Method::Post)
        } else if str_eq(s, "PUT") {
            Some(Method::Put)
        } else if str_eq(s, "DELETE") {
            Some(Method::Delete)
        } else {
            None
        }
    }

    /// The method's name on the wire.
    pub fn as_str(&self) -> (r: &'static str)
        ensures
            r@ == self.name(),
    {
        match self {
            Method::Get => "GET",
            Method::Post => "POST",
            Method::Put => "PUT",
            Method::Delete => "DELETE",
        }
    }
}

/// Exactly the four supported names are read as methods, each as the verb
/// that goes on the wire under that same name.
pub proof fn lemma_method_names(s: Seq<char>)
    ensures
        method_named(s) is Some <==> (s == "GET"@ || s == "POST"@ || s == "PUT"@ || s
            == "DELETE"@),
        method_named(s) is Some ==> method_named(s)->Some_0.name() == s,
{
}

/// Every verb is read back from its own name.
pub proof fn lemma_method_name_round_trip(m: Method)
    ensures
        method_named(m.name()) == Some(m),
{
    reveal_strlit("GET");
    reveal_strlit("POST");
    reveal_strlit("PUT");
    reveal_strlit("DELETE");
    assert("GET"@[0] == 'G' && "POST"@[0] == 'P' && "PUT"@[0] == 'P' && "DELETE"@[0] == 'D');
    assert("POST"@.len() != "PUT"@.len());
}

/// A header value; a sensitive one must be masked wherever requests are
/// logged, and is sent exactly like a plain one.
#[derive(Debug, Clone)]
pub enum HeaderValue {
    Plain(String),
    Sensitive(String),
}

impl View for HeaderValue {
    /// The text and whether it is sensitive.
    type V = (Seq<char>, bool);

    open spec fn view(&self) -> (Seq<char>, bool) {
        match self {
            HeaderValue::Plain(s) => (s@, false),
            HeaderValue::Sensitive(s) => (s@, true),
        }
    }
}

impl HeaderValue {
    /// The text sent on the wire.
    pub fn as_str(&self) -> (r: &str)
        ensures
            r@ == self@.0,
    {
        match self {
            HeaderValue::Plain(s) => s.as_str(),
            HeaderValue::Sensitive(s) => s.as_str(),
        }
    }

    /// Whether the value must be masked in logs.
    pub fn is_sensitive(&self) -> (r: bool)
        ensures
            r == self@.1,
    {
        match self {
            HeaderValue::Plain(_) => false,
            HeaderValue::Sensitive(_) => true,
        }
    }
}

/// `reqwest::header::InvalidHeaderName`, carried opaquely out of [`header_name`].
#[verifier::external_type_specification]
#[verifier::external_body]
pub struct ExInvalidHeaderName(reqwest::header::InvalidHeaderName);

/// `reqwest::header::InvalidHeaderValue`, carried opaquely out of [`check_header_value`].
#[verifier::external_type_specification]
#[verifier::external_body]
pub struct ExInvalidHeaderValue(reqwest::header::InvalidHeaderValue);

/// A byte that a header name may hold: an ASCII letter or digit, or one of
/// ``!#$%&'*+-.^_`|~``.
pub open spec fn header_token_byte(b: u8) -> bool {
    (48 <= b <= 57) || (65 <= b <= 90) || (97 <= b <= 122) || b == 33 || (35 <= b <= 39) || b
        == 42 || b == 43 || b == 45 || b == 46 || (94 <= b <= 96) || b == 124 || b == 126
}

/// `b` with an upper-case ASCII letter turned into its lower-case form.
pub open spec fn lower_byte(b: u8) -> u8 {
    if 65 <= b <= 90 {
        (b + 32) as u8
    } else {
        b
    }
}

/// The canonical header name of `b`: its lower-case form, when `b` is 1 to
/// 65535 header-name bytes; `None` otherwise.
pub open spec fn header_name_of(b: Seq<u8>) -> Option<Seq<char>> {
    if 1 <= b.len() <= 65535 && forall|i: int| 0 <= i < b.len() ==> header_token_byte(#[trigger] b[i]) {
        Some(Seq::new(b.len(), |i: int| lower_byte(b[i]) as char))
    } else {
        None
    }
}

/// Header names that differ only in the case of ASCII letters name the same
/// header.
pub proof fn lemma_header_names_case_insensitive(a: Seq<u8>, b: Seq<u8>)
    requires
        a.len() == b.len(),
        forall|i: int| 0 <= i < a.len() ==> lower_byte(#[trigger] a[i]) == lower_byte(b[i]),
    ensures
        header_name_of(a) == header_name_of(b),
{
    assert forall|i: int| 0 <= i < a.len() implies header_token_byte(#[trigger] a[i])
        == header_token_byte(b[i]) by {
        assert(lower_byte(a[i]) == lower_byte(b[i]));
    }
    if header_name_of(a) is Some {
        assert forall|i: int| 0 <= i < b.len() implies header_token_byte(#[trigger] b[i]) by {
            assert(header_token_byte(a[i]) == header_token_byte(b[i]));
        }
        assert(header_name_of(a)->Some_0 =~= header_name_of(b)->Some_0);
    } else if header_name_of(b) is Some {
        assert forall|i: int| 0 <= i < a.len() implies header_token_byte(#[trigger] a[i]) by {
            assert(header_token_byte(a[i]) == header_token_byte(b[i]));
        }
    }
}

/// A character that a header value may hold: every byte of its UTF-8 form is
/// a tab, or at least 32 and not 127.
pub open spec fn header_value_char(c: char) -> bool {
    (c as u32 >= 32 && c as u32 != 127) || c == '\t'
}

/// Text that a header value may hold.
pub open spec fn header_value_ok(s: Seq<char>) -> bool {
    forall|i: int| 0 <= i < s.len() ==> header_value_char(#[trigger] s[i])
}

/// Relies on `HeaderName::from_bytes`, which accepts 1 to 65535 bytes that
/// its `HEADER_CHARS` table maps to a non-zero byte (the bytes of
/// [`header_token_byte`]) and keeps the table's lower-case form, and on
/// `HeaderName::as_str`, which hands that form out.
#[verifier::external_body]
fn header_name(b: &[u8]) -> (r: Result<String, reqwest::header::InvalidHeaderName>)
    ensures
        r is Ok <==> header_name_of(b@) is Some,
        r is Ok ==> r->Ok_0@ == header_name_of(b@)->Some_0,
{
    reqwest::header::HeaderName::from_bytes(b).map(|n| String::from(n.as_str()))
}

/// Relies on `HeaderValue::from_str`, which accepts a string exactly when
/// each of its bytes is a tab, or at least 32 and not 127.
#[verifier::external_body]
fn check_header_value(s: &str) -> (r: Result<(), reqwest::header::InvalidHeaderValue>)
    ensures
        r is Ok <==> header_value_ok(s@),
{
    reqwest::header::HeaderValue::from_str(s).map(|_| ())
}

/// `Authorization` is a legal header name, `authorization` in canonical form.
pub proof fn lemma_authorization_name()
    ensures
        header_name_of("Authorization".spec_bytes()) == Some("authorization"@),
{
    reveal_strlit("Authorization");
    reveal_strlit("authorization");
    vstd::string::is_ascii_spec_bytes("Authorization");
    assert(vstd::string::is_ascii("Authorization"));
    let b = "Authorization".spec_bytes();
    assert(b.len() == 13);
    assert forall|i: int| 0 <= i < b.len() implies header_token_byte(#[trigger] b[i]) by {}
    assert(Seq::new(b.len(), |i: int| lower_byte(b[i]) as char) =~= "authorization"@);
}

/// An ASCII text of 1 to 65535 header-name characters is a legal header
/// name, in its lower-case form.
pub proof fn lemma_literal_header_name(s: &str)
    requires
        vstd::string::is_ascii(s),
        1 <= s@.len() <= 65535,
        forall|i: int| 0 <= i < s@.len() ==> header_token_byte(#[trigger] (s@[i] as u8)),
    ensures
        header_name_of(s.spec_bytes()) == Some(
            Seq::new(s@.len(), |i: int| lower_byte(s@[i] as u8) as char),
        ),
{
    vstd::string::is_ascii_spec_bytes(s);
    let b = s.spec_bytes();
    assert forall|i: int| 0 <= i < b.len() implies header_token_byte(#[trigger] b[i]) by {
        assert(b[i] == s@[i] as u8);
    }
    assert(Seq::new(b.len(), |i: int| lower_byte(b[i]) as char) =~= Seq::new(
        s@.len(),
        |i: int| lower_byte(s@[i] as u8) as char,
    ));
}

/// Whether `name` is a legal header name; [`Rq::add_header`] skips any other.
pub fn header_name_valid(name: &[u8]) -> (r: bool)
    ensures
        r == header_name_of(name@) is Some,
{
    header_name(name).is_ok()
}

/// The headers as text: each canonical name with its value.
pub open spec fn headers_view(s: Seq<(String, HeaderValue)>) -> Seq<(Seq<char>, (Seq<char>, bool))> {
    s.map_values(|e: (String, HeaderValue)| (e.0@, e.1@))
}

/// No name occurs twice.
pub open spec fn names_unique<V>(s: Seq<(Seq<char>, V)>) -> bool {
    forall|i: int, j: int|
        0 <= i < s.len() && 0 <= j < s.len() && i != j ==> #[trigger] s[i].0 != #[trigger] s[j].0
}

/// `s` with the entry named `k` taking value `v` in place, or with `(k, v)`
/// appended when no entry is named `k`.
pub open spec fn put<V>(s: Seq<(Seq<char>, V)>, k: Seq<char>, v: V) -> Seq<(Seq<char>, V)> {
    if exists|i: int| 0 <= i < s.len() && #[trigger] s[i].0 == k {
        let i = choose|i: int| 0 <= i < s.len() && #[trigger] s[i].0 == k;
        s.update(i, (k, v))
    } else {
        s.push((k, v))
    }
}

/// `s` with header `name` set to `v` when `name` is a legal header name, and
/// unchanged when it is not.
pub open spec fn header_put(
    s: Seq<(Seq<char>, (Seq<char>, bool))>,
    name: Seq<u8>,
    v: (Seq<char>, bool),
) -> Seq<(Seq<char>, (Seq<char>, bool))> {
    match header_name_of(name) {
        Some(n) => put(s, n, v),
        None => s,
    }
}

proof fn lemma_headers_view_upsert(s: Seq<(String, HeaderValue)>, key: String, v: HeaderValue)
    requires
        keys_unique(s),
    ensures
        headers_view(crate::json::upserted(s, key, v)) == put(headers_view(s), key@, v@),
        names_unique(headers_view(s)),
{
    let w = headers_view(s);
    assert(names_unique(w)) by {
        assert forall|a: int, b: int|
            0 <= a < w.len() && 0 <= b < w.len() && a != b implies #[trigger] w[a].0
            != #[trigger] w[b].0 by {
            assert(w[a].0 == s[a].0@ && w[b].0 == s[b].0@);
        }
    }
    if has_key(s, key@) {
        let i = choose|i: int| 0 <= i < s.len() && #[trigger] s[i].0@ == key@;
        assert(w[i].0 == key@);
        let j = choose|j: int| 0 <= j < w.len() && #[trigger] w[j].0 == key@;
        assert(s[j].0@ == key@);
        assert(i == j);
        assert(headers_view(s.update(i, (key, v))) =~= w.update(i, (key@, v@)));
    } else {
        assert forall|j: int| 0 <= j < w.len() implies #[trigger] w[j].0 != key@ by {
            assert(w[j].0 == s[j].0@);
        }
        assert(headers_view(s.push((key, v))) =~= w.push((key@, v@)));
    }
}

/// Key/value pairs as text.
pub open spec fn pairs_view(s: Seq<(String, String)>) -> Seq<(Seq<char>, Seq<char>)> {
    s.map_values(|p: (String, String)| (p.0@, p.1@))
}

/// The JSON body fields as a mapping from key to value.
pub open spec fn json_map(s: Seq<(String, Json)>) -> Map<Seq<char>, Json> {
    entry_map(s)
}

/// The mapping that a JSON object's members stand for; `None` for any value
/// that is not an object.
pub open spec fn object_map(j: Json) -> Option<Map<Seq<char>, Json>> {
    match j {
        Json::Object(members) => Some(entry_map(members@)),
        _ => None,
    }
}

/// Setting a header twice, under two names that differ at most in the case
/// of ASCII letters, leaves a single entry for it, in the place a single
/// setting would give it, holding the second value: the header count is that
/// of one setting.
pub proof fn lemma_header_set_twice(
    s: Seq<(Seq<char>, (Seq<char>, bool))>,
    first: Seq<u8>,
    second: Seq<u8>,
    v1: (Seq<char>, bool),
    v2: (Seq<char>, bool),
)
    requires
        names_unique(s),
        first.len() == second.len(),
        forall|i: int| 0 <= i < first.len() ==> lower_byte(#[trigger] first[i]) == lower_byte(second[i]),
    ensures
        header_put(header_put(s, first, v1), second, v2) == header_put(s, second, v2),
        names_unique(header_put(s, second, v2)),
        header_name_of(second) is Some ==> {
            let n = header_name_of(second)->Some_0;
            let t = header_put(s, second, v2);
            &&& exists|i: int| 0 <= i < t.len() && #[trigger] t[i] == (n, v2)
            &&& t.len() == s.len() + if exists|i: int| 0 <= i < s.len() && #[trigger] s[i].0 == n {
                0int
            } else {
                1int
            }
        },
{
    lemma_header_names_case_insensitive(first, second);
    if let Some(n) = header_name_of(second) {
        let t1 = put(s, n, v1);
        let t2 = put(s, n, v2);
        if exists|i: int| 0 <= i < s.len() && #[trigger] s[i].0 == n {
            let i = choose|i: int| 0 <= i < s.len() && #[trigger] s[i].0 == n;
            assert(t1[i].0 == n);
            let j = choose|j: int| 0 <= j < t1.len() && #[trigger] t1[j].0 == n;
            if j != i {
                assert(s[j].0 == n);
            }
            assert(put(t1, n, v2) =~= t2);
            assert(t2[i] == (n, v2));
            assert forall|a: int, b: int|
                0 <= a < t2.len() && 0 <= b < t2.len() && a != b implies #[trigger] t2[a].0
                != #[trigger] t2[b].0 by {
                assert(t2[a].0 == s[a].0 && t2[b].0 == s[b].0);
            }
        } else {
            let k = s.len() as int;
            assert(t1[k].0 == n);
            let j = choose|j: int| 0 <= j < t1.len() && #[trigger] t1[j].0 == n;
            if j != k {
                assert(s[j].0 == n);
            }
            assert(put(t1, n, v2) =~= t2);
            assert(t2[k] == (n, v2));
            assert forall|a: int, b: int|
                0 <= a < t2.len() && 0 <= b < t2.len() && a != b implies #[trigger] t2[a].0
                != #[trigger] t2[b].0 by {
                if a == k {
                    assert(t2[b].0 == s[b].0);
                } else if b == k {
                    assert(t2[a].0 == s[a].0);
                } else {
                    assert(t2[a].0 == s[a].0 && t2[b].0 == s[b].0);
                }
            }
        }
    }
}

/// Query parameters set twice are those of the second setting alone.
pub proof fn lemma_params_replaced(q: Rq, first: Vec<(String, String)>, second: Vec<(String, String)>)
    ensures
        q.with_params(first).with_params(second) == q.with_params(second),
        q.with_params(first).with_params(second).params == second,
{
}

/// Two payloads loaded one after the other: every key of the second takes
/// its value from the second, every other key of the first from the first,
/// and the body's remaining keys keep theirs.
pub proof fn lemma_payloads_merged(
    body: Map<Seq<char>, Json>,
    o1: Map<Seq<char>, Json>,
    o2: Map<Seq<char>, Json>,
)
    ensures
        ({
            let m = body.union_prefer_right(o1).union_prefer_right(o2);
            &&& m.dom() == body.dom() + o1.dom() + o2.dom()
            &&& forall|k: Seq<char>| #[trigger] o2.contains_key(k) ==> m[k] == o2[k]
            &&& forall|k: Seq<char>|
                !o2.contains_key(k) && #[trigger] o1.contains_key(k) ==> m[k] == o1[k]
            &&& forall|k: Seq<char>|
                !o2.contains_key(k) && !o1.contains_key(k) && #[trigger] body.contains_key(k)
                    ==> m[k] == body[k]
        }),
{
    let m = body.union_prefer_right(o1).union_prefer_right(o2);
    assert(m.dom() =~= body.dom() + o1.dom() + o2.dom());
}

/// A request under construction.
#[derive(Debug)]
pub struct Rq {
    /// The endpoint the path is resolved against.
    pub bot: Bot,
    /// The path, resolved against the endpoint when the request is prepared.
    pub uri: String,
    pub method: Method,
    /// Header names in canonical form, each at most once, in insertion order.
    pub headers: Vec<(String, HeaderValue)>,
    /// Query parameters, in order.
    pub params: Vec<(String, String)>,
    /// Top-level fields of the JSON body, each key at most once.
    pub json: Vec<(String, Json)>,
    /// Fields of the URL-encoded form body, in order; repeats allowed.
    pub form: Vec<(String, String)>,
}

impl Rq {
    /// The header names and the JSON body keys are each unique.
    pub open spec fn wf(&self) -> bool {
        keys_unique(self.headers@) && keys_unique(self.json@)
    }

    /// A GET request with an empty path, no headers, no parameters and an
    /// empty body.
    pub fn new(bot: Bot) -> (r: Rq)
        ensures
            r.wf(),
            r.bot == bot,
            r.uri@.len() == 0,
            r.method == Method::Get,
            r.headers@.len() == 0,
            r.params@.len() == 0,
            r.json@.len() == 0,
            r.form@.len() == 0,
    {
        Rq {
            bot,
            uri: String::new(),
            method: Method::Get,
            headers: Vec::new(),
            params: Vec::new(),
            json: Vec::new(),
            form: Vec::new(),
        }
    }

    /// A new request against the endpoint parsed from `url`; fails with
    /// `InvalidUrl` when `url` is not an absolute URL.
    pub fn from_static(url: &str) -> (r: Result<Rq, Error>)
        ensures
            r is Ok <==> url_parsed(url@) is Some,
            r is Err ==> r->Err_0 == Error::InvalidUrl,
            r is Ok ==> {
                let q = r->Ok_0;
                &&& q.wf()
                &&& q.bot.url@ == url_parsed(url@)->Some_0
                &&& q.uri@.len() == 0
                &&& q.method == Method::Get
                &&& q.headers@.len() == 0
                &&& q.params@.len() == 0
                &&& q.json@.len() == 0
                &&& q.form@.len() == 0
            },
    {
        let bot = Bot::new(url)?;
        Ok(Rq::new(bot))
    }

    /// Replaces the path.
    pub fn uri(self, uri: &str) -> (r: Rq)
        requires
            self.wf(),
        ensures
            r.wf(),
            r.uri@ == uri@,
            r.bot == self.bot,
            r.method == self.method,
            r.headers == self.headers,
            r.params == self.params,
            r.json == self.json,
            r.form == self.form,
    {
        Rq { uri: owned(uri), ..self }
    }

    /// Sets the verb from its name; fails with `UnsupportedMethod` for any
    /// name but GET, POST, PUT and DELETE.
    pub fn method(self, name: &str) -> (r: Result<Rq, Error>)
        requires
            self.wf(),
        ensures
            r is Ok <==> method_named(name@) is Some,
            r is Err ==> r->Err_0 == Error::UnsupportedMethod,
            r is Ok ==> {
                let q = r->Ok_0;
                &&& q.wf()
                &&& q.method == method_named(name@)->Some_0
                &&& q.bot == self.bot
                &&& q.uri == self.uri
                &&& q.headers == self.headers
                &&& q.params == self.params
                &&& q.json == self.json
                &&& q.form == self.form
            },
    {
        match Method::parse(name) {
            Some(m) => Ok(Rq { method: m, ..self }),
            None => Err(Error::UnsupportedMethod),
        }
    }

    fn set_header(self, name: String, value: HeaderValue) -> (r: Rq)
        requires
            self.wf(),
        ensures
            r.wf(),
            headers_view(r.headers@) == put(headers_view(self.headers@), name@, value@),
            r.bot == self.bot,
            r.uri == self.uri,
            r.method == self.method,
            r.params == self.params,
            r.json == self.json,
            r.form == self.form,
    {
        let mut q = self;
        proof {
            lemma_headers_view_upsert(q.headers@, name, value);
            crate::json::lemma_upserted(q.headers@, name, value);
        }
        upsert(&mut q.headers, name, value);
        q
    }

    /// Sets a header whose value is masked in logs. Fails with
    /// `InvalidHeader` when the name or the value holds illegal characters.
    pub fn add_secret_header(self, name: &[u8], value: &str) -> (r: Result<Rq, Error>)
        requires
            self.wf(),
        ensures
            r is Ok <==> header_name_of(name@) is Some && header_value_ok(value@),
            r is Err ==> r->Err_0 == Error::InvalidHeader,
            r is Ok ==> {
                let q = r->Ok_0;
                &&& q.wf()
                &&& headers_view(q.headers@) == put(
                    headers_view(self.headers@),
                    header_name_of(name@)->Some_0,
                    (value@, true),
                )
                &&& q.bot == self.bot
                &&& q.uri == self.uri
                &&& q.method == self.method
                &&& q.params == self.params
                &&& q.json == self.json
                &&& q.form == self.form
            },
    {
        if check_header_value(value).is_err() {
            return Err(Error::InvalidHeader);
        }
        match header_name(name) {
            Ok(n) => Ok(self.set_header(n, HeaderValue::Sensitive(owned(value)))),
            Err(_) => Err(Error::InvalidHeader),
        }
    }

    /// Sets a plain header. A name with illegal characters is skipped and the
    /// request comes back unchanged; a legal name with an illegal value fails
    /// with `InvalidHeader`. A name that is already set takes the new value.
    pub fn add_header(self, name: &[u8], value: &str) -> (r: Result<Rq, Error>)
        requires
            self.wf(),
        ensures
            r is Err <==> header_name_of(name@) is Some && !header_value_ok(value@),
            r is Err ==> r->Err_0 == Error::InvalidHeader,
            header_name_of(name@) is None ==> r == Ok::<Rq, Error>(self),
            r is Ok ==> {
                let q = r->Ok_0;
                &&& q.wf()
                &&& headers_view(q.headers@) == header_put(
                    headers_view(self.headers@),
                    name@,
                    (value@, false),
                )
                &&& q.bot == self.bot
                &&& q.uri == self.uri
                &&& q.method == self.method
                &&& q.params == self.params
                &&& q.json == self.json
                &&& q.form == self.form
            },
    {
        let n = match header_name(name) {
            Ok(n) => n,
            Err(_) => return Ok(self),
        };
        if check_header_value(value).is_err() {
            return Err(Error::InvalidHeader);
        }
        Ok(self.set_header(n, HeaderValue::Plain(owned(value))))
    }

    /// Sets `Accept` and `Content-Type` to `application/json`.
    pub fn with_json(self) -> (r: Result<Rq, Error>)
        requires
            self.wf(),
        ensures
            r is Ok,
            r is Ok ==> {
                let q = r->Ok_0;
                &&& q.wf()
                &&& headers_view(q.headers@) == put(
                    put(headers_view(self.headers@), "accept"@, ("application/json"@, false)),
                    "content-type"@,
                    ("application/json"@, false),
                )
                &&& q.bot == self.bot
                &&& q.uri == self.uri
                &&& q.method == self.method
                &&& q.params == self.params
                &&& q.json == self.json
                &&& q.form == self.form
            },
    {
        proof {
            reveal_strlit("application/json");
            assert(header_value_ok("application/json"@));
            reveal_strlit("Accept");
            reveal_strlit("accept");
            reveal_strlit("Content-Type");
            reveal_strlit("content-type");
            lemma_literal_header_name("Accept");
            lemma_literal_header_name("Content-Type");
            assert(Seq::new(6, |i: int| lower_byte("Accept"@[i] as u8) as char) =~= "accept"@);
            assert(Seq::new(12, |i: int| lower_byte("Content-Type"@[i] as u8) as char)
                =~= "content-type"@);
        }
        let q = self.add_header("Accept".as_bytes(), "application/json")?;
        q.add_header("Content-Type".as_bytes(), "application/json")
    }

    /// The request with its query parameters replaced by `params`.
    pub open spec fn with_params(self, params: Vec<(String, String)>) -> Rq {
        Rq { params, ..self }
    }

    /// Replaces the query parameters as a whole; earlier ones are dropped.
    pub fn add_params(self, params: Vec<(String, String)>) -> (r: Rq)
        requires
            self.wf(),
        ensures
            r.wf(),
            r == self.with_params(params),
    {
        Rq { params, ..self }
    }

    /// Merges the members of a JSON object into the body: each key takes the
    /// member's value, and keys the object does not name keep theirs. Fails
    /// with `InvalidPayload` when `value` is not an object.
    pub fn load_payload(self, value: Json) -> (r: Result<Rq, Error>)
        requires
            self.wf(),
        ensures
            r is Ok <==> value is Object,
            r is Err ==> r->Err_0 == Error::InvalidPayload,
            r is Ok ==> {
                let q = r->Ok_0;
                &&& q.wf()
                &&& json_map(q.json@) == json_map(self.json@).union_prefer_right(
                    object_map(value)->Some_0,
                )
                &&& q.bot == self.bot
                &&& q.uri == self.uri
                &&& q.method == self.method
                &&& q.headers == self.headers
                &&& q.params == self.params
                &&& q.form == self.form
            },
    {
        let mut members = match value {
            Json::Object(m) => m,
            _ => return Err(Error::InvalidPayload),
        };
        let ghost all = members@;
        assert(all.len() == members.len());
        let mut q = self;
        let ghost start = q;
        let mut i: usize = 0;
        while members.len() > 0
            invariant
                q.wf(),
                i <= all.len() <= usize::MAX,
                members@ == all.subrange(i as int, all.len() as int),
                json_map(q.json@) == json_map(start.json@).union_prefer_right(
                    entry_map(all.subrange(0, i as int)),
                ),
                q.bot == start.bot,
                q.uri == start.uri,
                q.method == start.method,
                q.headers == start.headers,
                q.params == start.params,
                q.form == start.form,
            decreases members@.len(),
        {
            let (k, v) = members.remove(0);
            proof {
                let pre = all.subrange(0, i as int);
                let next = all.subrange(0, i + 1);
                assert(next.drop_last() == pre);
                assert(next.last() == all[i as int]);
                assert(entry_map(next) == entry_map(pre).insert(k@, v));
                assert(json_map(start.json@).union_prefer_right(entry_map(next)) =~= json_map(
                    start.json@,
                ).union_prefer_right(entry_map(pre)).insert(k@, v));
            }
            upsert(&mut q.json, k, v);
            i = i + 1;
            assert(members@ =~= all.subrange(i as int, all.len() as int));
        }
        assert(all.subrange(0, i as int) == all);
        Ok(q)
    }

    /// Sets one top-level field of the JSON body, replacing any earlier value.
    pub fn add_payload(self, key: &str, value: Json) -> (r: Rq)
        requires
            self.wf(),
        ensures
            r.wf(),
            json_map(r.json@) == json_map(self.json@).insert(key@, value),
            r.bot == self.bot,
            r.uri == self.uri,
            r.method == self.method,
            r.headers == self.headers,
            r.params == self.params,
            r.form == self.form,
    {
        let mut q = self;
        upsert(&mut q.json, owned(key), value);
        q
    }

    /// Appends a field to the form body; repeated keys are kept.
    pub fn add_form(self, key: &str, value: &str) -> (r: Rq)
        requires
            self.wf(),
        ensures
            r.wf(),
            pairs_view(r.form@) == pairs_view(self.form@).push((key@, value@)),
            r.bot == self.bot,
            r.uri == self.uri,
            r.method == self.method,
            r.headers == self.headers,
            r.params == self.params,
            r.json == self.json,
    {
        let mut q = self;
        q.form.push((owned(key), owned(value)));
        assert(pairs_view(q.form@) =~= pairs_view(self.form@).push((key@, value@)));
        q
    }

    /// Applies `fun` with the value when there is one; otherwise hands the
    /// request back unchanged.
    pub fn apply_if<T, F: FnOnce(Rq, T) -> Rq>(self, val: Option<T>, fun: F) -> (r: Rq)
        requires
            val is Some ==> fun.requires((self, val->Some_0)),
        ensures
            val is None ==> r == self,
            val is Some ==> fun.ensures((self, val->Some_0), r),
    {
        match val {
            Some(v) => fun(self, v),
            None => self,
        }
    }

    /// The value of header `name` (matched in canonical form), if it is set.
    pub fn header(&self, name: &[u8]) -> (r: Option<&HeaderValue>)
        ensures
            header_name_of(name@) is None ==> r is None,
            header_name_of(name@) is Some ==> {
                let n = header_name_of(name@)->Some_0;
                &&& r is Some <==> has_key(self.headers@, n)
                &&& r is Some ==> exists|i: int|
                    0 <= i < self.headers@.len() && #[trigger] self.headers@[i].0@ == n
                        && self.headers@[i].1 == *r->Some_0
            },
    {
        let n = match header_name(name) {
            Ok(n) => n,
            Err(_) => return None,
        };
        match crate::json::find_key(&self.headers, n.as_str()) {
            Some(i) => Some(&self.headers[i].1),
            None => None,
        }
    }

    /// The value of JSON body field `key`, if it is set.
    pub fn json_field(&self, key: &str) -> (r: Option<&Json>)
        requires
            self.wf(),
        ensures
            r is Some <==> json_map(self.json@).contains_key(key@),
            r is Some ==> *r->Some_0 == json_map(self.json@)[key@],
    {
        proof {
            crate::json::lemma_entry_map_dom(self.json@, key@);
        }
        match crate::json::find_key(&self.json, key) {
            Some(i) => {
                proof {
                    crate::json::lemma_entry_map_value(self.json@, i as int);
                }
                Some(&self.json[i].1)
            },
            None => None,
        }
    }

    /// The full URL: the path resolved against the endpoint. Fails with
    /// `InvalidUrl` when they do not make a valid URL.
    pub fn url(&self) -> (r: Result<String, Error>)
        ensures
            r is Ok <==> url_joined(self.bot.url@, self.uri@) is Some,
            r is Ok ==> r->Ok_0@ == url_joined(self.bot.url@, self.uri@)->Some_0,
            r is Err ==> r->Err_0 == Error::InvalidUrl,
    {
        match join_url(self.bot.url.as_str(), self.uri.as_str()) {
            Ok(u) => Ok(u),
            Err(_) => Err(Error::InvalidUrl),
        }
    }

    /// Finishes the request for the transport: resolves the URL and picks the
    /// body, the form when it has fields and the JSON fields otherwise (even
    /// when there are none). Fails with `InvalidUrl` as [`Rq::url`] does.
    pub fn prepare(self) -> (r: Result<Prepared, Error>)
        ensures
            r is Ok <==> url_joined(self.bot.url@, self.uri@) is Some,
            r is Err ==> r->Err_0 == Error::InvalidUrl,
            r is Ok ==> {
                let p = r->Ok_0;
                &&& p.url@ == url_joined(self.bot.url@, self.uri@)->Some_0
                &&& p.method == self.method
                &&& p.headers == self.headers
                &&& p.query == self.params
                &&& p.body == if self.form@.len() > 0 {
                    Body::Form(self.form)
                } else {
                    Body::Json(self.json)
                }
            },
    {
        let url = self.url()?;
        let body = if self.form.len() > 0 {
            Body::Form(self.form)
        } else {
            Body::Json(self.json)
        };
        Ok(Prepared { url, method: self.method, headers: self.headers, query: self.params, body })
    }
}

/// The body a prepared request carries.
#[derive(Debug)]
pub enum Body {
    /// A JSON object with these members.
    Json(Vec<(String, Json)>),
    /// A URL-encoded form with these fields.
    Form(Vec<(String, String)>),
}

/// A finished request, ready for the transport.
#[derive(Debug)]
pub struct Prepared {
    pub url: String,
    pub method: Method,
    pub headers: Vec<(String, HeaderValue)>,
    pub query: Vec<(String, String)>,
    pub body: Body,
}

/// A status code in the success range.
pub open spec fn is_success(status: u16) -> bool {
    200 <= status <= 299
}

/// A JSON object without members.
pub open spec fn is_empty_object(j: Json) -> bool {
    j is Object && j->Object_0@.len() == 0
}

/// What a dispatch produced: the parsed body on success, the raw text when
/// the status was not a success or the body was not JSON.
#[derive(Debug)]
pub struct Rs {
    /// The parsed body; an empty object unless the reply was a success with
    /// a JSON body.
    pub data: Json,
    /// The body text, kept when it was not parsed.
    pub raw: Option<String>,
    pub status: u16,
}

impl Rs {
    /// Normalizes a reply: `text` is the body as received and `parsed` what
    /// it reads as as JSON, if it does. A non-success status keeps the text
    /// and leaves the data empty; so does a success whose body is not JSON;
    /// a success with a JSON body keeps the parsed value. Never an error.
    pub fn from_reply(status: u16, text: String, parsed: Option<Json>) -> (r: Rs)
        ensures
            r.status == status,
            is_success(status) && parsed is Some ==> r.raw is None && r.data == parsed->Some_0,
            !(is_success(status) && parsed is Some) ==> r.raw == Some(text) && is_empty_object(
                r.data,
            ),
    {
        if 200 <= status && status <= 299 {
            if let Some(data) = parsed {
                return Rs { data, raw: None, status };
            }
        }
        Rs { data: Json::Object(Vec::new()), raw: Some(text), status }
    }

    /// Whether the status is in the success range.
    pub fn is_success(&self) -> (r: bool)
        ensures
            r == is_success(self.status),
    {
        200 <= self.status && self.status <= 299
    }
}

} // verus!
