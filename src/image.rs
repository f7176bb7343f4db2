//! Image generation: the request payload, and the polling protocol that
//! waits for the asynchronous generation job to finish.
//!
//! A [`Poller`] decides, for each status report fetched for the job, whether
//! the job is complete, whether to wait and fetch again, or whether the budget
//! of [`MAX_ATTEMPTS`] fetches is spent. Fetching and waiting are the caller's.
use vstd::prelude::*;

use crate::api::{header_name_of, header_value_ok, headers_view, put, Method, Rq};
use crate::json::{entry_map, is_number, is_str, keys_unique, upsert, Json};
use crate::text::{decimal, decimal_text, is_slice_of, join2, join3, owned, trim, trimmed};
use crate::{Bot, Error};
use vstd::string::StringSliceAdditionalSpecFns;

verus! {

/// The path that starts an image-generation job.
pub const URI: &'static str = "/foundationModels/v1/imageGenerationAsync";

/// How many status reports are fetched before the job is given up.
pub const MAX_ATTEMPTS: u32 = 10;

/// Seconds to wait between two status fetches.
pub const POLL_INTERVAL_SECS: u64 = 20;

/// `base64::DecodeError`, carried opaquely out of [`decode_base64`].
#[verifier::external_type_specification]
#[verifier::external_body]
pub struct ExDecodeError(base64::DecodeError);

/// The bytes that the standard base64 engine decodes from `s`, or `None` when
/// `s` is not valid standard base64.
pub uninterp spec fn base64_decoded(s: Seq<char>) -> Option<Seq<u8>>;

/// Relies on `base64::Engine::decode` with the `BASE64_STANDARD` engine.
#[verifier::external_body]
fn decode_base64(s: &str) -> (r: Result<Vec<u8>, base64::DecodeError>)
    ensures
        r is Ok <==> base64_decoded(s@) is Some,
        r is Ok ==> r->Ok_0@ == base64_decoded(s@)->Some_0,
{
    base64::Engine::decode(&base64::prelude::BASE64_STANDARD, s)
}

/// `Bearer ` followed by the token without surrounding white space.
pub open spec fn bearer_of(token: Seq<char>) -> Seq<char> {
    "Bearer "@ + trimmed(token)
}

proof fn lemma_bearer_value_ok(token: Seq<char>)
    requires
        header_value_ok(token),
        is_slice_of(trimmed(token), token),
    ensures
        header_value_ok(bearer_of(token)),
{
    reveal_strlit("Bearer ");
    let (i, j) = choose|i: int, j: int|
        0 <= i <= j <= token.len() && trimmed(token) == token.subrange(i, j);
    let b = bearer_of(token);
    assert forall|k: int| 0 <= k < b.len() implies crate::api::header_value_char(#[trigger] b[k]) by {
        if k >= 7 {
            assert(b[k] == token[i + k - 7]);
        }
    }
}

/// The `Authorization` value for a bearer token; surrounding white space is
/// trimmed off the token.
pub fn bearer(token: &str) -> (r: String)
    ensures
        r@ == bearer_of(token@),
        header_value_ok(token@) ==> header_value_ok(r@),
{
    let t = trim(token);
    proof {
        if header_value_ok(token@) {
            lemma_bearer_value_ok(token@);
        }
    }
    join2("Bearer ", t)
}

/// The request that fetches the status of operation `id`:
/// `GET /operations/{id}` with the token as a sensitive bearer
/// `Authorization` header. Fails with `InvalidHeader` when the token holds
/// characters a header value cannot.
pub fn status_request(bot: Bot, id: &str, token: &str) -> (r: Result<Rq, Error>)
    ensures
        r is Ok <==> header_value_ok(bearer_of(token@)),
        header_value_ok(token@) ==> r is Ok,
        r is Err ==> r->Err_0 == Error::InvalidHeader,
        r is Ok ==> {
            let q = r->Ok_0;
            &&& q.wf()
            &&& q.bot == bot
            &&& q.uri@ == "/operations/"@ + id@
            &&& q.method == Method::Get
            &&& headers_view(q.headers@) == seq![("authorization"@, (bearer_of(token@), true))]
            &&& q.params@.len() == 0
            &&& q.json@.len() == 0
            &&& q.form@.len() == 0
        },
{
    let path = join2("/operations/", id);
    let auth = bearer(token);
    let q = Rq::new(bot).uri(path.as_str());
    let ghost q0 = q;
    proof {
        crate::api::lemma_authorization_name();
    }
    let r = q.add_secret_header("Authorization".as_bytes(), auth.as_str());
    proof {
        if r is Ok {
            let e = Seq::<(Seq<char>, (Seq<char>, bool))>::empty();
            assert(headers_view(q0.headers@) =~= e);
            assert(put(e, header_name_of("Authorization".spec_bytes())->Some_0, (auth@, true))
                =~= seq![(header_name_of("Authorization".spec_bytes())->Some_0, (auth@, true))]);
        }
    }
    r
}

/// The result of a finished generation job.
#[derive(Debug, Clone)]
pub struct Object {
    /// The generated image as base64 text.
    pub image: String,
    pub model_version: String,
}

/// One status report of a generation job.
#[derive(Debug, Clone)]
pub struct Response {
    pub id: String,
    pub description: String,
    pub done: bool,
    /// The result, once there is one.
    pub response: Option<Object>,
}

/// What to do after a status report.
#[derive(Debug, Clone, Copy, PartialEq, Eq, Structural)]
pub enum Step {
    /// The job is done and its result is available.
    Completed,
    /// Not ready yet: wait [`POLL_INTERVAL_SECS`] and fetch again.
    Wait,
    /// The budget of fetches is spent without a result.
    Exhausted,
}

/// What one status report does to a poll that has taken `attempts` reports,
/// where `ready` says whether the report is done and carries a result: the
/// new count, and the decision.
pub open spec fn observe_step(attempts: u32, ready: bool) -> (u32, Step) {
    if attempts >= MAX_ATTEMPTS {
        (attempts, Step::Exhausted)
    } else if ready {
        ((attempts + 1) as u32, Step::Completed)
    } else if attempts + 1 < MAX_ATTEMPTS {
        ((attempts + 1) as u32, Step::Wait)
    } else {
        ((attempts + 1) as u32, Step::Exhausted)
    }
}

/// A poll that has taken `attempts` reports, fed the reports `ready` in turn
/// until it decides something other than `Wait`: that decision and the
/// number of reports it took (`Wait` when the reports ran out first).
pub open spec fn poll_run(attempts: u32, ready: Seq<bool>) -> (Step, nat)
    decreases ready.len(),
{
    if ready.len() == 0 {
        (Step::Wait, 0)
    } else {
        let (a, s) = observe_step(attempts, ready[0]);
        if s == Step::Wait {
            let (t, n) = poll_run(a, ready.drop_first());
            (t, n + 1)
        } else {
            (s, 1)
        }
    }
}

proof fn lemma_poll_run_from(a: u32, ready: Seq<bool>)
    requires
        a < MAX_ATTEMPTS,
    ensures
        forall|k: int|
            0 <= k < ready.len() && a + k < MAX_ATTEMPTS && #[trigger] ready[k] && (forall|j: int|
                0 <= j < k ==> !ready[j]) ==> poll_run(a, ready) == (Step::Completed, (k + 1) as nat),
        ready.len() >= MAX_ATTEMPTS - a && (forall|j: int| 0 <= j < MAX_ATTEMPTS - a ==> !ready[j])
            ==> poll_run(a, ready) == (Step::Exhausted, (MAX_ATTEMPTS - a) as nat),
    decreases ready.len(),
{
    if ready.len() > 0 {
        let rest = ready.drop_first();
        if a + 1 < MAX_ATTEMPTS {
            lemma_poll_run_from((a + 1) as u32, rest);
        }
        assert forall|k: int|
            0 <= k < ready.len() && a + k < MAX_ATTEMPTS && #[trigger] ready[k] && (forall|j: int|
                0 <= j < k ==> !ready[j]) implies poll_run(a, ready) == (
            Step::Completed,
            (k + 1) as nat,
        ) by {
            if k > 0 {
                assert(!ready[0]);
                assert(rest[k - 1] == ready[k]);
                assert forall|j: int| 0 <= j < k - 1 implies !rest[j] by {
                    assert(rest[j] == ready[j + 1]);
                }
            }
        }
        if ready.len() >= MAX_ATTEMPTS - a && (forall|j: int|
            0 <= j < MAX_ATTEMPTS - a ==> !ready[j]) {
            assert(!ready[0]);
            if a + 1 < MAX_ATTEMPTS {
                assert forall|j: int| 0 <= j < MAX_ATTEMPTS - (a + 1) implies !rest[j] by {
                    assert(rest[j] == ready[j + 1]);
                }
            }
        }
    }
}

/// A fresh poll fed status reports in turn completes on the first report
/// that is done with a result, after exactly as many fetches as that report's
/// position, when it is among the first [`MAX_ATTEMPTS`]; when none of the
/// first [`MAX_ATTEMPTS`] reports is, the poll is exhausted after exactly
/// [`MAX_ATTEMPTS`] fetches.
pub proof fn lemma_poll_outcome(ready: Seq<bool>)
    ensures
        forall|k: int|
            0 <= k < ready.len() && k < MAX_ATTEMPTS && #[trigger] ready[k] && (forall|j: int|
                0 <= j < k ==> !ready[j]) ==> poll_run(0, ready) == (Step::Completed, (k + 1) as nat),
        ready.len() >= MAX_ATTEMPTS && (forall|j: int| 0 <= j < MAX_ATTEMPTS ==> !ready[j])
            ==> poll_run(0, ready) == (Step::Exhausted, MAX_ATTEMPTS as nat),
{
    lemma_poll_run_from(0, ready);
}

/// The state of a poll: how many status reports have been taken.
#[derive(Debug, Clone, Copy, PartialEq, Eq, Structural)]
pub struct Poller {
    pub attempts: u32,
}

impl Poller {
    /// A poll that has fetched nothing yet.
    pub fn new() -> (r: Poller)
        ensures
            r.attempts == 0,
    {
        Poller { attempts: 0 }
    }

    /// Takes one status report: `done` as the job reported it, and whether
    /// the report carries a result. A report that is done and carries a
    /// result completes the poll; any other report counts against the budget,
    /// and the report that spends it ends the poll. Once the budget is spent
    /// nothing more is counted.
    pub fn observe(&mut self, done: bool, has_result: bool) -> (r: Step)
        ensures
            (final(self).attempts, r) == observe_step(old(self).attempts, done && has_result),
    {
        if self.attempts >= MAX_ATTEMPTS {
            return Step::Exhausted;
        }
        self.attempts = self.attempts + 1;
        if done && has_result {
            Step::Completed
        } else if self.attempts < MAX_ATTEMPTS {
            Step::Wait
        } else {
            Step::Exhausted
        }
    }

    /// Takes one status report and, on completion, decodes the base64 image.
    /// `Ok(Some(bytes))` is the decoded image, `Ok(None)` means wait and fetch
    /// again; an image that is not valid base64 fails with `DecodeError`, and a
    /// spent budget with `OperationTimeout` carrying the number of fetches.
    pub fn on_status(&mut self, status: &Response) -> (r: Result<Option<Vec<u8>>, Error>)
        ensures
            old(self).attempts >= MAX_ATTEMPTS ==> *final(self) == *old(self),
            old(self).attempts < MAX_ATTEMPTS ==> final(self).attempts == old(self).attempts + 1,
            ({
                let ready = old(self).attempts < MAX_ATTEMPTS && status.done
                    && status.response is Some;
                &&& ready ==> match base64_decoded(status.response->Some_0.image@) {
                    Some(b) => r is Ok && r->Ok_0 is Some && r->Ok_0->Some_0@ == b,
                    None => r == Err::<Option<Vec<u8>>, Error>(Error::DecodeError),
                }
                &&& !ready && final(self).attempts < MAX_ATTEMPTS ==> r == Ok::<
                    Option<Vec<u8>>,
                    Error,
                >(None)
                &&& !ready && final(self).attempts >= MAX_ATTEMPTS ==> r == Err::<
                    Option<Vec<u8>>,
                    Error,
                >(Error::OperationTimeout { attempts: final(self).attempts })
            }),
    {
        let step = self.observe(status.done, status.response.is_some());
        match step {
            Step::Completed => match &status.response {
                Some(obj) => match decode_base64(obj.image.as_str()) {
                    Ok(bytes) => Ok(Some(bytes)),
                    Err(_) => Err(Error::DecodeError),
                },
                None => Ok(None),
            },
            Step::Wait => Ok(None),
            Step::Exhausted => Err(Error::OperationTimeout { attempts: self.attempts }),
        }
    }
}

/// One prompt of an image request, with its weight.
#[derive(Debug, Clone)]
pub struct Message {
    pub text: String,
    pub weight: i8,
}

/// The decimal text of a signed weight.
pub open spec fn signed_decimal(w: int) -> Seq<char> {
    if w < 0 {
        "-"@ + decimal((-w) as nat)
    } else {
        decimal(w as nat)
    }
}

/// `j` is the JSON form of prompt `m`: `{"text": .., "weight": ..}`.
pub open spec fn is_message_json(j: Json, m: Message) -> bool {
    &&& j is Object
    &&& j->Object_0@.len() == 2
    &&& j->Object_0@[0].0@ == "text"@ && is_str(j->Object_0@[0].1, m.text@)
    &&& j->Object_0@[1].0@ == "weight"@ && is_number(j->Object_0@[1].1, signed_decimal(m.weight as int))
}

/// `r` is the request body for `p`: `{"modelUri", "generationOptions",
/// "messages"}` in that order.
pub open spec fn is_payload_json(r: Json, p: Payload) -> bool {
    &&& r is Object
    &&& r->Object_0@.len() == 3
    &&& r->Object_0@[0].0@ == "modelUri"@
    &&& is_str(r->Object_0@[0].1, p.model_uri@)
    &&& r->Object_0@[1].0@ == "generationOptions"@
    &&& r->Object_0@[1].1 == Json::Object(p.generation_options)
    &&& r->Object_0@[2].0@ == "messages"@
    &&& r->Object_0@[2].1 is Array
    &&& r->Object_0@[2].1->Array_0@.len() == p.messages@.len()
    &&& forall|i: int|
        0 <= i < p.messages@.len() ==> is_message_json(
            #[trigger] r->Object_0@[2].1->Array_0@[i],
            p.messages@[i],
        )
}

fn weight_text(w: i8) -> (r: String)
    ensures
        r@ == signed_decimal(w as int),
{
    if w < 0 {
        let m: u64 = (0 - (w as i64)) as u64;
        join2("-", decimal_text(m).as_str())
    } else {
        decimal_text(w as u64)
    }
}

fn message_json(m: &Message) -> (r: Json)
    ensures
        is_message_json(r, *m),
{
    let mut members: Vec<(String, Json)> = Vec::new();
    members.push((owned("text"), Json::Str(m.text.clone())));
    members.push((owned("weight"), Json::Number(weight_text(m.weight))));
    Json::Object(members)
}

/// An image-generation request: the model, the generation options (the
/// members of a JSON object, each key once) and the prompts.
#[derive(Debug)]
pub struct Payload {
    pub model_uri: String,
    pub generation_options: Vec<(String, Json)>,
    pub messages: Vec<Message>,
}

/// `v` is an aspect-ratio object: exactly `widthRatio` and then
/// `heightRatio`, with values that satisfy `w` and `h`.
pub open spec fn is_ratio(v: Json, w: spec_fn(Json) -> bool, h: spec_fn(Json) -> bool) -> bool {
    &&& v is Object
    &&& v->Object_0@.len() == 2
    &&& v->Object_0@[0].0@ == "widthRatio"@ && w(v->Object_0@[0].1)
    &&& v->Object_0@[1].0@ == "heightRatio"@ && h(v->Object_0@[1].1)
}

fn ratio(w: Json, h: Json) -> (r: Json)
    ensures
        r is Object,
        r->Object_0@ =~= seq![(r->Object_0@[0].0, w), (r->Object_0@[1].0, h)],
        r->Object_0@[0].0@ == "widthRatio"@,
        r->Object_0@[1].0@ == "heightRatio"@,
{
    let mut m: Vec<(String, Json)> = Vec::new();
    m.push((owned("widthRatio"), w));
    m.push((owned("heightRatio"), h));
    Json::Object(m)
}

/// `p` holds the default generation options, seed `1863` and aspect ratio
/// 16:9, and no prompts.
pub open spec fn has_defaults(p: Payload) -> bool {
    &&& keys_unique(p.generation_options@)
    &&& p.generation_options@.len() == 2
    &&& p.generation_options@[0].0@ == "seed"@
    &&& is_str(p.generation_options@[0].1, "1863"@)
    &&& p.generation_options@[1].0@ == "aspectRatio"@
    &&& is_ratio(
        p.generation_options@[1].1,
        |v: Json| is_str(v, "16"@),
        |v: Json| is_str(v, "9"@),
    )
    &&& p.messages@.len() == 0
}

impl Default for Payload {
    /// No model, the default generation options and no prompts.
    fn default() -> (r: Payload)
        ensures
            r.model_uri@.len() == 0,
            has_defaults(r),
    {
        proof {
            reveal_strlit("seed");
            reveal_strlit("aspectRatio");
        }
        let mut options: Vec<(String, Json)> = Vec::new();
        options.push((owned("seed"), Json::string("1863")));
        let r = ratio(Json::string("16"), Json::string("9"));
        options.push((owned("aspectRatio"), r));
        assert(options@[0].0@ != options@[1].0@) by {
            assert(options@[0].0@.len() != options@[1].0@.len());
        }
        Payload { model_uri: String::new(), generation_options: options, messages: Vec::new() }
    }
}

impl Payload {
    /// A request for the latest art model in folder `folder_id` (trimmed of
    /// surrounding white space), with seed `1863`, aspect ratio 16:9 and no
    /// prompts.
    pub fn new(folder_id: &str) -> (r: Payload)
        ensures
            r.model_uri@ == "art://"@ + trimmed(folder_id@) + "/yandex-art/latest"@,
            has_defaults(r),
    {
        let model_uri = join3("art://", trim(folder_id), "/yandex-art/latest");
        Payload { model_uri, ..Payload::default() }
    }

    /// Sets the seed.
    pub fn seed(self, seed: u32) -> (r: Payload)
        requires
            keys_unique(self.generation_options@),
        ensures
            keys_unique(r.generation_options@),
            exists|v: Json|
                is_number(v, decimal(seed as nat)) && entry_map(r.generation_options@)
                    == entry_map(self.generation_options@).insert("seed"@, v),
            r.model_uri == self.model_uri,
            r.messages == self.messages,
    {
        let mut p = self;
        let v = Json::Number(decimal_text(seed as u64));
        let ghost gv = v;
        upsert(&mut p.generation_options, owned("seed"), v);
        assert(is_number(gv, decimal(seed as nat)));
        p
    }

    /// Sets the aspect ratio to `width_ratio`:`height_ratio`.
    pub fn aspect_ratio(self, width_ratio: u32, height_ratio: u32) -> (r: Payload)
        requires
            keys_unique(self.generation_options@),
        ensures
            keys_unique(r.generation_options@),
            exists|v: Json|
                is_ratio(
                    v,
                    |w: Json| is_number(w, decimal(width_ratio as nat)),
                    |h: Json| is_number(h, decimal(height_ratio as nat)),
                ) && entry_map(r.generation_options@) == entry_map(
                    self.generation_options@,
                ).insert("aspectRatio"@, v),
            r.model_uri == self.model_uri,
            r.messages == self.messages,
    {
        let mut p = self;
        let w = Json::Number(decimal_text(width_ratio as u64));
        let h = Json::Number(decimal_text(height_ratio as u64));
        let v = ratio(w, h);
        let ghost gv = v;
        upsert(&mut p.generation_options, owned("aspectRatio"), v);
        assert(is_ratio(
            gv,
            |w: Json| is_number(w, decimal(width_ratio as nat)),
            |h: Json| is_number(h, decimal(height_ratio as nat)),
        ));
        p
    }

    /// The request body: `{"modelUri", "generationOptions", "messages"}`.
    pub fn to_json(self) -> (r: Json)
        ensures
            is_payload_json(r, self),
    {
        let mut items: Vec<Json> = Vec::new();
        let mut i: usize = 0;
        while i < self.messages.len()
            invariant
                i <= self.messages@.len(),
                items@.len() == i,
                forall|k: int| 0 <= k < i ==> is_message_json(#[trigger] items@[k], self.messages@[k]),
            decreases self.messages@.len() - i,
        {
            items.push(message_json(&self.messages[i]));
            i = i + 1;
        }
        let mut members: Vec<(String, Json)> = Vec::new();
        members.push((owned("modelUri"), Json::Str(self.model_uri)));
        members.push((owned("generationOptions"), Json::Object(self.generation_options)));
        members.push((owned("messages"), Json::Array(items)));
        Json::Object(members)
    }

    /// Adds a prompt with weight 100.
    pub fn text(self, text: &str) -> (r: Result<Payload, Error>)
        ensures
            r is Ok,
            r is Ok ==> {
                let p = r->Ok_0;
                &&& p.messages@.len() == self.messages@.len() + 1
                &&& p.messages@.drop_last() == self.messages@
                &&& p.messages@.last().text@ == text@
                &&& p.messages@.last().weight == 100
                &&& p.model_uri == self.model_uri
                &&& p.generation_options == self.generation_options
            },
    {
        let mut p = self;
        p.messages.push(Message { text: owned(text), weight: 100 });
        assert(p.messages@.drop_last() =~= self.messages@);
        Ok(p)
    }
}

} // verus!
