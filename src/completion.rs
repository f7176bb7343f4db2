//! Text completion: the request payload with its conversation, and the
//! response with its alternatives.
use vstd::prelude::*;

use crate::json::{entry_map, field, get_field, is_number, is_str, keys_unique, upsert, Json};
use crate::text::{decimal, decimal_text, join3, owned, str_eq};
use crate::api::{header_value_ok, headers_view, json_map, object_map, Method, Rq};
use crate::image::bearer_of;
use crate::{Bot, Error};
use vstd::string::StringSliceAdditionalSpecFns;

verus! {

/// The path of the completion endpoint.
pub const URI: &'static str = "/foundationModels/v1/completion";

/// The status of an alternative that holds the finished answer.
pub const FINAL_STATUS: &'static str = "ALTERNATIVE_STATUS_FINAL";

/// One turn of the conversation.
#[derive(Debug, Clone)]
pub struct Message {
    pub role: String,
    pub text: String,
}

/// `j` is the JSON form of message `m`: `{"role": .., "text": ..}`.
pub open spec fn is_message_json(j: Json, m: Message) -> bool {
    &&& j is Object
    &&& j->Object_0@.len() == 2
    &&& j->Object_0@[0].0@ == "role"@ && is_str(j->Object_0@[0].1, m.role@)
    &&& j->Object_0@[1].0@ == "text"@ && is_str(j->Object_0@[1].1, m.text@)
}

/// `j` is the JSON array of the messages `ms`, in order.
pub open spec fn is_messages_json(j: Json, ms: Seq<Message>) -> bool {
    &&& j is Array
    &&& j->Array_0@.len() == ms.len()
    &&& forall|i: int| 0 <= i < ms.len() ==> is_message_json(#[trigger] j->Array_0@[i], ms[i])
}

/// The message that `j` describes: an object whose first `role` and first
/// `text` members are strings. Other members are ignored.
pub open spec fn message_of(j: Json) -> Option<(Seq<char>, Seq<char>)> {
    match j {
        Json::Object(members) => match (field(members@, "role"@), field(members@, "text"@)) {
            (Some(Json::Str(role)), Some(Json::Str(text))) => Some((role@, text@)),
            _ => None,
        },
        _ => None,
    }
}

/// `j` is an array of messages, each of which `message_of` reads.
pub open spec fn messages_readable(j: Json) -> bool {
    j is Array && forall|i: int|
        0 <= i < j->Array_0@.len() ==> (#[trigger] message_of(j->Array_0@[i])) is Some
}

fn message_json(m: &Message) -> (r: Json)
    ensures
        is_message_json(r, *m),
{
    let mut members: Vec<(String, Json)> = Vec::new();
    members.push((owned("role"), Json::Str(m.role.clone())));
    members.push((owned("text"), Json::Str(m.text.clone())));
    Json::Object(members)
}

fn messages_json(ms: &Vec<Message>) -> (r: Json)
    ensures
        is_messages_json(r, ms@),
{
    let mut items: Vec<Json> = Vec::new();
    let mut i: usize = 0;
    while i < ms.len()
        invariant
            i <= ms@.len(),
            items@.len() == i,
            forall|k: int| 0 <= k < i ==> is_message_json(#[trigger] items@[k], ms@[k]),
        decreases ms@.len() - i,
    {
        items.push(message_json(&ms[i]));
        i = i + 1;
    }
    Json::Array(items)
}

fn read_message(j: &Json) -> (r: Option<Message>)
    ensures
        r is Some <==> message_of(*j) is Some,
        r is Some ==> (r->Some_0.role@, r->Some_0.text@) == message_of(*j)->Some_0,
{
    proof {
        reveal_strlit("role");
        reveal_strlit("text");
    }
    match j {
        Json::Object(members) => {
            let role = match get_field(members, "role") {
                Some(Json::Str(s)) => s.clone(),
                _ => return None,
            };
            let text = match get_field(members, "text") {
                Some(Json::Str(s)) => s.clone(),
                _ => return None,
            };
            Some(Message { role, text })
        },
        _ => None,
    }
}

/// `r` is the request body for `p`: `{"modelUri", "completionOptions",
/// "messages"}` in that order.
pub open spec fn is_payload_json(r: Json, p: Payload) -> bool {
    &&& r is Object
    &&& r->Object_0@.len() == 3
    &&& r->Object_0@[0].0@ == "modelUri"@
    &&& is_str(r->Object_0@[0].1, p.model_uri@)
    &&& r->Object_0@[1].0@ == "completionOptions"@
    &&& r->Object_0@[1].1 == Json::Object(p.completion_options)
    &&& r->Object_0@[2].0@ == "messages"@
    &&& is_messages_json(r->Object_0@[2].1, p.messages@)
}

/// A completion request: the model, the completion options (the members of
/// a JSON object, each key once) and the conversation so far.
#[derive(Debug)]
pub struct Payload {
    pub model_uri: String,
    pub completion_options: Vec<(String, Json)>,
    pub messages: Vec<Message>,
}

/// One answer the model proposes.
#[derive(Debug)]
pub struct Alternative {
    pub message: Message,
    pub status: String,
}

impl Alternative {
    /// The status of this alternative.
    pub fn status(&self) -> (r: &str)
        ensures
            r@ == self.status@,
    {
        self.status.as_str()
    }
}

/// What the completion endpoint answers.
#[derive(Debug)]
pub struct Response {
    pub alternatives: Vec<Alternative>,
    pub model_version: String,
    pub usage: Json,
}

/// Alternative `i` has the final status and none before it has.
pub open spec fn is_first_final(alts: Seq<Alternative>, i: int) -> bool {
    &&& 0 <= i < alts.len()
    &&& alts[i].status@ == FINAL_STATUS@
    &&& forall|j: int| 0 <= j < i ==> #[trigger] alts[j].status@ != FINAL_STATUS@
}

/// The index of the first alternative with the final status, if any.
pub open spec fn first_final(alts: Seq<Alternative>) -> Option<int> {
    if exists|i: int| #[trigger] is_first_final(alts, i) {
        Some(choose|i: int| #[trigger] is_first_final(alts, i))
    } else {
        None
    }
}

impl Response {
    /// The version of the model that answered.
    pub fn model_version(&self) -> (r: &str)
        ensures
            r@ == self.model_version@,
    {
        self.model_version.as_str()
    }

    /// The token usage the endpoint reported.
    pub fn usage(&self) -> (r: &Json)
        ensures
            *r == self.usage,
    {
        &self.usage
    }

    /// The text of the first alternative with the final status; fails with
    /// `DecodeError` when there is none.
    pub fn first_alternatives(self) -> (r: Result<String, Error>)
        ensures
            r is Ok <==> first_final(self.alternatives@) is Some,
            r is Ok ==> r->Ok_0@ == self.alternatives@[first_final(
                self.alternatives@,
            )->Some_0].message.text@,
            r is Err ==> r->Err_0 == Error::DecodeError,
    {
        let alts = &self.alternatives;
        let mut i: usize = 0;
        while i < alts.len()
            invariant
                alts == &self.alternatives,
                i <= alts@.len(),
                forall|j: int| 0 <= j < i ==> #[trigger] alts@[j].status@ != FINAL_STATUS@,
            decreases alts@.len() - i,
        {
            if str_eq(alts[i].status.as_str(), FINAL_STATUS) {
                proof {
                    let k = i as int;
                    assert(is_first_final(alts@, k));
                    let c = choose|c: int| #[trigger] is_first_final(alts@, c);
                    if c < k {
                        assert(alts@[c].status@ != FINAL_STATUS@);
                    } else if c > k {
                        assert(alts@[k].status@ != FINAL_STATUS@);
                    }
                }
                return Ok(alts[i].message.text.clone());
            }
            i = i + 1;
        }
        Err(Error::DecodeError)
    }
}

/// `p` holds the default completion options, streaming off, temperature 0,
/// at most 2000 tokens and reasoning disabled, and no messages.
pub open spec fn has_defaults(p: Payload) -> bool {
    &&& keys_unique(p.completion_options@)
    &&& p.completion_options@.len() == 4
    &&& p.completion_options@[0].0@ == "stream"@
    &&& p.completion_options@[0].1 == Json::Bool(false)
    &&& p.completion_options@[1].0@ == "temperature"@
    &&& is_number(p.completion_options@[1].1, "0"@)
    &&& p.completion_options@[2].0@ == "maxTokens"@
    &&& is_str(p.completion_options@[2].1, "2000"@)
    &&& p.completion_options@[3].0@ == "reasoningOptions"@
    &&& {
        let v = p.completion_options@[3].1;
        &&& v is Object
        &&& v->Object_0@.len() == 1
        &&& v->Object_0@[0].0@ == "mode"@
        &&& is_str(v->Object_0@[0].1, "DISABLED"@)
    }
    &&& p.messages@.len() == 0
}

impl Default for Payload {
    /// No model, the default options and no messages.
    fn default() -> (r: Payload)
        ensures
            r.model_uri@.len() == 0,
            has_defaults(r),
    {
        proof {
            reveal_strlit("stream");
            reveal_strlit("temperature");
            reveal_strlit("maxTokens");
            reveal_strlit("reasoningOptions");
        }
        let mut reasoning: Vec<(String, Json)> = Vec::new();
        reasoning.push((owned("mode"), Json::string("DISABLED")));
        let mut options: Vec<(String, Json)> = Vec::new();
        options.push((owned("stream"), Json::Bool(false)));
        options.push((owned("temperature"), Json::Number(owned("0"))));
        options.push((owned("maxTokens"), Json::string("2000")));
        options.push((owned("reasoningOptions"), Json::Object(reasoning)));
        assert(keys_unique(options@)) by {
            assert(options@[0].0@.len() == 6 && options@[1].0@.len() == 11);
            assert(options@[2].0@.len() == 9 && options@[3].0@.len() == 16);
        }
        Payload { model_uri: String::new(), completion_options: options, messages: Vec::new() }
    }
}

impl Payload {
    /// A request for the general model in folder `folder_id`, with the
    /// default options and no messages.
    pub fn new(folder_id: &str) -> (r: Payload)
        ensures
            r.model_uri@ == "gpt://"@ + folder_id@ + "/yandexgpt"@,
            has_defaults(r),
    {
        let model_uri = join3("gpt://", folder_id, "/yandexgpt");
        Payload { model_uri, ..Payload::default() }
    }

    /// The text of the first final alternative of `rs`, as
    /// [`Response::first_alternatives`] gives it.
    pub fn assistant_text_first(rs: Response) -> (r: Result<String, Error>)
        ensures
            r is Ok <==> first_final(rs.alternatives@) is Some,
            r is Ok ==> r->Ok_0@ == rs.alternatives@[first_final(
                rs.alternatives@,
            )->Some_0].message.text@,
            r is Err ==> r->Err_0 == Error::DecodeError,
    {
        rs.first_alternatives()
    }

    /// Sets one completion option, replacing any earlier value.
    pub fn option(self, key: &str, value: Json) -> (r: Payload)
        requires
            keys_unique(self.completion_options@),
        ensures
            keys_unique(r.completion_options@),
            entry_map(r.completion_options@) == entry_map(self.completion_options@).insert(
                key@,
                value,
            ),
            r.model_uri == self.model_uri,
            r.messages == self.messages,
    {
        let mut p = self;
        upsert(&mut p.completion_options, owned(key), value);
        p
    }

    /// Sets the largest number of tokens to generate.
    pub fn max_tokens(self, max_tokens: u32) -> (r: Payload)
        requires
            keys_unique(self.completion_options@),
        ensures
            keys_unique(r.completion_options@),
            exists|v: Json|
                is_number(v, decimal(max_tokens as nat)) && entry_map(r.completion_options@)
                    == entry_map(self.completion_options@).insert("maxTokens"@, v),
            r.model_uri == self.model_uri,
            r.messages == self.messages,
    {
        let v = Json::Number(decimal_text(max_tokens as u64));
        let ghost gv = v;
        let r = self.option("maxTokens", v);
        assert(is_number(gv, decimal(max_tokens as nat)));
        r
    }

    fn push_message(self, role: &str, text: &str) -> (r: Payload)
        ensures
            r.messages@.len() == self.messages@.len() + 1,
            r.messages@.drop_last() == self.messages@,
            r.messages@.last().role@ == role@,
            r.messages@.last().text@ == text@,
            r.model_uri == self.model_uri,
            r.completion_options == self.completion_options,
    {
        let mut p = self;
        p.messages.push(Message { role: owned(role), text: owned(text) });
        assert(p.messages@.drop_last() =~= self.messages@);
        p
    }

    /// Adds a turn of the assistant.
    pub fn assistant(self, text: &str) -> (r: Result<Payload, Error>)
        ensures
            r is Ok,
            r is Ok ==> {
                let p = r->Ok_0;
                &&& p.messages@.drop_last() == self.messages@
                &&& p.messages@.len() == self.messages@.len() + 1
                &&& p.messages@.last().role@ == "assistant"@
                &&& p.messages@.last().text@ == text@
                &&& p.model_uri == self.model_uri
                &&& p.completion_options == self.completion_options
            },
    {
        Ok(self.push_message("assistant", text))
    }

    /// Adds a turn of the user.
    pub fn user(self, text: &str) -> (r: Result<Payload, Error>)
        ensures
            r is Ok,
            r is Ok ==> {
                let p = r->Ok_0;
                &&& p.messages@.drop_last() == self.messages@
                &&& p.messages@.len() == self.messages@.len() + 1
                &&& p.messages@.last().role@ == "user"@
                &&& p.messages@.last().text@ == text@
                &&& p.model_uri == self.model_uri
                &&& p.completion_options == self.completion_options
            },
    {
        Ok(self.push_message("user", text))
    }

    /// Adds a system instruction.
    pub fn system(self, text: &str) -> (r: Result<Payload, Error>)
        ensures
            r is Ok,
            r is Ok ==> {
                let p = r->Ok_0;
                &&& p.messages@.drop_last() == self.messages@
                &&& p.messages@.len() == self.messages@.len() + 1
                &&& p.messages@.last().role@ == "system"@
                &&& p.messages@.last().text@ == text@
                &&& p.model_uri == self.model_uri
                &&& p.completion_options == self.completion_options
            },
    {
        Ok(self.push_message("system", text))
    }

    /// The conversation as a JSON array of `{"role", "text"}` objects.
    pub fn save_messages(&self) -> (r: Result<Json, Error>)
        ensures
            r is Ok,
            r is Ok ==> is_messages_json(r->Ok_0, self.messages@),
    {
        Ok(messages_json(&self.messages))
    }

    /// Appends the messages of a JSON array as [`Payload::save_messages`]
    /// writes them. Fails with `DecodeError`, leaving nothing appended, when
    /// `messages` is not an array or one of its items is not a message.
    pub fn load_messages(self, messages: Json) -> (r: Result<Payload, Error>)
        ensures
            r is Ok <==> messages_readable(messages),
            r is Err ==> r->Err_0 == Error::DecodeError,
            r is Ok ==> {
                let p = r->Ok_0;
                let items = messages->Array_0@;
                &&& p.messages@.len() == self.messages@.len() + items.len()
                &&& p.messages@.subrange(0, self.messages@.len() as int) == self.messages@
                &&& forall|i: int|
                    0 <= i < items.len() ==> (
                    #[trigger] p.messages@[self.messages@.len() + i].role@,
                    p.messages@[self.messages@.len() + i].text@,
                ) == message_of(items[i])->Some_0
                &&& p.model_uri == self.model_uri
                &&& p.completion_options == self.completion_options
            },
    {
        let items = match &messages {
            Json::Array(items) => items,
            _ => return Err(Error::DecodeError),
        };
        let mut read: Vec<Message> = Vec::new();
        let mut i: usize = 0;
        while i < items.len()
            invariant
                i <= items@.len(),
                read@.len() == i,
                *items == messages->Array_0,
                messages is Array,
                forall|k: int| 0 <= k < i ==> (#[trigger] message_of(items@[k])) is Some,
                forall|k: int|
                    0 <= k < i ==> (#[trigger] read@[k].role@, read@[k].text@) == message_of(
                        items@[k],
                    )->Some_0,
            decreases items@.len() - i,
        {
            match read_message(&items[i]) {
                Some(m) => read.push(m),
                None => {
                    assert(message_of(messages->Array_0@[i as int]) is None);
                    return Err(Error::DecodeError);
                },
            }
            i = i + 1;
        }
        let mut p = self;
        let ghost before = p.messages@;
        p.messages.append(&mut read);
        assert(p.messages@.subrange(0, before.len() as int) =~= before);
        Ok(p)
    }

    /// The request that sends this payload: `POST` to the completion path on
    /// `bot`, with `jwt` as a sensitive bearer `Authorization` header, data
    /// logging switched off, the session id in `X-Session-ID`, and the payload
    /// as the JSON body. Fails with `InvalidHeader` when the token or the
    /// session id holds characters a header value cannot.
    pub fn request(self, bot: Bot, jwt: &str, session_id: &str) -> (r: Result<Rq, Error>)
        ensures
            r is Ok <==> header_value_ok(bearer_of(jwt@)) && header_value_ok(session_id@),
            r is Err ==> r->Err_0 == Error::InvalidHeader,
            r is Ok ==> {
                let q = r->Ok_0;
                &&& q.wf()
                &&& q.bot == bot
                &&& q.uri@ == URI@
                &&& q.method == Method::Post
                &&& headers_view(q.headers@) == seq![
                    ("authorization"@, (bearer_of(jwt@), true)),
                    ("x-data-logging-enabled"@, ("false"@, false)),
                    ("x-session-id"@, (session_id@, false)),
                ]
                &&& q.params@.len() == 0
                &&& q.form@.len() == 0
                &&& exists|b: Json| is_payload_json(b, self) && json_map(q.json@) == object_map(b)->Some_0
            },
    {
        let ghost payload = self;
        let model = crate::ycloudml::Model::completion(self);
        proof {
            crate::api::lemma_method_name_round_trip(Method::Post);
            reveal_strlit("x-data-logging-enabled");
            reveal_strlit("X-Session-ID");
            reveal_strlit("x-session-id");
            reveal_strlit("authorization");
            reveal_strlit("false");
            crate::api::lemma_literal_header_name("x-data-logging-enabled");
            crate::api::lemma_literal_header_name("X-Session-ID");
            assert(Seq::new(22, |i: int| crate::api::lower_byte("x-data-logging-enabled"@[i] as u8) as char)
                =~= "x-data-logging-enabled"@);
            assert(Seq::new(12, |i: int| crate::api::lower_byte("X-Session-ID"@[i] as u8) as char)
                =~= "x-session-id"@);
            assert(header_value_ok("false"@));
        }
        let q = model.request(bot, jwt)?;
        let ghost h0 = headers_view(q.headers@);
        let q = q.add_header("x-data-logging-enabled".as_bytes(), "false")?;
        let ghost h1 = headers_view(q.headers@);
        proof {
            assert(!(exists|i: int| 0 <= i < h0.len() && #[trigger] h0[i].0 == "x-data-logging-enabled"@)) by {
                assert(h0[0].0.len() != 22);
            }
            assert(h1 =~= h0.push(("x-data-logging-enabled"@, ("false"@, false))));
        }
        let q = q.add_header("X-Session-ID".as_bytes(), session_id)?;
        proof {
            let h2 = headers_view(q.headers@);
            assert(!(exists|i: int| 0 <= i < h1.len() && #[trigger] h1[i].0 == "x-session-id"@)) by {
                assert(h1[0].0.len() != 12 && h1[1].0.len() != 12);
            }
            assert(h2 =~= h1.push(("x-session-id"@, (session_id@, false))));
        }
        Ok(q)
    }

    /// The request body: `{"modelUri", "completionOptions", "messages"}`.
    pub fn to_json(self) -> (r: Json)
        ensures
            is_payload_json(r, self),
    {
        let messages = messages_json(&self.messages);
        let mut members: Vec<(String, Json)> = Vec::new();
        members.push((owned("modelUri"), Json::Str(self.model_uri)));
        members.push((owned("completionOptions"), Json::Object(self.completion_options)));
        members.push((owned("messages"), messages));
        Json::Object(members)
    }
}

} // verus!
