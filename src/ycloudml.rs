//! The cloud AI vendor's endpoints: the token exchange, and the closed set of
//! request kinds, each with its payload and the path and verb it is sent with.
use vstd::prelude::*;

use crate::api::{header_value_ok, headers_view, json_map, method_named, object_map, Method, Rq, Rs};
use crate::image::{bearer, bearer_of};
use crate::json::{field, get_field, is_str, Json};
use crate::text::owned;
use crate::{completion, image, url_parsed, Bot, Error};

verus! {

/// The base URL of the model endpoints.
pub const URL: &'static str = "https://llm.api.cloud.yandex.net";

/// The base URL of the identity service.
pub const IAM_URL: &'static str = "https://iam.api.cloud.yandex.net";

/// The path of the token exchange.
pub const TOKENS_URI: &'static str = "/iam/v1/tokens";

/// The client of the vendor's endpoints.
#[derive(Debug, Clone, Copy, PartialEq, Eq, Structural)]
pub struct YCloudML;

/// The token that a token-exchange reply carries: its `iamToken` member,
/// when the reply has both its `iamToken` and its `expiresAt` members as
/// strings.
pub open spec fn iam_token_of(data: Json) -> Option<Seq<char>> {
    match data {
        Json::Object(members) => match (field(members@, "iamToken"@), field(members@, "expiresAt"@)) {
            (Some(Json::Str(t)), Some(Json::Str(_))) => Some(t@),
            _ => None,
        },
        _ => None,
    }
}

impl Default for YCloudML {
    fn default() -> (r: YCloudML)
        ensures
            r == YCloudML,
    {
        YCloudML::new()
    }
}

impl YCloudML {
    pub fn new() -> (r: YCloudML)
        ensures
            r == YCloudML,
    {
        YCloudML
    }

    /// The request that exchanges an OAuth token for an IAM token:
    /// `POST /iam/v1/tokens` on the identity service, with body
    /// `{"yandexPassportOauthToken": token}`.
    pub fn oauth_request(&self, token: &str) -> (r: Result<Rq, Error>)
        ensures
            r is Ok <==> url_parsed(IAM_URL@) is Some,
            r is Err ==> r->Err_0 == Error::InvalidUrl,
            r is Ok ==> {
                let q = r->Ok_0;
                &&& q.wf()
                &&& q.bot.url@ == url_parsed(IAM_URL@)->Some_0
                &&& q.uri@ == TOKENS_URI@
                &&& q.method == Method::Post
                &&& q.headers@.len() == 0
                &&& q.params@.len() == 0
                &&& q.form@.len() == 0
                &&& json_map(q.json@).dom() == set!["yandexPassportOauthToken"@]
                &&& is_str(json_map(q.json@)["yandexPassportOauthToken"@], token@)
            },
    {
        let q = Rq::from_static(IAM_URL)?.uri(TOKENS_URI);
        let q = Rq { method: Method::Post, ..q };
        let ghost before = q.json@;
        let q = q.add_payload("yandexPassportOauthToken", Json::string(token));
        assert(json_map(before) == Map::<Seq<char>, Json>::empty());
        assert(json_map(q.json@).dom() =~= set!["yandexPassportOauthToken"@]);
        Ok(q)
    }

    /// The IAM token of a token-exchange reply; fails with `DecodeError` when
    /// the reply lacks a string `iamToken` or a string `expiresAt`.
    pub fn iam_token(rs: &Rs) -> (r: Result<String, Error>)
        ensures
            r is Ok <==> iam_token_of(rs.data) is Some,
            r is Ok ==> r->Ok_0@ == iam_token_of(rs.data)->Some_0,
            r is Err ==> r->Err_0 == Error::DecodeError,
    {
        proof {
            reveal_strlit("iamToken");
            reveal_strlit("expiresAt");
        }
        match &rs.data {
            Json::Object(members) => match (get_field(members, "iamToken"), get_field(members, "expiresAt")) {
                (Some(Json::Str(t)), Some(Json::Str(_))) => Ok(t.clone()),
                _ => Err(Error::DecodeError),
            },
            _ => Err(Error::DecodeError),
        }
    }
}

/// A request kind: its payload, and the path and verb it goes with.
#[derive(Debug)]
pub enum Model {
    Completion { payload: completion::Payload, uri: String, method: String },
    Image { payload: image::Payload, uri: String, method: String },
}

impl Model {
    /// The path of this kind of request.
    pub open spec fn path(self) -> Seq<char> {
        match self {
            Model::Completion { uri, .. } => uri@,
            Model::Image { uri, .. } => uri@,
        }
    }

    /// The name of the verb this kind of request is sent with.
    pub open spec fn verb(self) -> Seq<char> {
        match self {
            Model::Completion { method, .. } => method@,
            Model::Image { method, .. } => method@,
        }
    }

    /// `b` is the JSON body of this request.
    pub open spec fn is_body(self, b: Json) -> bool {
        match self {
            Model::Completion { payload, .. } => completion::is_payload_json(b, payload),
            Model::Image { payload, .. } => image::is_payload_json(b, payload),
        }
    }

    /// The request that sends this payload: its verb, to its path on `bot`,
    /// with `jwt` as a sensitive bearer `Authorization` header and the payload
    /// as the JSON body. Fails with `UnsupportedMethod` when the verb is not
    /// supported, and otherwise with `InvalidHeader` when the token holds
    /// characters a header value cannot.
    pub fn request(self, bot: Bot, jwt: &str) -> (r: Result<Rq, Error>)
        ensures
            r is Ok <==> method_named(self.verb()) is Some && header_value_ok(bearer_of(jwt@)),
            method_named(self.verb()) is None ==> r == Err::<Rq, Error>(Error::UnsupportedMethod),
            method_named(self.verb()) is Some && !header_value_ok(bearer_of(jwt@)) ==> r == Err::<
                Rq,
                Error,
            >(Error::InvalidHeader),
            r is Ok ==> {
                let q = r->Ok_0;
                &&& q.wf()
                &&& q.bot == bot
                &&& q.uri@ == self.path()
                &&& q.method == method_named(self.verb())->Some_0
                &&& headers_view(q.headers@) == seq![("authorization"@, (bearer_of(jwt@), true))]
                &&& q.params@.len() == 0
                &&& q.form@.len() == 0
                &&& exists|b: Json| self.is_body(b) && json_map(q.json@) == object_map(b)->Some_0
            },
    {
        let ghost model = self;
        let uri = self.uri();
        let verb = self.method();
        let q = Rq::new(bot).uri(uri.as_str()).method(verb.as_str())?;
        let ghost q0 = q;
        proof {
            crate::api::lemma_authorization_name();
        }
        let auth = bearer(jwt);
        let q = q.add_secret_header("Authorization".as_bytes(), auth.as_str())?;
        proof {
            let e = Seq::<(Seq<char>, (Seq<char>, bool))>::empty();
            assert(headers_view(q0.headers@) =~= e);
            assert(crate::api::put(e, "authorization"@, (auth@, true)) =~= seq![
                ("authorization"@, (auth@, true)),
            ]);
        }
        let ghost before = q.json@;
        let body = self.into_json();
        let ghost gb = body;
        let q = match q.load_payload(body) {
            Ok(q) => q,
            Err(_) => {
                assert(false);
                return Err(Error::InvalidPayload);
            },
        };
        proof {
            assert(json_map(before) == Map::<Seq<char>, Json>::empty());
            assert(json_map(q.json@) =~= object_map(gb)->Some_0);
            assert(model.is_body(gb));
        }
        Ok(q)
    }

    /// A completion request, sent with `POST` to the completion path.
    pub fn completion(payload: completion::Payload) -> (r: Model)
        ensures
            r is Completion,
            r->Completion_payload == payload,
            r->Completion_uri@ == completion::URI@,
            r->Completion_method@ == "POST"@,
    {
        Model::Completion { payload, uri: owned(completion::URI), method: owned("POST") }
    }

    /// An image-generation request, sent with `POST` to the image path.
    pub fn image(payload: image::Payload) -> (r: Model)
        ensures
            r is Image,
            r->Image_payload == payload,
            r->Image_uri@ == image::URI@,
            r->Image_method@ == "POST"@,
    {
        Model::Image { payload, uri: owned(image::URI), method: owned("POST") }
    }

    /// The path of this kind of request.
    pub fn uri(&self) -> (r: String)
        ensures
            r@ == match self {
                Model::Completion { uri, .. } => uri@,
                Model::Image { uri, .. } => uri@,
            },
    {
        match self {
            Model::Completion { uri, .. } => uri.clone(),
            Model::Image { uri, .. } => uri.clone(),
        }
    }

    /// The name of the verb this kind of request is sent with.
    pub fn method(&self) -> (r: String)
        ensures
            r@ == match self {
                Model::Completion { method, .. } => method@,
                Model::Image { method, .. } => method@,
            },
    {
        match self {
            Model::Completion { method, .. } => method.clone(),
            Model::Image { method, .. } => method.clone(),
        }
    }

    /// The request body: the payload as JSON.
    pub fn into_json(self) -> (r: Json)
        ensures
            match self {
                Model::Completion { payload, .. } => completion::is_payload_json(r, payload),
                Model::Image { payload, .. } => image::is_payload_json(r, payload),
            },
    {
        match self {
            Model::Completion { payload, .. } => payload.to_json(),
            Model::Image { payload, .. } => payload.to_json(),
        }
    }
}

} // verus!
