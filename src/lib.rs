//! A small HTTP request builder with a verified core.
//!
//! The library assembles a request from composable configuration steps
//! ([`api::Rq`]), turns a finished request into a transport-neutral
//! descriptor, normalizes what came back into a uniform envelope
//! ([`api::Rs`]), and drives the polling protocol of long-running server-side
//! operations ([`image::Poller`]). Sending bytes over the network is left to
//! the caller.
use vstd::prelude::*;

pub mod api;
pub mod completion;
pub mod image;
pub mod json;
pub mod speechkit;
pub mod text;
pub mod ycloudml;

verus! {

/// Everything that can go wrong while configuring, dispatching or polling.
#[derive(Debug, Clone, Copy, PartialEq, Eq, Structural)]
pub enum Error {
    /// A URL could not be parsed, or a path could not be resolved against the base.
    InvalidUrl,
    /// A method name outside GET, POST, PUT and DELETE.
    UnsupportedMethod,
    /// A header value (or, for secret headers, a name) with illegal characters.
    InvalidHeader,
    /// A JSON payload that is not an object.
    InvalidPayload,
    /// The transport failed to connect, send or receive.
    NetworkError,
    /// A long-running operation did not finish within its budget of status checks.
    OperationTimeout { attempts: u32 },
    /// A body could not be decoded into the shape the caller expected.
    DecodeError,
}

/// `url::ParseError`, carried opaquely out of the URL wrappers.
#[verifier::external_type_specification]
#[verifier::external_body]
pub struct ExUrlParseError(url::ParseError);

/// The serialization that `url::Url::parse` yields for `s`, or `None` when it fails.
pub uninterp spec fn url_parsed(s: Seq<char>) -> Option<Seq<char>>;

/// The serialization of `url::Url::parse(base)` joined with `path`, or `None`
/// when either step fails.
pub uninterp spec fn url_joined(base: Seq<char>, path: Seq<char>) -> Option<Seq<char>>;

/// Relies on `url::Url::parse` and the `From<Url> for String` impl, which hands
/// out the URL's serialization.
#[verifier::external_body]
fn parse_url(s: &str) -> (r: Result<String, url::ParseError>)
    ensures
        r is Ok <==> url_parsed(s@) is Some,
        r is Ok ==> r->Ok_0@ == url_parsed(s@)->Some_0,
{
    url::Url::parse(s).map(String::from)
}

/// Relies on `url::Url::join`: `path` is resolved against `base`, which is
/// first read back into a `url::Url`.
#[verifier::external_body]
pub(crate) fn join_url(base: &str, path: &str) -> (r: Result<String, url::ParseError>)
    ensures
        r is Ok <==> url_joined(base@, path@) is Some,
        r is Ok ==> r->Ok_0@ == url_joined(base@, path@)->Some_0,
{
    url::Url::parse(base)?.join(path).map(String::from)
}

/// The endpoint identity: an absolute base URL in its normalized serialization,
/// shared by every request built against it.
#[derive(Debug, Clone)]
pub struct Bot {
    pub url: String,
    pub debug: bool,
}

impl Bot {
    /// Parses `url` as an absolute URL; fails with `InvalidUrl` when it is not one.
    pub fn new(url: &str) -> (r: Result<Bot, Error>)
        ensures
            r is Ok <==> url_parsed(url@) is Some,
            r is Ok ==> r->Ok_0.url@ == url_parsed(url@)->Some_0 && !r->Ok_0.debug,
            r is Err ==> r->Err_0 == Error::InvalidUrl,
    {
        match parse_url(url) {
            Ok(u) => Ok(Bot { url: u, debug: false }),
            Err(_) => Err(Error::InvalidUrl),
        }
    }

    /// Builds the endpoint identity from explicit settings: `url` falls back to
    /// `http://localhost:3000`, and `debug` is on only when it reads `true`
    /// (a value that is not `true` or `false` counts as off).
    pub fn from_settings(url: Option<&str>, debug: Option<&str>) -> (r: Result<Bot, Error>)
        ensures
            ({
                let u = match url {
                    Some(s) => s@,
                    None => DEFAULT_URL@,
                };
                &&& r is Ok <==> url_parsed(u) is Some
                &&& r is Ok ==> r->Ok_0.url@ == url_parsed(u)->Some_0
                &&& r is Ok ==> r->Ok_0.debug == (debug is Some && text::parsed_bool(
                    debug->Some_0@,
                ) == Some(true))
                &&& r is Err ==> r->Err_0 == Error::InvalidUrl
            }),
    {
        let base = match url {
            Some(s) => s,
            None => DEFAULT_URL,
        };
        let mut bot = Bot::new(base)?;
        bot.debug = match debug {
            Some(d) => match text::parse_bool(d) {
                Some(b) => b,
                None => false,
            },
            None => false,
        };
        Ok(bot)
    }
}

/// The base URL used when none is configured.
pub const DEFAULT_URL: &'static str = "http://localhost:3000";

} // verus!
