use crate::json::{Json, JsonView};
use vstd::prelude::*;
use vstd::string::StringExecFns;

verus! {

/// Why a submission failed.
#[derive(Debug)]
pub enum Error {
    /// The transport could not complete the exchange, or the body of a
    /// rejection could not be decoded.
    Reqwest(reqwest::Error),
    /// The service rejected the request with this status and these messages.
    Body(u16, Vec<String>),
}

impl From<reqwest::Error> for Error {
    fn from(err: reqwest::Error) -> (error: Self) {
        Self::Reqwest(err)
    }
}

impl vstd::std_specs::convert::FromSpecImpl<reqwest::Error> for Error {
    open spec fn obeys_from_spec() -> bool {
        true
    }

    open spec fn from_spec(err: reqwest::Error) -> Self {
        Error::Reqwest(err)
    }
}

/// Where the service is and how to authenticate against it.
pub struct Config {
    host: String,
    api_key: String,
}

/// The contents of a `Config`.
pub struct ConfigView {
    pub host: Seq<char>,
    pub api_key: Seq<char>,
}

impl View for Config {
    type V = ConfigView;

    closed spec fn view(&self) -> ConfigView {
        ConfigView { host: self.host@, api_key: self.api_key@ }
    }
}

impl Config {
    /// `host` is the base URL, without a trailing path.
    pub fn new(host: String, api_key: String) -> (config: Self)
        ensures
            config@ == (ConfigView { host: host@, api_key: api_key@ }),
    {
        Self { host, api_key }
    }
}

/// The only method this client uses.
#[derive(Debug, Clone, Copy, PartialEq, Eq, Structural)]
pub enum Method {
    Post,
}

/// One header of a request.
#[derive(Debug)]
pub struct Header {
    pub name: String,
    pub value: String,
}

impl View for Header {
    type V = (Seq<char>, Seq<char>);

    open spec fn view(&self) -> (Seq<char>, Seq<char>) {
        (self.name@, self.value@)
    }
}

/// A request, ready to be handed to the transport.
#[derive(Debug)]
pub struct Request {
    pub method: Method,
    pub url: String,
    pub headers: Vec<Header>,
    pub body: Json,
}

/// The contents of a `Request`.
pub struct RequestView {
    pub method: Method,
    pub url: Seq<char>,
    pub headers: Seq<(Seq<char>, Seq<char>)>,
    pub body: JsonView,
}

impl View for Request {
    type V = RequestView;

    open spec fn view(&self) -> RequestView {
        RequestView {
            method: self.method,
            url: self.url@,
            headers: Seq::new(self.headers@.len(), |i: int| self.headers@[i]@),
            body: self.body@,
        }
    }
}

impl ConfigView {
    /// The request that submits `body` to `path`: the URL is the host
    /// followed by the path, with nothing put between or taken away, and the
    /// headers announce JSON and carry the API key.
    pub open spec fn request(self, path: Seq<char>, body: JsonView) -> RequestView {
        RequestView {
            method: Method::Post,
            url: self.host + path,
            headers: seq![
                ("Content-Type"@, "application/json"@),
                ("DD-API-KEY"@, self.api_key),
            ],
            body,
        }
    }
}

/// What to do once the status of a response is known.
#[derive(Debug, Clone, Copy, PartialEq, Eq, Structural)]
pub enum Step {
    /// The submission succeeded; the body is of no interest.
    Succeed,
    /// The submission was rejected; decode the body and call `on_errors`.
    ReadErrors,
}

/// Whether `status` is a client error (4xx) or a server error (5xx).
pub open spec fn is_rejection(status: u16) -> bool {
    400 <= status < 600
}

/// The step that follows a response with `status`.
pub open spec fn step_after(status: u16) -> Step {
    if is_rejection(status) {
        Step::ReadErrors
    } else {
        Step::Succeed
    }
}

/// The outcome of a rejected submission: the messages of the service where
/// its body could be decoded, the decoder's failure where it could not.
pub open spec fn rejection(
    status: u16,
    decoded: Result<Vec<String>, reqwest::Error>,
) -> Result<(), Error> {
    match decoded {
        Ok(messages) => Err(Error::Body(status, messages)),
        Err(failure) => Err(Error::Reqwest(failure)),
    }
}

/// `reqwest::StatusCode::is_client_error`, asked of the status code with the
/// number `status`: true exactly for 400 to 499. A number that is no status
/// code (below 100 or above 999) is no client error.
#[verifier::external_body]
fn is_client_error(status: u16) -> (yes: bool)
    ensures
        yes == (400 <= status < 500),
{
    match reqwest::StatusCode::from_u16(status) {
        Ok(code) => code.is_client_error(),
        Err(_) => false,
    }
}

/// `reqwest::StatusCode::is_server_error`, asked of the status code with the
/// number `status`: true exactly for 500 to 599. A number that is no status
/// code (below 100 or above 999) is no server error.
#[verifier::external_body]
fn is_server_error(status: u16) -> (yes: bool)
    ensures
        yes == (500 <= status < 600),
{
    match reqwest::StatusCode::from_u16(status) {
        Ok(code) => code.is_server_error(),
        Err(_) => false,
    }
}

/// Decides from the status of a response whether the submission succeeded.
///
/// Only client and server errors are rejections: every other status,
/// informational and redirection included, is a success.
pub fn on_status(status: u16) -> (step: Step)
    ensures
        step == step_after(status),
{
    if is_client_error(status) || is_server_error(status) {
        Step::ReadErrors
    } else {
        Step::Succeed
    }
}

/// Concludes a rejected submission from what decoding its body gave.
pub fn on_errors(status: u16, decoded: Result<Vec<String>, reqwest::Error>) -> (outcome: Result<
    (),
    Error,
>)
    ensures
        outcome == rejection(status, decoded),
{
    match decoded {
        Ok(messages) => Err(Error::Body(status, messages)),
        Err(failure) => Err(Error::from(failure)),
    }
}

/// Owns the configuration and builds the requests that submit payloads.
pub struct Client {
    config: Config,
}

impl View for Client {
    type V = ConfigView;

    closed spec fn view(&self) -> ConfigView {
        self.config@
    }
}

impl Client {
    pub fn new(config: Config) -> (client: Self)
        ensures
            client@ == config@,
    {
        Self { config }
    }

    /// The request that submits `payload` to `path`.
    pub fn post(&self, path: &str, payload: Json) -> (request: Request)
        ensures
            request@ == self@.request(path@, payload@),
    {
        let url = self.config.host.clone().concat(path);
        let mut headers: Vec<Header> = Vec::new();
        headers.push(
            Header {
                name: String::from_str("Content-Type"),
                value: String::from_str("application/json"),
            },
        );
        headers.push(
            Header { name: String::from_str("DD-API-KEY"), value: self.config.api_key.clone() },
        );
        let request = Request { method: Method::Post, url, headers, body: payload };
        assert(request@.headers =~= self@.request(path@, payload@).headers);
        request
    }
}

} // verus!
