//! Outbound requests as plain values: what to send and how to read the
//! answer.  Sending is the caller's business, and every request that is
//! sent holds a permit of the fetch gate while it is under way.

use vstd::prelude::*;

verus! {

/// A request or response body with nothing in it.
#[derive(Clone, Copy, Debug, PartialEq, Eq, Structural)]
pub struct Empty {}

impl Empty {
    /// The one value there is.
    pub fn new() -> (empty: Empty)
        ensures
            empty == (Empty {  }),
    {
        Empty {  }
    }
}

/// The method of a request.
#[derive(Clone, Copy, Debug, PartialEq, Eq, Structural)]
pub enum Method {
    Get,
    Post,
}

/// How the body of the answer is read.
#[derive(Clone, Copy, Debug, PartialEq, Eq, Structural)]
pub enum Decoding {
    /// As text; the answer says how it is encoded.
    Text,
    /// As JSON.
    Json,
    /// As text in Big5, whatever the answer says.
    Big5,
}

/// Names and values, in order.
pub type Pairs = Vec<(String, String)>;

/// What a request carries.
pub enum Body {
    Nothing,
    /// A JSON document, already written out.
    Json(String),
    /// Form fields.
    Form(Pairs),
}

/// One outbound request.
pub struct Request {
    pub method: Method,
    pub url: String,
    /// Header fields to add; `None` adds none.
    pub headers: Option<Pairs>,
    pub body: Body,
    pub decoding: Decoding,
}

/// The limits of the client that all requests share.
#[derive(Clone, Copy, Debug, PartialEq, Eq, Structural)]
pub struct ClientSettings {
    pub connect_timeout_seconds: u64,
    pub tcp_keepalive_seconds: u64,
    pub pool_max_idle_per_host: usize,
    pub use_proxy: bool,
    pub pool_idle_timeout_seconds: u64,
    pub timeout_seconds: u64,
}

/// The limits of the shared client: ten seconds to connect, a minute for
/// the whole request, at most ten idle connections per host, each kept for
/// ten seconds, and no proxy.
pub fn get_client() -> (settings: ClientSettings)
    ensures
        settings == (ClientSettings {
            connect_timeout_seconds: 10,
            tcp_keepalive_seconds: 30,
            pool_max_idle_per_host: 10,
            use_proxy: false,
            pool_idle_timeout_seconds: 10,
            timeout_seconds: 60,
        }),
{
    ClientSettings {
        connect_timeout_seconds: 10,
        tcp_keepalive_seconds: 30,
        pool_max_idle_per_host: 10,
        use_proxy: false,
        pool_idle_timeout_seconds: 10,
        timeout_seconds: 60,
    }
}

/// A request with the method, address, header fields and body.
pub fn request_send(
    method: Method,
    url: &str,
    headers: Option<Pairs>,
    body: Body,
    decoding: Decoding,
) -> (request: Request)
    ensures
        request.method == method,
        request.url@ == url@,
        request.headers == headers,
        request.body == body,
        request.decoding == decoding,
{
    Request { method, url: String::from_str(url), headers, body, decoding }
}

/// A GET whose answer is read as JSON.
pub fn request_get_use_json(url: &str) -> (request: Request)
    ensures
        request.method == Method::Get,
        request.url@ == url@,
        request.headers is None,
        request.body is Nothing,
        request.decoding == Decoding::Json,
{
    request_send(Method::Get, url, None, Body::Nothing, Decoding::Json)
}

/// A GET with the header fields, whose answer is read as text.
pub fn request_get(url: &str, headers: Option<Pairs>) -> (request: Request)
    ensures
        request.method == Method::Get,
        request.url@ == url@,
        request.headers == headers,
        request.body is Nothing,
        request.decoding == Decoding::Text,
{
    request_send(Method::Get, url, headers, Body::Nothing, Decoding::Text)
}

/// A GET whose answer is read as text in Big5.
pub fn request_get_use_big5(url: &str) -> (request: Request)
    ensures
        request.method == Method::Get,
        request.url@ == url@,
        request.headers is None,
        request.body is Nothing,
        request.decoding == Decoding::Big5,
{
    request_send(Method::Get, url, None, Body::Nothing, Decoding::Big5)
}

/// A POST that carries the JSON document, if one is given, and whose
/// answer is read as JSON.
pub fn request_post_use_json(url: &str, headers: Option<Pairs>, req: Option<String>) -> (request:
    Request)
    ensures
        request.method == Method::Post,
        request.url@ == url@,
        request.headers == headers,
        request.body == match req {
            Some(document) => Body::Json(document),
            None => Body::Nothing,
        },
        request.decoding == Decoding::Json,
{
    let body = match req {
        Some(document) => Body::Json(document),
        None => Body::Nothing,
    };
    request_send(Method::Post, url, headers, body, Decoding::Json)
}

/// A POST that carries the form fields, if any are given, and whose answer
/// is read as text.
pub fn request_post(url: &str, headers: Option<Pairs>, params: Option<Pairs>) -> (request: Request)
    ensures
        request.method == Method::Post,
        request.url@ == url@,
        request.headers == headers,
        request.body == match params {
            Some(fields) => Body::Form(fields),
            None => Body::Nothing,
        },
        request.decoding == Decoding::Text,
{
    let body = match params {
        Some(fields) => Body::Form(fields),
        None => Body::Nothing,
    };
    request_send(Method::Post, url, headers, body, Decoding::Text)
}

/// Why a body could not be read as Big5 text.
#[derive(Clone, Copy, Debug, PartialEq, Eq, Structural)]
pub enum Big5Error {
    /// The bytes are no Big5 text.
    Malformed,
    /// The body is too long for the text to be held on this machine.
    TooLong,
}

/// The text that the bytes stand for in Big5, as the encoding library
/// decodes them: `None` where they are malformed.
pub uninterp spec fn big5_text(bytes: Seq<u8>) -> Option<Seq<char>>;

/// The longest body that can be decoded: the text may take twice the room
/// of the bytes, and two bytes more.
pub open spec fn decodable_length(length: nat) -> bool {
    2 * length + 2 <= usize::MAX
}

/// What reading a body as Big5 gives.
pub open spec fn forced_big5(bytes: Seq<u8>) -> Result<Seq<char>, Big5Error> {
    if !decodable_length(bytes.len()) {
        Err(Big5Error::TooLong)
    } else {
        match big5_text(bytes) {
            Some(text) => Ok(text),
            None => Err(Big5Error::Malformed),
        }
    }
}

/// `encoding_rs::Encoding::decode_without_bom_handling_and_without_replacement`
/// on `encoding_rs::BIG5`: the bytes are decoded as Big5 without looking for
/// a byte order mark, and a malformed sequence gives `None`.  Trusted: the
/// result is a function of the bytes alone.  The length is bounded because
/// the call panics where the room for the text cannot be counted.
#[verifier::external_body]
fn big5_2_utf8(data: &Vec<u8>) -> (text: Option<String>)
    requires
        decodable_length(data@.len()),
    ensures
        match text {
            Some(t) => big5_text(data@) == Some(t@),
            None => big5_text(data@) is None,
        },
{
    let text = encoding_rs::BIG5.decode_without_bom_handling_and_without_replacement(data)?;
    Some(text.into_owned())
}

/// A body that can be read as Big5 text, whatever the answer says about
/// its encoding.
pub trait TextForceBig5: Sized {
    /// The bytes of the body.
    spec fn body(&self) -> Seq<u8>;

    /// Reads the body as Big5 text.
    fn text_force_big5(self) -> (text: Result<String, Big5Error>)
        ensures
            match text {
                Ok(t) => forced_big5(self.body()) == Ok::<Seq<char>, Big5Error>(t@),
                Err(error) => forced_big5(self.body()) == Err::<Seq<char>, Big5Error>(error),
            },
    ;
}

impl TextForceBig5 for Vec<u8> {
    open spec fn body(&self) -> Seq<u8> {
        self@
    }

    fn text_force_big5(self) -> (text: Result<String, Big5Error>) {
        let length: usize = self.len();
        if length > (usize::MAX - 2) / 2 {
            return Err(Big5Error::TooLong);
        }
        match big5_2_utf8(&self) {
            Some(text) => Ok(text),
            None => Err(Big5Error::Malformed),
        }
    }
}

} // verus!
