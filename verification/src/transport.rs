//! What the delivering sinks share: the request handed to the HTTP client,
//! the reply it hands back, and the compression of a request body.

use vstd::prelude::*;
use vstd::string::StringExecFns;

use crate::text::{copy_of_text, text_of};

verus! {

/// One header of a request.
#[derive(Debug, PartialEq, Eq)]
pub struct Header {
    pub name: String,
    pub value: String,
}

/// Credentials for HTTP basic authentication.
#[derive(Debug, PartialEq, Eq)]
pub struct BasicAuth {
    pub username: String,
    pub password: Option<String>,
}

/// A POST request for the HTTP client to send.
#[derive(Debug, PartialEq, Eq)]
pub struct HttpRequest {
    pub url: String,
    pub headers: Vec<Header>,
    pub basic_auth: Option<BasicAuth>,
    pub body: Vec<u8>,
}

/// What an `HttpRequest` holds. A header is a name and a value; the
/// credentials are a user name and, where there is one, a password.
pub struct HttpRequestView {
    pub url: Seq<char>,
    pub headers: Seq<(Seq<char>, Seq<char>)>,
    pub basic_auth: Option<(Seq<char>, Option<Seq<char>>)>,
    pub body: Seq<u8>,
}

impl View for Header {
    type V = (Seq<char>, Seq<char>);

    open spec fn view(&self) -> (Seq<char>, Seq<char>) {
        (self.name@, self.value@)
    }
}

impl View for BasicAuth {
    type V = (Seq<char>, Option<Seq<char>>);

    open spec fn view(&self) -> (Seq<char>, Option<Seq<char>>) {
        (self.username@, text_of(self.password))
    }
}

impl View for HttpRequest {
    type V = HttpRequestView;

    open spec fn view(&self) -> HttpRequestView {
        HttpRequestView {
            url: self.url@,
            headers: self.headers@.map_values(|header: Header| header@),
            basic_auth: match self.basic_auth {
                Some(auth) => Some(auth@),
                None => None,
            },
            body: self.body@,
        }
    }
}

/// The credentials that a configuration asks for: none without a user
/// name, else the user name with the password if there is one.
pub open spec fn credentials(username: Option<String>, password: Option<String>) -> Option<
    (Seq<char>, Option<Seq<char>>),
> {
    match username {
        Some(username) => Some((username@, text_of(password))),
        None => None,
    }
}

/// Builds the credentials that a configuration asks for.
pub fn basic_auth(username: &Option<String>, password: &Option<String>) -> (auth: Option<
    BasicAuth,
>)
    ensures
        match auth {
            Some(auth) => Some(auth@),
            None => None,
        } == credentials(*username, *password),
{
    match username {
        Some(username) => Some(
            BasicAuth { username: username.clone(), password: copy_of_text(password) },
        ),
        None => None,
    }
}

/// Builds one header.
pub fn header(name: &str, value: &str) -> (header: Header)
    ensures
        header@ == (name@, value@),
{
    Header { name: name.to_string(), value: value.to_string() }
}

/// What came back from sending a request.
#[derive(Debug, PartialEq, Eq)]
pub enum Reply {
    /// The server answered with this status code and body.
    Status { code: u16, body: String },
    /// No answer was had; the text says why.
    Failed(String),
}

/// Whether a status code reports success: the codes from 200 to 299.
pub open spec fn is_success(code: u16) -> bool {
    200 <= code < 300
}

/// The report of a reply that is not a success: `context`, then the body
/// quoted, or the reason as it is. A success has no report.
pub open spec fn failure_report(context: Seq<char>, reply: Reply) -> Option<Seq<char>> {
    match reply {
        Reply::Status { code, body } => if is_success(code) {
            None
        } else {
            Some(context + debug_text(body@))
        },
        Reply::Failed(reason) => Some(context + reason@),
    }
}

/// Decides what to report of a reply: nothing of a success, and of every
/// other reply the context followed by what came back.
pub fn report_failure(context: &str, reply: &Reply) -> (report: Option<String>)
    ensures
        text_of(report) == failure_report(context@, *reply),
{
    match reply {
        Reply::Status { code, body } => {
            if 200 <= *code && *code < 300 {
                None
            } else {
                let quoted = quote(body.as_str());
                Some(context.to_string().concat(quoted.as_str()))
            }
        },
        Reply::Failed(reason) => Some(context.to_string().concat(reason.as_str())),
    }
}

/// The text that `{:?}` writes for a string: the string between double
/// quotes, with the characters that need it escaped.
pub uninterp spec fn debug_text(text: Seq<char>) -> Seq<char>;

/// `format!("{:?}", text)` for a string: its quoted and escaped form.
#[verifier::external_body]
pub(crate) fn quote(text: &str) -> (quoted: String)
    ensures
        quoted@ == debug_text(text@),
{
    format!("{:?}", text)
}

/// The error of the compression.
#[verifier::external_type_specification]
#[verifier::external_body]
pub struct ExSnapError(snap::Error);

/// Whether an input of this length can be compressed into one block: the
/// largest block it could need must not exceed 2^32 - 1 bytes.
pub open spec fn fits_one_block(len: nat) -> bool {
    32 + len + len / 6 <= 0xffff_ffff
}

/// The Snappy block that `input` compresses to.
pub uninterp spec fn snappy_block(input: Seq<u8>) -> Seq<u8>;

/// `snap::raw::Encoder::compress_vec` on a fresh encoder: the input as one
/// Snappy block. It fails exactly on an input too long for one block.
#[verifier::external_body]
fn compress_block(input: &Vec<u8>) -> (result: Result<Vec<u8>, snap::Error>)
    ensures
        result is Ok <==> fits_one_block(input@.len()),
        result matches Ok(block) ==> block@ == snappy_block(input@),
{
    snap::raw::Encoder::new().compress_vec(input)
}

/// The body of a request that carries `encoded`: its Snappy block, where
/// the input fits one and the block is not empty.
pub open spec fn compressed_body(encoded: Seq<u8>) -> Option<Seq<u8>> {
    if fits_one_block(encoded.len()) && snappy_block(encoded).len() > 0 {
        Some(snappy_block(encoded))
    } else {
        None
    }
}

/// Compresses an encoded message into the body of a request. `None` says
/// that there is nothing to send: the compression failed.
pub fn compress(encoded: &Vec<u8>) -> (body: Option<Vec<u8>>)
    ensures
        body is Some <==> compressed_body(encoded@) is Some,
        body matches Some(block) ==> Some(block@) == compressed_body(encoded@),
{
    match compress_block(encoded) {
        Ok(block) => if block.len() == 0 {
            None
        } else {
            Some(block)
        },
        Err(_) => None,
    }
}

} // verus!
