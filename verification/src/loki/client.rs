//! The client side of the log-push sink: the HTTP request that carries an
//! encoded push, and what to report of the reply.

use vstd::prelude::*;

use crate::config;
use crate::text::text_of;
use crate::transport::{
    basic_auth, compress, compressed_body, credentials, failure_report, header, report_failure,
    Header, HttpRequest, HttpRequestView, Reply,
};

verus! {

/// The headers of every push.
pub open spec fn push_headers() -> Seq<(Seq<char>, Seq<char>)> {
    seq![
        ("Content-Type"@, "application/x-protobuf"@),
        ("Content-Encoding"@, "snappy"@),
        ("User-Agent"@, "bluez-monitor/0.1.0"@)
    ]
}

/// The request that posts `body` to the configured endpoint.
pub open spec fn push_post(config: config::Loki, body: Seq<u8>) -> HttpRequestView {
    HttpRequestView {
        url: config.url@,
        headers: push_headers(),
        basic_auth: credentials(config.username, config.password),
        body,
    }
}

/// What is reported of a reply to a push.
pub open spec fn push_report(reply: Reply) -> Option<Seq<char>> {
    failure_report("loki push request failed: "@, reply)
}

/// The log-push client: the endpoint and credentials it delivers to.
#[derive(Debug)]
pub struct DefaultClient {
    pub config: config::Loki,
}

impl Clone for DefaultClient {
    fn clone(&self) -> (copy: DefaultClient)
        ensures
            copy == *self,
    {
        DefaultClient { config: self.config.clone() }
    }
}

impl DefaultClient {
    pub fn new(config: config::Loki) -> (client: DefaultClient)
        ensures
            client.config == config,
    {
        DefaultClient { config }
    }

    /// The request that delivers an encoded push: a POST of its Snappy
    /// block to the configured endpoint, with the credentials if a user
    /// name is configured. `None` where the compression yields nothing to
    /// send.
    pub fn push(&self, encoded: &Vec<u8>) -> (request: Option<HttpRequest>)
        ensures
            request is Some <==> compressed_body(encoded@) is Some,
            request matches Some(post) ==> post@ == push_post(
                self.config,
                compressed_body(encoded@)->0,
            ),
    {
        match compress(encoded) {
            Some(body) => {
                let mut headers: Vec<Header> = Vec::new();
                headers.push(header("Content-Type", "application/x-protobuf"));
                headers.push(header("Content-Encoding", "snappy"));
                headers.push(header("User-Agent", "bluez-monitor/0.1.0"));
                let request = HttpRequest {
                    url: self.config.url.clone(),
                    headers,
                    basic_auth: basic_auth(&self.config.username, &self.config.password),
                    body,
                };
                assert(request@.headers =~= push_headers());
                Some(request)
            },
            None => None,
        }
    }

    /// What to report of the reply to a push: nothing of a success, and of
    /// any other reply that the push failed, with what came back.
    pub fn report(&self, reply: &Reply) -> (report: Option<String>)
        ensures
            text_of(report) == push_report(*reply),
    {
        report_failure("loki push request failed: ", reply)
    }
}

} // verus!
