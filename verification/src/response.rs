//! A download that has received its first response and delivered nothing yet.

use vstd::prelude::*;
use crate::capability::{accepts_byte_ranges, advertises_byte_ranges, line_views};
use crate::decoder::{Decoder, DecoderView, Phase};
use crate::position::Position;

verus! {

/// `reqwest::Method`, the method of a request: carried, never looked into.
#[verifier::external_type_specification]
#[verifier::external_body]
pub struct ExMethod(reqwest::Method);

/// `reqwest::Url`, the parsed URL of a request: carried, never looked into.
#[verifier::external_type_specification]
#[verifier::external_body]
pub struct ExUrl(reqwest::Url);

/// A response to a submitted request, before its body is read.
///
/// It keeps the method and URL of the request, so that the same request can
/// be issued again, and the verdict on whether the server accepts byte
/// ranges, reached once from this response's headers.
#[derive(Debug)]
pub struct Response {
    method: reqwest::Method,
    url: reqwest::Url,
    accept_byte_ranges: bool,
    pos: Position,
}

/// What a [`Response`] is in specifications.
pub struct ResponseView {
    /// Method of the request that the response answers.
    pub method: reqwest::Method,
    /// URL of the request that the response answers.
    pub url: reqwest::Url,
    /// The verdict reached on the response's headers.
    pub accept_byte_ranges: bool,
    /// Number of bytes delivered to the consumer so far.
    pub pos: nat,
}

impl View for Response {
    type V = ResponseView;

    closed spec fn view(&self) -> ResponseView {
        ResponseView {
            method: self.method,
            url: self.url,
            accept_byte_ranges: self.accept_byte_ranges,
            pos: self.pos@,
        }
    }
}

impl Response {
    /// The response to the request `method` `url` whose `Accept-Ranges`
    /// header field has the given lines (none where it carries no such
    /// field). Nothing of its body has been delivered.
    pub fn new(
        method: reqwest::Method,
        url: reqwest::Url,
        accept_ranges: &Vec<Vec<u8>>,
    ) -> (response: Response)
        ensures
            response@ == (ResponseView {
                method,
                url,
                accept_byte_ranges: advertises_byte_ranges(line_views(accept_ranges@)),
                pos: 0,
            }),
    {
        Response {
            method,
            url,
            accept_byte_ranges: accepts_byte_ranges(accept_ranges),
            pos: Position::new(),
        }
    }

    /// Whether the server declared, in this response, that it accepts
    /// ranges in bytes.
    pub fn accept_byte_ranges(&self) -> (verdict: bool)
        ensures
            verdict == self@.accept_byte_ranges,
    {
        self.accept_byte_ranges
    }

    /// Converts the response into the stream of its body: a download at its
    /// start, with this response as the one being read.
    pub fn bytes_stream(self) -> (decoder: Decoder)
        ensures
            decoder@ == (DecoderView {
                method: self@.method,
                url: self@.url,
                accept_byte_ranges: self@.accept_byte_ranges,
                pos: self@.pos,
                phase: Phase::Streaming,
            }),
    {
        Decoder::streaming(self.method, self.url, self.accept_byte_ranges, self.pos)
    }

    /// Number of bytes delivered so far: none.
    pub fn position(&self) -> (pos: u64)
        ensures
            pos == self@.pos,
    {
        self.pos.current()
    }

    /// Method of the request that this response answers.
    pub fn method(&self) -> (method: &reqwest::Method)
        ensures
            *method == self@.method,
    {
        &self.method
    }

    /// URL of the request that this response answers.
    pub fn url(&self) -> (url: &reqwest::Url)
        ensures
            *url == self@.url,
    {
        &self.url
    }
}

} // verus!
