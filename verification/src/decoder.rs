//! The resumable stream: one download, spliced from one or more responses.

use vstd::prelude::*;
use crate::chunk::{chunk_bytes, chunk_len};
use crate::position::Position;
use crate::range::{open_range, OpenRange, OpenRangeView};

verus! {

/// Where a download stands.
#[derive(Clone, Copy, Debug, PartialEq, Eq, Structural)]
pub enum Phase {
    /// A response body is being read.
    Streaming,
    /// A request for the missing bytes has been issued and not yet answered.
    Resuming,
    /// The body ended cleanly. Terminal.
    Done,
    /// An error was surfaced to the consumer. Terminal.
    Failed,
}

/// What the transport reports to the download.
#[derive(Debug)]
pub enum Event<E> {
    /// The response body yielded a chunk.
    Chunk(bytes::Bytes),
    /// The response body ended cleanly.
    End,
    /// Reading the response body failed.
    Error(E),
    /// The request for the missing bytes was answered with a response,
    /// whatever its status.
    Established,
    /// The request for the missing bytes failed before any response arrived.
    Refused(E),
    /// The operation that the download was waiting for was cancelled.
    Cancelled(E),
}

/// What the download asks of its driver in return.
#[derive(Debug)]
pub enum Action<E> {
    /// Hand the chunk to the consumer.
    Deliver(bytes::Bytes),
    /// Report the end of the stream to the consumer.
    Finish,
    /// Surface the error to the consumer.
    Fail(E),
    /// Issue the download's request again, for this range, and discard the
    /// response that failed.
    Resume(OpenRange),
    /// Nothing for the consumer yet: go on with what the download awaits.
    Continue,
}

/// What an [`Action`] is in specifications.
pub enum ActionView<E> {
    Deliver(bytes::Bytes),
    Finish,
    Fail(E),
    Resume(OpenRangeView),
    Continue,
}

impl<E> View for Action<E> {
    type V = ActionView<E>;

    open spec fn view(&self) -> ActionView<E> {
        match self {
            Action::Deliver(chunk) => ActionView::Deliver(*chunk),
            Action::Finish => ActionView::Finish,
            Action::Fail(error) => ActionView::Fail(*error),
            Action::Resume(range) => ActionView::Resume(range@),
            Action::Continue => ActionView::Continue,
        }
    }
}

/// The outcome that a download is waiting for.
#[derive(Clone, Copy, Debug, PartialEq, Eq, Structural)]
pub enum Awaited {
    /// The next item of the response body being read.
    Body,
    /// The answer to the request for the missing bytes.
    Response,
    /// Nothing: the download is over, and a pull ends the stream without
    /// any contact with the transport.
    Nothing,
}

/// One download as its consumer sees it: a single forward-only sequence of
/// chunks, whatever number of responses it takes to serve it.
#[derive(Debug)]
pub struct Decoder {
    method: reqwest::Method,
    url: reqwest::Url,
    accept_byte_ranges: bool,
    pos: Position,
    phase: Phase,
}

/// What a [`Decoder`] is in specifications.
pub struct DecoderView {
    /// Method of the request, the same for every resumption.
    pub method: reqwest::Method,
    /// URL of the request, the same for every resumption.
    pub url: reqwest::Url,
    /// The verdict reached on the first response.
    pub accept_byte_ranges: bool,
    /// Number of bytes delivered to the consumer so far.
    pub pos: nat,
    /// Where the download stands.
    pub phase: Phase,
}

/// The outcome that a download in `phase` is waiting for.
pub open spec fn awaited_in(phase: Phase) -> Awaited {
    match phase {
        Phase::Streaming => Awaited::Body,
        Phase::Resuming => Awaited::Response,
        _ => Awaited::Nothing,
    }
}

/// Whether no further outcome is awaited in `phase`.
pub open spec fn terminal(phase: Phase) -> bool {
    phase == Phase::Done || phase == Phase::Failed
}

/// The download after `event`, and what its driver is to do.
///
/// An event that the phase does not await is dropped.
pub open spec fn spec_step<E>(state: DecoderView, event: Event<E>) -> (DecoderView, ActionView<E>) {
    match state.phase {
        Phase::Streaming => match event {
            Event::Chunk(chunk) => (
                DecoderView { pos: state.pos + chunk_bytes(chunk).len(), ..state },
                ActionView::Deliver(chunk),
            ),
            Event::End => (DecoderView { phase: Phase::Done, ..state }, ActionView::Finish),
            Event::Error(error) => if state.accept_byte_ranges {
                (
                    DecoderView { phase: Phase::Resuming, ..state },
                    ActionView::Resume(open_range(state.pos)),
                )
            } else {
                (DecoderView { phase: Phase::Failed, ..state }, ActionView::Fail(error))
            },
            Event::Cancelled(error) => (
                DecoderView { phase: Phase::Failed, ..state },
                ActionView::Fail(error),
            ),
            _ => (state, ActionView::Continue),
        },
        Phase::Resuming => match event {
            Event::Established => (
                DecoderView { phase: Phase::Streaming, ..state },
                ActionView::Continue,
            ),
            Event::Refused(error) | Event::Cancelled(error) => (
                DecoderView { phase: Phase::Failed, ..state },
                ActionView::Fail(error),
            ),
            _ => (state, ActionView::Continue),
        },
        _ => (state, ActionView::Finish),
    }
}

/// Whether the position can take in what `event` delivers.
pub open spec fn admits<E>(state: DecoderView, event: Event<E>) -> bool {
    state.phase == Phase::Streaming ==> (event matches Event::Chunk(chunk) ==> state.pos
        + chunk_bytes(chunk).len() <= u64::MAX)
}

impl View for Decoder {
    type V = DecoderView;

    closed spec fn view(&self) -> DecoderView {
        DecoderView {
            method: self.method,
            url: self.url,
            accept_byte_ranges: self.accept_byte_ranges,
            pos: self.pos@,
            phase: self.phase,
        }
    }
}

impl Decoder {
    /// A download of `method` `url` of which `pos` bytes have been
    /// delivered, reading a response that serves the bytes from there on.
    pub(crate) fn streaming(
        method: reqwest::Method,
        url: reqwest::Url,
        accept_byte_ranges: bool,
        pos: Position,
    ) -> (decoder: Decoder)
        ensures
            decoder@ == (DecoderView {
                method,
                url,
                accept_byte_ranges,
                pos: pos@,
                phase: Phase::Streaming,
            }),
    {
        Decoder { method, url, accept_byte_ranges, pos, phase: Phase::Streaming }
    }

    /// Whether [`Decoder::step`] may be called with `event`: always, but for
    /// a chunk that would take the position past `u64::MAX`.
    pub fn admits<E>(&self, event: &Event<E>) -> (ok: bool)
        ensures
            ok == admits(self@, *event),
    {
        match (self.phase, event) {
            (Phase::Streaming, Event::Chunk(chunk)) => chunk_len(chunk) <= u64::MAX
                - self.pos.current(),
            _ => true,
        }
    }

    /// Takes in what the transport reported and says what to do about it.
    ///
    /// While streaming, a chunk is counted and delivered, a clean end
    /// finishes the download, and an error either fails it, where the server
    /// has not declared support for byte ranges, or has the request issued
    /// again for the bytes from the current position on. While resuming, a
    /// response takes the place of the one that failed, and a failure to
    /// obtain one fails the download with that failure. A cancellation fails
    /// the download in either phase. Once the download is done or has
    /// failed, nothing changes any more.
    pub fn step<E>(&mut self, event: Event<E>) -> (action: Action<E>)
        requires
            admits(old(self)@, event),
        ensures
            (final(self)@, action@) == spec_step(old(self)@, event),
    {
        match self.phase {
            Phase::Streaming => match event {
                Event::Chunk(chunk) => {
                    self.pos.advance(chunk_len(&chunk));
                    Action::Deliver(chunk)
                },
                Event::End => {
                    self.phase = Phase::Done;
                    Action::Finish
                },
                Event::Error(error) => {
                    if self.accept_byte_ranges {
                        self.phase = Phase::Resuming;
                        Action::Resume(OpenRange::starting_at(self.pos.current()))
                    } else {
                        self.phase = Phase::Failed;
                        Action::Fail(error)
                    }
                },
                Event::Cancelled(error) => {
                    self.phase = Phase::Failed;
                    Action::Fail(error)
                },
                _ => Action::Continue,
            },
            Phase::Resuming => match event {
                Event::Established => {
                    self.phase = Phase::Streaming;
                    Action::Continue
                },
                Event::Refused(error) | Event::Cancelled(error) => {
                    self.phase = Phase::Failed;
                    Action::Fail(error)
                },
                _ => Action::Continue,
            },
            _ => Action::Finish,
        }
    }

    /// The outcome that the download is waiting for. Once it is done or has
    /// failed there is none, and a pull ends the stream at once.
    pub fn awaits(&self) -> (awaited: Awaited)
        ensures
            awaited == awaited_in(self@.phase),
    {
        match self.phase {
            Phase::Streaming => Awaited::Body,
            Phase::Resuming => Awaited::Response,
            _ => Awaited::Nothing,
        }
    }

    /// Where the download stands.
    pub fn phase(&self) -> (phase: Phase)
        ensures
            phase == self@.phase,
    {
        self.phase
    }

    /// Whether the download is done or has failed.
    pub fn is_terminal(&self) -> (over: bool)
        ensures
            over == terminal(self@.phase),
    {
        match self.phase {
            Phase::Done | Phase::Failed => true,
            _ => false,
        }
    }

    /// Number of bytes delivered to the consumer so far.
    pub fn position(&self) -> (pos: u64)
        ensures
            pos == self@.pos,
    {
        self.pos.current()
    }

    /// Whether the server declared, in the first response, that it accepts
    /// ranges in bytes.
    pub fn accept_byte_ranges(&self) -> (verdict: bool)
        ensures
            verdict == self@.accept_byte_ranges,
    {
        self.accept_byte_ranges
    }

    /// Method of the request that every resumption repeats.
    pub fn method(&self) -> (method: &reqwest::Method)
        ensures
            *method == self@.method,
    {
        &self.method
    }

    /// URL of the request that every resumption repeats.
    pub fn url(&self) -> (url: &reqwest::Url)
        ensures
            *url == self@.url,
    {
        &self.url
    }
}

} // verus!
