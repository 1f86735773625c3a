//! Resumable streaming downloads.
//!
//! A download is one contiguous byte sequence for its consumer, served by one
//! or more HTTP responses. When a response body fails mid-stream and the
//! server has advertised byte ranges, the same request is issued again for the
//! bytes that are still missing and the new body is spliced on.
//!
//! This crate holds the decisions: which request resumes a download, when a
//! failure is surfaced, how many bytes have been delivered. Performing the
//! requests and awaiting their bodies is left to the caller, who reports each
//! outcome to [`Decoder::step`] and carries out the action it returns.
//!
//! A driver starts from the first response: [`Response::new`] takes the
//! request's method and URL and the lines of the response's `Accept-Ranges`
//! header field, and [`Response::bytes_stream`] turns it into a [`Decoder`].
//! From then on the driver asks [`Decoder::awaits`] what to wait for, reports
//! what came as an [`Event`], and does what the [`Action`] says: hand a chunk
//! to the consumer, end the stream, surface an error, or send the request
//! again with the `Range` header of an [`OpenRange`].
//!
//! The module [`download`] states what holds of every download, whatever the
//! transport reports: the position counts the bytes delivered, a finished
//! download stays finished, nothing is requested again without the server's
//! consent, and against a server that honours ranges no byte is lost or
//! delivered twice.

pub mod capability;
pub mod chunk;
pub mod decoder;
pub mod download;
pub mod position;
pub mod range;
pub mod response;

pub use capability::{accepts_byte_ranges, lists_bytes, RangeUnit};
pub use decoder::{Action, Awaited, Decoder, Event, Phase};
pub use position::Position;
pub use range::OpenRange;
pub use response::Response;
