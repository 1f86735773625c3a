//! Single steps of a download.

use bytes::Bytes;
use reqwest_resume::{Action, Awaited, Decoder, Event, Phase, Response};

fn start(advertised: &[&[u8]]) -> Decoder {
    let lines: Vec<Vec<u8>> = advertised.iter().map(|line| line.to_vec()).collect();
    let url: reqwest::Url = "http://example.com/resource".parse().unwrap();
    Response::new(reqwest::Method::GET, url, &lines).bytes_stream()
}

fn resuming(delivered: &'static [u8]) -> Decoder {
    let mut decoder = start(&[b"bytes"]);
    decoder.step::<&str>(Event::Chunk(Bytes::from_static(delivered)));
    decoder.step(Event::Error("reset"));
    assert_eq!(decoder.phase(), Phase::Resuming);
    decoder
}

#[test]
fn response_is_primed_with_position_zero() {
    let url: reqwest::Url = "http://example.com/a?b=c".parse().unwrap();
    let response = Response::new(reqwest::Method::GET, url.clone(), &vec![b"bytes".to_vec()]);
    assert_eq!(response.position(), 0);
    assert!(response.accept_byte_ranges());
    assert_eq!(response.method(), &reqwest::Method::GET);
    assert_eq!(response.url(), &url);
}

#[test]
fn response_without_the_header_is_not_resumable() {
    let url: reqwest::Url = "http://example.com/".parse().unwrap();
    let response = Response::new(reqwest::Method::GET, url, &vec![]);
    assert!(!response.accept_byte_ranges());
}

#[test]
fn stream_starts_streaming_with_the_response_s_request() {
    let url: reqwest::Url = "http://example.com/a?b=c".parse().unwrap();
    let response = Response::new(reqwest::Method::HEAD, url.clone(), &vec![b"bytes".to_vec()]);
    let decoder = response.bytes_stream();
    assert_eq!(decoder.phase(), Phase::Streaming);
    assert_eq!(decoder.awaits(), Awaited::Body);
    assert!(!decoder.is_terminal());
    assert_eq!(decoder.position(), 0);
    assert!(decoder.accept_byte_ranges());
    assert_eq!(decoder.method(), &reqwest::Method::HEAD);
    assert_eq!(decoder.url(), &url);
}

#[test]
fn chunk_is_delivered_as_it_came_and_counted() {
    let mut decoder = start(&[b"bytes"]);
    let chunk = Bytes::from_static(b"hello");
    match decoder.step::<&str>(Event::Chunk(chunk.clone())) {
        Action::Deliver(delivered) => assert_eq!(delivered, chunk),
        other => panic!("{:?}", other),
    }
    assert_eq!(decoder.position(), 5);
    assert_eq!(decoder.phase(), Phase::Streaming);
    match decoder.step::<&str>(Event::Chunk(Bytes::from_static(b", world"))) {
        Action::Deliver(delivered) => assert_eq!(&delivered[..], b", world"),
        other => panic!("{:?}", other),
    }
    assert_eq!(decoder.position(), 12);
}

#[test]
fn empty_chunk_is_delivered_and_leaves_the_position() {
    let mut decoder = start(&[b"bytes"]);
    match decoder.step::<&str>(Event::Chunk(Bytes::new())) {
        Action::Deliver(delivered) => assert!(delivered.is_empty()),
        other => panic!("{:?}", other),
    }
    assert_eq!(decoder.position(), 0);
    assert_eq!(decoder.phase(), Phase::Streaming);
}

#[test]
fn clean_end_finishes_the_download() {
    let mut decoder = start(&[b"bytes"]);
    assert!(matches!(decoder.step::<&str>(Event::End), Action::Finish));
    assert_eq!(decoder.phase(), Phase::Done);
    assert!(decoder.is_terminal());
    assert_eq!(decoder.awaits(), Awaited::Nothing);
}

#[test]
fn clean_end_is_never_resumed() {
    let mut decoder = start(&[b"bytes"]);
    decoder.step::<&str>(Event::Chunk(Bytes::from_static(b"part")));
    assert!(matches!(decoder.step::<&str>(Event::End), Action::Finish));
    assert_eq!(decoder.phase(), Phase::Done);
    assert_eq!(decoder.position(), 4);
}

#[test]
fn error_with_range_support_asks_for_the_rest() {
    let mut decoder = start(&[b"bytes"]);
    decoder.step::<&str>(Event::Chunk(Bytes::from_static(b"0123456789")));
    match decoder.step(Event::Error("reset")) {
        Action::Resume(range) => {
            assert_eq!(range.first(), 10);
            assert_eq!(range.header(), "bytes=10-");
        }
        other => panic!("{:?}", other),
    }
    assert_eq!(decoder.phase(), Phase::Resuming);
    assert_eq!(decoder.awaits(), Awaited::Response);
    assert_eq!(decoder.position(), 10);
    assert_eq!(decoder.method(), &reqwest::Method::GET);
    assert_eq!(decoder.url().as_str(), "http://example.com/resource");
}

#[test]
fn error_without_range_support_is_surfaced_unchanged() {
    let mut decoder = start(&[b"none"]);
    decoder.step::<&str>(Event::Chunk(Bytes::from_static(b"0123456789")));
    match decoder.step(Event::Error("reset")) {
        Action::Fail(err) => assert_eq!(err, "reset"),
        other => panic!("{:?}", other),
    }
    assert_eq!(decoder.phase(), Phase::Failed);
    assert!(decoder.is_terminal());
    assert_eq!(decoder.position(), 10);
}

#[test]
fn answered_resumption_goes_back_to_streaming() {
    let mut decoder = resuming(b"abc");
    assert!(matches!(decoder.step::<&str>(Event::Established), Action::Continue));
    assert_eq!(decoder.phase(), Phase::Streaming);
    assert_eq!(decoder.awaits(), Awaited::Body);
    assert_eq!(decoder.position(), 3);
    assert!(decoder.accept_byte_ranges());
}

#[test]
fn refused_resumption_fails_with_its_own_error() {
    let mut decoder = resuming(b"abc");
    match decoder.step(Event::Refused("refused")) {
        Action::Fail(err) => assert_eq!(err, "refused"),
        other => panic!("{:?}", other),
    }
    assert_eq!(decoder.phase(), Phase::Failed);
    assert_eq!(decoder.position(), 3);
}

#[test]
fn each_error_is_resumed_once() {
    let mut decoder = start(&[b"bytes"]);
    assert!(matches!(decoder.step(Event::Error("first")), Action::Resume(_)));
    assert!(matches!(decoder.step::<&str>(Event::Established), Action::Continue));
    decoder.step::<&str>(Event::Chunk(Bytes::from_static(b"ab")));
    match decoder.step(Event::Error("second")) {
        Action::Resume(range) => assert_eq!(range.header(), "bytes=2-"),
        other => panic!("{:?}", other),
    }
    assert!(matches!(decoder.step::<&str>(Event::Established), Action::Continue));
    match decoder.step(Event::Error("third")) {
        Action::Resume(range) => assert_eq!(range.header(), "bytes=2-"),
        other => panic!("{:?}", other),
    }
}

#[test]
fn cancellation_fails_the_download_while_streaming() {
    let mut decoder = start(&[b"bytes"]);
    decoder.step::<&str>(Event::Chunk(Bytes::from_static(b"abcd")));
    match decoder.step(Event::Cancelled("deadline")) {
        Action::Fail(err) => assert_eq!(err, "deadline"),
        other => panic!("{:?}", other),
    }
    assert_eq!(decoder.phase(), Phase::Failed);
    assert_eq!(decoder.position(), 4);
}

#[test]
fn cancellation_fails_the_download_while_resuming() {
    let mut decoder = resuming(b"abcd");
    match decoder.step(Event::Cancelled("deadline")) {
        Action::Fail(err) => assert_eq!(err, "deadline"),
        other => panic!("{:?}", other),
    }
    assert_eq!(decoder.phase(), Phase::Failed);
    assert_eq!(decoder.position(), 4);
}

#[test]
fn events_of_the_other_phase_are_dropped() {
    let mut decoder = start(&[b"bytes"]);
    assert!(matches!(decoder.step::<&str>(Event::Established), Action::Continue));
    assert!(matches!(decoder.step(Event::Refused("stray")), Action::Continue));
    assert_eq!(decoder.phase(), Phase::Streaming);
    assert_eq!(decoder.position(), 0);

    let mut decoder = resuming(b"abc");
    let stray = Event::<&str>::Chunk(Bytes::from_static(b"late"));
    assert!(matches!(decoder.step(stray), Action::Continue));
    assert!(matches!(decoder.step::<&str>(Event::End), Action::Continue));
    assert!(matches!(decoder.step(Event::Error("late")), Action::Continue));
    assert_eq!(decoder.phase(), Phase::Resuming);
    assert_eq!(decoder.position(), 3);
}

#[test]
fn done_download_stays_done() {
    let mut decoder = start(&[b"bytes"]);
    decoder.step::<&str>(Event::Chunk(Bytes::from_static(b"abc")));
    decoder.step::<&str>(Event::End);
    let late: Vec<Event<&str>> = vec![
        Event::Chunk(Bytes::from_static(b"more")),
        Event::End,
        Event::Error("late"),
        Event::Established,
        Event::Refused("late"),
        Event::Cancelled("late"),
    ];
    for event in late {
        assert!(decoder.admits(&event));
        assert!(matches!(decoder.step(event), Action::Finish));
        assert_eq!(decoder.phase(), Phase::Done);
        assert_eq!(decoder.position(), 3);
        assert_eq!(decoder.awaits(), Awaited::Nothing);
    }
}

#[test]
fn failed_download_stays_failed() {
    let mut decoder = start(&[]);
    decoder.step::<&str>(Event::Chunk(Bytes::from_static(b"abc")));
    decoder.step(Event::Error("reset"));
    let late: Vec<Event<&str>> = vec![
        Event::Chunk(Bytes::from_static(b"more")),
        Event::End,
        Event::Error("late"),
        Event::Established,
        Event::Refused("late"),
        Event::Cancelled("late"),
    ];
    for event in late {
        assert!(decoder.admits(&event));
        assert!(matches!(decoder.step(event), Action::Finish));
        assert_eq!(decoder.phase(), Phase::Failed);
        assert_eq!(decoder.position(), 3);
        assert_eq!(decoder.awaits(), Awaited::Nothing);
    }
}

#[test]
fn every_event_but_an_overflowing_chunk_is_admitted() {
    let decoder = start(&[b"bytes"]);
    assert!(decoder.admits(&Event::<&str>::Chunk(Bytes::from_static(b"abc"))));
    assert!(decoder.admits(&Event::<&str>::End));
    assert!(decoder.admits(&Event::Error("reset")));
    assert!(decoder.admits(&Event::<&str>::Established));
    assert!(decoder.admits(&Event::Refused("refused")));
    assert!(decoder.admits(&Event::Cancelled("deadline")));
}

#[test]
fn chunk_length_is_the_number_of_its_bytes() {
    assert_eq!(reqwest_resume::chunk::chunk_len(&Bytes::new()), 0);
    assert_eq!(reqwest_resume::chunk::chunk_len(&Bytes::from_static(b"hello")), 5);
    assert_eq!(reqwest_resume::chunk::chunk_len(&Bytes::from(vec![7u8; 4096])), 4096);
}
