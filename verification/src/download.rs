//! Whole downloads: what holds after any sequence of events.

use vstd::prelude::*;
use crate::chunk::chunk_bytes;
use crate::decoder::{
    awaited_in,
    spec_step,
    terminal,
    ActionView,
    Awaited,
    DecoderView,
    Event,
    Phase,
};
use crate::range::{lemma_offset_asked, offset_asked, open_range, OpenRangeView};

verus! {

/// The download after the transport has reported `events`, in order.
pub open spec fn run<E>(state: DecoderView, events: Seq<Event<E>>) -> DecoderView
    decreases events.len(),
{
    if events.len() == 0 {
        state
    } else {
        spec_step(run(state, events.drop_last()), events.last()).0
    }
}

/// What the download asks of its driver on the last of `events`.
pub open spec fn last_action<E>(state: DecoderView, events: Seq<Event<E>>) -> ActionView<E>
    recommends
        events.len() > 0,
{
    spec_step(run(state, events.drop_last()), events.last()).1
}

/// The bytes handed to the consumer over `events`, in order.
pub open spec fn delivered<E>(state: DecoderView, events: Seq<Event<E>>) -> Seq<u8>
    decreases events.len(),
{
    if events.len() == 0 {
        Seq::empty()
    } else {
        let before = delivered(state, events.drop_last());
        match last_action(state, events) {
            ActionView::Deliver(chunk) => before + chunk_bytes(chunk),
            _ => before,
        }
    }
}

/// The ranges asked of the transport over `events`, in order: one for each
/// request issued after the first.
pub open spec fn requests<E>(state: DecoderView, events: Seq<Event<E>>) -> Seq<OpenRangeView>
    decreases events.len(),
{
    if events.len() == 0 {
        Seq::empty()
    } else {
        let before = requests(state, events.drop_last());
        match last_action(state, events) {
            ActionView::Resume(range) => before.push(range),
            _ => before,
        }
    }
}

/// Where in the resource the response being read stands after `events`,
/// when the first response serves it from the download's position on and
/// every later one from the offset that its `Range` header names.
pub open spec fn cursor<E>(state: DecoderView, events: Seq<Event<E>>) -> nat
    decreases events.len(),
{
    if events.len() == 0 {
        state.pos
    } else {
        let before = cursor(state, events.drop_last());
        match last_action(state, events) {
            ActionView::Deliver(chunk) => before + chunk_bytes(chunk).len(),
            ActionView::Resume(range) => offset_asked(range.header),
            _ => before,
        }
    }
}

/// Whether `events` can come from a server that holds `resource` and honours
/// ranges: every chunk read is the part of `resource` where the response
/// stands, and a body ends only at the end of `resource`. Errors may come at
/// any point, and a request may or may not be answered.
pub open spec fn served<E>(state: DecoderView, resource: Seq<u8>, events: Seq<Event<E>>) -> bool
    decreases events.len(),
{
    events.len() > 0 ==> {
        let earlier = events.drop_last();
        let at = cursor(state, earlier);
        &&& served(state, resource, earlier)
        &&& run(state, earlier).phase == Phase::Streaming ==> match events.last() {
            Event::Chunk(chunk) => {
                &&& at + chunk_bytes(chunk).len() <= resource.len()
                &&& chunk_bytes(chunk) == resource.subrange(
                    at as int,
                    (at + chunk_bytes(chunk).len()) as int,
                )
            },
            Event::End => at == resource.len(),
            _ => true,
        }
    }
}

/// Whether the download `state` is at its start, as
/// [`crate::Response::bytes_stream`] returns it.
pub open spec fn at_start(state: DecoderView) -> bool {
    state.phase == Phase::Streaming && state.pos == 0
}

/// Events reported one after the other have the effect of the whole
/// sequence.
pub proof fn lemma_run_continues<E>(
    state: DecoderView,
    events: Seq<Event<E>>,
    more: Seq<Event<E>>,
)
    ensures
        run(state, events + more) == run(run(state, events), more),
    decreases more.len(),
{
    if more.len() == 0 {
        assert(events + more == events);
    } else {
        assert((events + more).drop_last() == events + more.drop_last());
        lemma_run_continues(state, events, more.drop_last());
    }
}

/// The position counts exactly the bytes delivered, and a request for a
/// range asks for the first byte that has not been delivered.
pub proof fn lemma_position_counts_delivered<E>(state: DecoderView, events: Seq<Event<E>>)
    ensures
        run(state, events).pos == state.pos + delivered(state, events).len(),
        events.len() > 0 ==> (last_action(state, events) matches ActionView::Resume(range)
            ==> range == open_range(state.pos + delivered(state, events).len())),
    decreases events.len(),
{
    if events.len() > 0 {
        lemma_position_counts_delivered(state, events.drop_last());
    }
}

/// The position never decreases: after more events it is at least what it
/// was.
pub proof fn lemma_position_is_monotonic<E>(
    state: DecoderView,
    events: Seq<Event<E>>,
    more: Seq<Event<E>>,
)
    ensures
        run(state, events).pos <= run(state, events + more).pos,
{
    lemma_run_continues(state, events, more);
    lemma_position_counts_delivered(run(state, events), more);
}

/// The request is never changed: every resumption repeats the method and
/// URL that the download began with, and the verdict on ranges stays what
/// it was.
pub proof fn lemma_endpoint_is_fixed<E>(state: DecoderView, events: Seq<Event<E>>)
    ensures
        run(state, events).method == state.method,
        run(state, events).url == state.url,
        run(state, events).accept_byte_ranges == state.accept_byte_ranges,
    decreases events.len(),
{
    if events.len() > 0 {
        lemma_endpoint_is_fixed(state, events.drop_last());
    }
}

/// Without declared support for byte ranges no request is ever issued
/// again, and an error while streaming is surfaced as it came.
pub proof fn lemma_no_resumption_without_capability<E>(state: DecoderView, events: Seq<Event<E>>)
    requires
        !state.accept_byte_ranges,
    ensures
        requests(state, events) == Seq::<OpenRangeView>::empty(),
        events.len() > 0 && run(state, events.drop_last()).phase == Phase::Streaming ==> (
        events.last() matches Event::Error(error) ==> last_action(state, events)
            == ActionView::Fail(error) && run(state, events).phase == Phase::Failed),
    decreases events.len(),
{
    if events.len() > 0 {
        lemma_no_resumption_without_capability(state, events.drop_last());
        lemma_endpoint_is_fixed(state, events.drop_last());
    }
}

/// Once a download is done or has failed, nothing moves any more: whatever
/// is reported, the state stays, nothing is awaited of the transport,
/// nothing is delivered, no request is issued, and every pull ends the
/// stream.
pub proof fn lemma_terminal_is_final<E>(state: DecoderView, events: Seq<Event<E>>)
    requires
        terminal(state.phase),
    ensures
        run(state, events) == state,
        awaited_in(run(state, events).phase) == Awaited::Nothing,
        delivered(state, events) == Seq::<u8>::empty(),
        requests(state, events) == Seq::<OpenRangeView>::empty(),
        events.len() > 0 ==> last_action(state, events) == ActionView::<E>::Finish,
    decreases events.len(),
{
    if events.len() > 0 {
        lemma_terminal_is_final(state, events.drop_last());
    }
}

/// With declared support for byte ranges, a download fails only where a
/// request for the missing bytes is refused or the download is cancelled.
pub proof fn lemma_errors_are_resumed<E>(state: DecoderView, events: Seq<Event<E>>)
    requires
        state.accept_byte_ranges,
        state.phase != Phase::Failed,
        forall|i: int|
            0 <= i < events.len() ==> !(#[trigger] events[i] is Refused) && !(events[i]
                is Cancelled),
    ensures
        run(state, events).phase != Phase::Failed,
    decreases events.len(),
{
    if events.len() > 0 {
        lemma_errors_are_resumed(state, events.drop_last());
        lemma_endpoint_is_fixed(state, events.drop_last());
    }
}

/// Against a server that honours ranges, what has been delivered is always
/// the resource up to the position, the response being read stands at the
/// position, and a download that is done has delivered the whole resource.
proof fn lemma_delivered_is_a_prefix<E>(
    state: DecoderView,
    resource: Seq<u8>,
    events: Seq<Event<E>>,
)
    requires
        at_start(state),
        served(state, resource, events),
    ensures
        cursor(state, events) == run(state, events).pos,
        run(state, events).pos <= resource.len(),
        delivered(state, events) == resource.subrange(0, run(state, events).pos as int),
        run(state, events).phase == Phase::Done ==> run(state, events).pos == resource.len(),
    decreases events.len(),
{
    if events.len() == 0 {
        assert(resource.subrange(0, 0) == Seq::<u8>::empty());
    } else {
        let earlier = events.drop_last();
        lemma_delivered_is_a_prefix(state, resource, earlier);
        let before = run(state, earlier);
        match last_action(state, events) {
            ActionView::Deliver(chunk) => {
                let n = chunk_bytes(chunk).len();
                assert(resource.subrange(0, before.pos as int) + resource.subrange(
                    before.pos as int,
                    (before.pos + n) as int,
                ) == resource.subrange(0, (before.pos + n) as int));
            },
            ActionView::Resume(range) => {
                lemma_offset_asked(before.pos);
            },
            _ => {},
        }
    }
}

/// No gap and no duplicate: whatever errors interrupt a download, and
/// wherever, against a server that honours ranges the consumer has at every
/// moment received the resource from its first byte up to the position, each
/// byte once; and when the download is done, the whole resource.
pub proof fn lemma_download_is_gapless<E>(
    state: DecoderView,
    resource: Seq<u8>,
    events: Seq<Event<E>>,
)
    requires
        at_start(state),
        served(state, resource, events),
    ensures
        delivered(state, events) == resource.subrange(0, run(state, events).pos as int),
        run(state, events).phase == Phase::Done ==> delivered(state, events) == resource,
{
    lemma_delivered_is_a_prefix(state, resource, events);
    assert(resource.subrange(0, resource.len() as int) == resource);
}

} // verus!
