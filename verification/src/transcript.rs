//! What an accumulator holds after a run of deliveries: the facts that hold of
//! every transfer, whatever the transport delivers and in whatever order.

use vstd::prelude::*;

use vstd::utf8::{decode_utf8, valid_utf8};

use crate::header::{first_colon, header_in, HeaderView, COLON};
use crate::response::ResponseView;
use crate::status::as_signed;

verus! {

/// One call of a transfer's callbacks: a chunk of header bytes or a chunk of
/// body bytes.
pub enum Delivery {
    Header(Seq<u8>),
    Body(Seq<u8>),
}

impl ResponseView {
    /// The accumulator after one delivery.
    pub open spec fn deliver(self, delivery: Delivery) -> ResponseView {
        match delivery {
            Delivery::Header(chunk) => self.receive_header(chunk),
            Delivery::Body(chunk) => self.receive_body(chunk),
        }
    }

    /// The accumulator after a run of deliveries, taken in the order of arrival.
    pub open spec fn replay(self, log: Seq<Delivery>) -> ResponseView
        decreases log.len(),
    {
        if log.len() == 0 {
            self
        } else {
            self.replay(log.drop_last()).deliver(log.last())
        }
    }
}

/// The body bytes of a run of deliveries, joined in the order of arrival.
pub open spec fn body_of(log: Seq<Delivery>) -> Seq<u8>
    decreases log.len(),
{
    if log.len() == 0 {
        Seq::empty()
    } else {
        match log.last() {
            Delivery::Body(chunk) => body_of(log.drop_last()) + chunk,
            Delivery::Header(_) => body_of(log.drop_last()),
        }
    }
}

/// The headers that the header chunks of a run of deliveries hold, in the
/// order of arrival; a chunk that holds none adds nothing.
pub open spec fn headers_of(log: Seq<Delivery>) -> Seq<HeaderView>
    decreases log.len(),
{
    if log.len() == 0 {
        Seq::empty()
    } else {
        match log.last() {
            Delivery::Header(chunk) => match header_in(chunk) {
                Some(header) => headers_of(log.drop_last()).push(header),
                None => headers_of(log.drop_last()),
            },
            Delivery::Body(_) => headers_of(log.drop_last()),
        }
    }
}

/// Replaying two runs one after the other is replaying their concatenation.
pub proof fn replay_concat(start: ResponseView, first: Seq<Delivery>, second: Seq<Delivery>)
    ensures
        start.replay(first + second) == start.replay(first).replay(second),
    decreases second.len(),
{
    if second.len() == 0 {
        assert(first + second =~= first);
    } else {
        replay_concat(start, first, second.drop_last());
        assert((first + second).drop_last() =~= first + second.drop_last());
        assert((first + second).last() == second.last());
    }
}

/// The body is the exact concatenation, in the order of arrival, of every chunk
/// of body bytes delivered: nothing is lost, doubled, or moved. Header chunks
/// never touch it.
pub proof fn body_is_concatenation(start: ResponseView, log: Seq<Delivery>)
    ensures
        start.replay(log).body == start.body + body_of(log),
        start.replay(log).code == start.code,
    decreases log.len(),
{
    if log.len() == 0 {
        assert(start.body + body_of(log) =~= start.body);
    } else {
        body_is_concatenation(start, log.drop_last());
        let before = start.replay(log.drop_last());
        match log.last() {
            Delivery::Body(chunk) => {
                assert(before.body + chunk =~= start.body + (body_of(log.drop_last()) + chunk));
            },
            Delivery::Header(_) => {},
        }
    }
}

/// Once the status line is in, it stays as it is, and the headers are those
/// that were held before followed by the ones that the delivered header chunks
/// hold, in the order of arrival.
pub proof fn headers_in_order(start: ResponseView, log: Seq<Delivery>)
    requires
        start.started,
    ensures
        start.replay(log).started,
        start.replay(log).status == start.status,
        start.replay(log).headers == start.headers + headers_of(log),
    decreases log.len(),
{
    if log.len() == 0 {
        assert(start.headers + headers_of(log) =~= start.headers);
    } else {
        headers_in_order(start, log.drop_last());
        let before = start.replay(log.drop_last());
        match log.last() {
            Delivery::Header(chunk) => match header_in(chunk) {
                Some(header) => {
                    assert(before.headers.push(header) =~= start.headers + headers_of(
                        log.drop_last(),
                    ).push(header));
                },
                None => {},
            },
            Delivery::Body(_) => {},
        }
    }
}

/// A chunk without a colon holds no header.
pub proof fn no_colon_no_header(chunk: Seq<u8>)
    requires
        !chunk.contains(COLON),
    ensures
        header_in(chunk) is None,
{
    assert forall|at: int| !first_colon(chunk, at) by {
        if first_colon(chunk, at) {
            assert(chunk[at] == COLON);
        }
    }
}

/// After the status line, a header chunk without a colon is dropped and
/// nothing else: the transfer goes on, and the accumulator ends up as if the
/// chunk had never come, whatever was delivered before and after it.
pub proof fn header_without_colon_is_dropped(
    start: ResponseView,
    before: Seq<Delivery>,
    chunk: Seq<u8>,
    after: Seq<Delivery>,
)
    requires
        start.started,
        !chunk.contains(COLON),
    ensures
        start.replay(before).accepts(chunk),
        start.replay(before + seq![Delivery::Header(chunk)] + after) == start.replay(before + after),
{
    let dropped = seq![Delivery::Header(chunk)];
    no_colon_no_header(chunk);
    headers_in_order(start, before);
    let held = start.replay(before);
    assert(held.replay(dropped) == held) by {
        assert(dropped.drop_last() =~= Seq::<Delivery>::empty());
        assert(dropped.last() == Delivery::Header(chunk));
        assert(held.replay(dropped.drop_last()) == held);
    }
    replay_concat(start, before, dropped);
    replay_concat(start, before + dropped, after);
    replay_concat(start, before, after);
}

/// A first chunk of header bytes that is not UTF-8 stops the transfer and
/// leaves the accumulator empty.
pub proof fn undecodable_status_line_stops_transfer(chunk: Seq<u8>)
    requires
        !valid_utf8(chunk),
    ensures
        !ResponseView::empty().accepts(chunk),
        ResponseView::empty().receive_header(chunk) == ResponseView::empty(),
{
}

/// The first chunk of header bytes that is UTF-8 becomes the status line, and
/// no header.
pub proof fn first_header_chunk_is_status_line(chunk: Seq<u8>)
    requires
        valid_utf8(chunk),
    ensures
        ResponseView::empty().accepts(chunk),
        ResponseView::empty().receive_header(chunk).status == decode_utf8(chunk),
        ResponseView::empty().receive_header(chunk).headers == Seq::<HeaderView>::empty(),
{
}

/// The status code with which a transfer ended is the one that the response
/// reports, and reading it as a signed number keeps every code below 2^31.
/// Recording it changes nothing else.
pub proof fn status_code_is_reported(held: ResponseView, code: u32)
    ensures
        held.complete(Some(code)).code == code,
        code <= i32::MAX ==> as_signed(held.complete(Some(code)).code) == code,
        held.complete(Some(code)).status == held.status,
        held.complete(Some(code)).headers == held.headers,
        held.complete(Some(code)).body == held.body,
{
}

/// Whatever is delivered, in whatever order, nothing is held before the status
/// line has come.
pub proof fn replay_keeps_wf(start: ResponseView, log: Seq<Delivery>)
    requires
        start.wf(),
    ensures
        start.replay(log).wf(),
    decreases log.len(),
{
    if log.len() > 0 {
        replay_keeps_wf(start, log.drop_last());
    }
}

/// A delivery, and the transfer whose callback received it.
pub struct Routed {
    pub transfer: int,
    pub delivery: Delivery,
}

/// The deliveries of one transfer, in the order of arrival, out of a run in
/// which the deliveries of many transfers are interleaved.
pub open spec fn deliveries_of(log: Seq<Routed>, transfer: int) -> Seq<Delivery>
    decreases log.len(),
{
    if log.len() == 0 {
        Seq::empty()
    } else if log.last().transfer == transfer {
        deliveries_of(log.drop_last(), transfer).push(log.last().delivery)
    } else {
        deliveries_of(log.drop_last(), transfer)
    }
}

/// The accumulators of the transfers in flight, by transfer, after an
/// interleaved run of deliveries in which each delivery reaches the
/// accumulator of its own transfer.
pub open spec fn replay_each(held: Map<int, ResponseView>, log: Seq<Routed>) -> Map<int, ResponseView>
    decreases log.len(),
{
    if log.len() == 0 {
        held
    } else {
        let before = replay_each(held, log.drop_last());
        let transfer = log.last().transfer;
        if before.dom().contains(transfer) {
            before.insert(transfer, before[transfer].deliver(log.last().delivery))
        } else {
            before
        }
    }
}

/// Where each delivery reaches the accumulator of its own transfer, the
/// deliveries of other transfers leave no trace in it, however the runs are
/// interleaved: a transfer's accumulator ends up as if its own deliveries had
/// come alone.
pub proof fn interleaving_keeps_transfers_apart(
    held: Map<int, ResponseView>,
    log: Seq<Routed>,
    transfer: int,
)
    requires
        held.dom().contains(transfer),
    ensures
        replay_each(held, log).dom() == held.dom(),
        replay_each(held, log)[transfer] == held[transfer].replay(deliveries_of(log, transfer)),
    decreases log.len(),
{
    if log.len() > 0 {
        interleaving_keeps_transfers_apart(held, log.drop_last(), transfer);
        let before = replay_each(held, log.drop_last());
        let own = deliveries_of(log.drop_last(), transfer);
        if log.last().transfer == transfer {
            let all = own.push(log.last().delivery);
            assert(all.drop_last() =~= own);
            assert(all.last() == log.last().delivery);
        }
        if before.dom().contains(log.last().transfer) {
            assert(replay_each(held, log).dom() =~= held.dom());
        }
    }
}

} // verus!
