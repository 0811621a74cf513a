//! What holds of every session, whatever it is asked to do.

use vstd::prelude::*;
use crate::codec::{Header, MousePacket};
use crate::identity::parse_identity;
use crate::kmbox::{connect_spec, index_after, next_index, Action, Exchange, SessionView};
use crate::net::Endpoint;

verus! {

/// The packet that an action becomes starts with a header that carries the
/// session's identity, the sequence number after the session's last one and
/// the action's command code.
pub proof fn lemma_datagram_header(s: SessionView, action: Action, nonce: u32)
    ensures
        s.datagram(action, nonce).len() >= 16,
        Header::from_wire(s.datagram(action, nonce)).mac == s.mac,
        Header::from_wire(s.datagram(action, nonce)).index == next_index(s.index),
        Header::from_wire(s.datagram(action, nonce)).cmd == action.cmd().spec_code(),
{
    match action {
        Action::Left { down } => {
            (MousePacket {
                head: s.header(action.cmd(), nonce),
                button: if down { 1i32 } else { 0i32 },
                x: 0,
                y: 0,
                wheel: 0,
            }).lemma_round_trip();
        },
        Action::Right { down } => {
            (MousePacket {
                head: s.header(action.cmd(), nonce),
                button: if down { 1i32 } else { 0i32 },
                x: 0,
                y: 0,
                wheel: 0,
            }).lemma_round_trip();
        },
        Action::MoveDelta { x, y } => {
            (MousePacket { head: s.header(action.cmd(), nonce), button: 0, x, y, wheel: 0 })
                .lemma_round_trip();
        },
        Action::MoveAuto { x, y, delay } => {
            (MousePacket { head: s.header(action.cmd(), delay), button: 0, x, y, wheel: 0 })
                .lemma_round_trip();
        },
        Action::Reboot => {
            let h = s.header(action.cmd(), nonce);
            h.lemma_round_trip(Seq::empty());
            assert(h.wire() + Seq::<u8>::empty() =~= h.wire());
        },
        Action::SetConfig { ip, port } => {
            s.header(action.cmd(), ip.spec_bits()).lemma_round_trip(crate::codec::relay_payload(port));
        },
    }
}

/// Encoding a mouse packet and decoding the header of what was encoded gives
/// back the identity, the sequence number and the command code.
pub proof fn lemma_mouse_round_trip(p: MousePacket)
    ensures
        Header::from_wire(p.wire()).mac == p.head.mac,
        Header::from_wire(p.wire()).index == p.head.index,
        Header::from_wire(p.wire()).cmd == p.head.cmd,
{
    p.lemma_round_trip();
}

/// Counting one packet more is taking the next sequence number.
pub proof fn lemma_index_step(i: u32, n: int)
    requires
        n >= 0,
    ensures
        index_after(i, 0) == i,
        index_after(i, n + 1) == next_index(index_after(i, n)),
        i + n <= u32::MAX ==> index_after(i, n) == i + n,
{
}

/// Any run of actions leaves the session's address, identity and mode as
/// they were, keeps what was queued before, and adds one packet for each
/// action, in order. The packet of the action at position `k` carries the
/// session's identity, the action's command code and the sequence number
/// `index + k + 1`, reduced modulo 2^32.
pub proof fn lemma_run(s: SessionView, steps: Seq<(Action, u32)>)
    ensures
        s.run(steps).addr == s.addr,
        s.run(steps).mac == s.mac,
        s.run(steps).strict == s.strict,
        s.run(steps).index == index_after(s.index, steps.len() as int),
        s.run(steps).queued.len() == s.queued.len() + steps.len(),
        forall|j: int| 0 <= j < s.queued.len() ==> s.run(steps).queued[j] == s.queued[j],
        forall|j: int|
            s.queued.len() <= j < s.queued.len() + steps.len() ==> {
                let h = Header::from_wire(#[trigger] s.run(steps).queued[j]);
                &&& h.mac == s.mac
                &&& h.index == index_after(s.index, j - s.queued.len() + 1)
                &&& h.cmd == steps[j - s.queued.len()].0.cmd().spec_code()
            },
    decreases steps.len(),
{
    lemma_index_step(s.index, 0);
    if steps.len() > 0 {
        let before = steps.drop_last();
        let p = s.run(before);
        let d = p.datagram(steps.last().0, steps.last().1);
        let r = s.run(steps);
        lemma_run(s, before);
        lemma_datagram_header(p, steps.last().0, steps.last().1);
        lemma_index_step(s.index, before.len() as int);
        assert(r == p.queue(d));
        assert(r.queued == p.queued.push(d));
        assert forall|j: int| s.queued.len() <= j < s.queued.len() + steps.len() implies {
            let h = Header::from_wire(#[trigger] r.queued[j]);
            &&& h.mac == s.mac
            &&& h.index == index_after(s.index, j - s.queued.len() + 1)
            &&& h.cmd == steps[j - s.queued.len()].0.cmd().spec_code()
        } by {
            if j < p.queued.len() {
                assert(r.queued[j] == p.queued[j]);
                assert(before[j - s.queued.len()] == steps[j - s.queued.len()]);
            } else {
                assert(r.queued[j] == d);
            }
        }
    }
}

/// The sequence numbers of the packets of a run rise by one from each packet
/// to the next, wrapping to zero after the largest; and as long as the
/// counter does not wrap, the packet at position `k` carries exactly
/// `index + k + 1`. On a session that has only made its handshake, whose
/// counter stands at 1, the packets of `n` actions are numbered 2 to `n + 1`.
pub proof fn lemma_sequence_numbers(s: SessionView, steps: Seq<(Action, u32)>)
    ensures
        steps.len() > 0 ==> Header::from_wire(s.run(steps).queued[s.queued.len() as int]).index
            == next_index(s.index),
        forall|j: int|
            s.queued.len() <= j < s.queued.len() + steps.len() - 1 ==> Header::from_wire(
                s.run(steps).queued[j + 1],
            ).index == next_index(Header::from_wire(#[trigger] s.run(steps).queued[j]).index),
        forall|j: int|
            s.queued.len() <= j < s.queued.len() + steps.len() && s.index + steps.len()
                <= u32::MAX ==> Header::from_wire(#[trigger] s.run(steps).queued[j]).index
                == s.index + (j - s.queued.len()) + 1,
{
    lemma_run(s, steps);
    let r = s.run(steps);
    let base = s.queued.len() as int;
    if steps.len() > 0 {
        lemma_index_step(s.index, 0);
        assert(Header::from_wire(r.queued[base]).index == index_after(s.index, 1));
    }
    assert forall|j: int| base <= j < base + steps.len() - 1 implies Header::from_wire(
        r.queued[j + 1],
    ).index == next_index(Header::from_wire(#[trigger] r.queued[j]).index) by {
        lemma_index_step(s.index, j - base + 1);
        assert(Header::from_wire(r.queued[j]).index == index_after(s.index, j - base + 1));
        assert(Header::from_wire(r.queued[j + 1]).index == index_after(s.index, j + 1 - base + 1));
    }
    assert forall|j: int|
        base <= j < base + steps.len() && s.index + steps.len() <= u32::MAX implies Header::from_wire(
        #[trigger] r.queued[j],
    ).index == s.index + (j - base) + 1 by {
        lemma_index_step(s.index, j - base + 1);
    }
}

/// Where the identity text is valid, the handshake's Connect packet carries
/// the number that the text denotes, and so does every packet that the
/// session opened by that handshake builds afterwards.
pub proof fn lemma_identity_embedded(
    addr: Endpoint,
    mac_hex: Seq<char>,
    nonce: u32,
    exchange: Exchange,
    steps: Seq<(Action, u32)>,
)
    requires
        parse_identity(mac_hex) is Some,
    ensures
        connect_spec(Some(addr), mac_hex, nonce) is Ok,
        ({
            let handshake = connect_spec(Some(addr), mac_hex, nonce).unwrap();
            let mac = parse_identity(mac_hex).unwrap();
            &&& Header::from_wire(handshake.hello_header().wire()).mac == mac
            &&& handshake.outcome(exchange) matches Ok(session) ==> {
                &&& session.mac == mac
                &&& session.run(steps).mac == mac
                &&& forall|k: int|
                    0 <= k < steps.len() ==> Header::from_wire(
                        #[trigger] session.run(steps).queued[k],
                    ).mac == mac
            }
        }),
{
    let handshake = connect_spec(Some(addr), mac_hex, nonce).unwrap();
    handshake.hello_header().lemma_round_trip(Seq::empty());
    assert(handshake.hello_header().wire() + Seq::<u8>::empty() =~= handshake.hello_header().wire());
    if let Ok(session) = handshake.outcome(exchange) {
        lemma_run(session, steps);
        assert forall|k: int| 0 <= k < steps.len() implies Header::from_wire(
            #[trigger] session.run(steps).queued[k],
        ).mac == handshake.mac by {
            assert(session.queued.len() == 0);
        }
    }
}

/// A reply from another address than the one dialed opens no session: the
/// exchange ends in `UnexpectedSender`, whatever the reply holds.
pub proof fn lemma_unexpected_sender(
    handshake: crate::kmbox::Handshake,
    from: Endpoint,
    data: Vec<u8>,
)
    requires
        from != handshake.addr,
    ensures
        handshake.outcome(Exchange::Reply { from, data }) == Err::<SessionView, crate::error::Error>(
            crate::error::Error::UnexpectedSender,
        ),
{
}

} // verus!
