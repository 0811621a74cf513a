//! The session with one device: the handshake that opens it and the actions
//! that it turns into datagrams.

use vstd::prelude::*;
use crate::codec::{relay_data, relay_payload, decode_header, Cmd, ConfigPacket, Header, MousePacket};
use crate::error::Error;
use crate::identity::{identity_from_hex, parse_identity};
use crate::mouse::Mouse;
use crate::net::{Endpoint, Ipv4Address};

verus! {

/// How long the caller waits for the handshake's reply, in milliseconds.
pub const READ_TIMEOUT_MS: u64 = 1000;

/// The sequence number that follows `i`. It wraps to zero after the largest.
pub open spec fn spec_next_index(i: u32) -> u32 {
    if i == u32::MAX {
        0
    } else {
        (i + 1) as u32
    }
}

#[verifier::when_used_as_spec(spec_next_index)]
pub fn next_index(i: u32) -> (n: u32)
    ensures
        n == spec_next_index(i),
{
    i.wrapping_add(1)
}

/// The sequence number reached from `i` by `n` packets more.
pub open spec fn index_after(i: u32, n: int) -> u32 {
    ((i + n) % 0x1_0000_0000) as u32
}

/// One thing the device can be told to do.
#[derive(Clone, Copy, Debug, PartialEq, Eq, Structural)]
pub enum Action {
    Left { down: bool },
    Right { down: bool },
    MoveDelta { x: i32, y: i32 },
    MoveAuto { x: i32, y: i32, delay: u32 },
    Reboot,
    SetConfig { ip: Ipv4Address, port: u16 },
}

impl Action {
    /// The command under which the action travels.
    pub open spec fn cmd(self) -> Cmd {
        match self {
            Action::Left { .. } => Cmd::Left,
            Action::Right { .. } => Cmd::Right,
            Action::MoveDelta { .. } => Cmd::Move,
            Action::MoveAuto { .. } => Cmd::AutoMove,
            Action::Reboot => Cmd::Reboot,
            Action::SetConfig { .. } => Cmd::SetConfig,
        }
    }
}

/// What a session is, as far as contracts are concerned.
pub struct SessionView {
    /// The device's address.
    pub addr: Endpoint,
    /// The device's identity.
    pub mac: u32,
    /// Sequence number of the last packet built.
    pub index: u32,
    /// Whether a failed send is reported to the caller.
    pub strict: bool,
    /// The datagrams built and not yet handed out, oldest first.
    pub queued: Seq<Seq<u8>>,
}

impl SessionView {
    /// The header of the next packet.
    pub open spec fn header(self, cmd: Cmd, rand: u32) -> Header {
        Header { mac: self.mac, rand, index: next_index(self.index), cmd: cmd.spec_code() }
    }

    /// The session after it has built one more packet.
    pub open spec fn queue(self, datagram: Seq<u8>) -> SessionView {
        SessionView {
            index: next_index(self.index),
            queued: self.queued.push(datagram),
            ..self
        }
    }

    /// The mouse packet that is built next for the given command and fields.
    pub open spec fn mouse(self, cmd: Cmd, rand: u32, button: i32, x: i32, y: i32) -> Seq<u8> {
        (MousePacket { head: self.header(cmd, rand), button, x, y, wheel: 0 }).wire()
    }

    /// The datagram that the action becomes. `nonce` fills the header's
    /// auxiliary field wherever the action itself has no use for it.
    pub open spec fn datagram(self, action: Action, nonce: u32) -> Seq<u8> {
        match action {
            Action::Left { down } => self.mouse(Cmd::Left, nonce, if down { 1i32 } else { 0i32 }, 0, 0),
            Action::Right { down } => self.mouse(Cmd::Right, nonce, if down { 1i32 } else { 0i32 }, 0, 0),
            Action::MoveDelta { x, y } => self.mouse(Cmd::Move, nonce, 0, x, y),
            Action::MoveAuto { x, y, delay } => self.mouse(Cmd::AutoMove, delay, 0, x, y),
            Action::Reboot => self.header(Cmd::Reboot, nonce).wire(),
            Action::SetConfig { ip, port } => self.header(Cmd::SetConfig, ip.spec_bits()).wire()
                + relay_payload(port),
        }
    }

    /// The session after the action.
    pub open spec fn act(self, action: Action, nonce: u32) -> SessionView {
        self.queue(self.datagram(action, nonce))
    }

    /// The session after the actions, each with the nonce drawn for it, in
    /// order.
    pub open spec fn run(self, steps: Seq<(Action, u32)>) -> SessionView
        decreases steps.len(),
    {
        if steps.len() == 0 {
            self
        } else {
            self.run(steps.drop_last()).act(steps.last().0, steps.last().1)
        }
    }
}

/// Draws a fresh nonce with `rand::random`, which asks the thread-local
/// generator of the `rand` crate. The value is arbitrary, so nothing is
/// claimed of it. The generator panics where the operating system gives it
/// no seed.
#[verifier::external_body]
fn random_nonce() -> (nonce: u32) {
    rand::random()
}

/// A session with one device. It owns the sequence counter and queues the
/// datagrams that the caller is to send.
pub struct KmBox {
    addr: Endpoint,
    mac: u32,
    index: u32,
    strict: bool,
    outbox: Vec<Vec<u8>>,
}

impl View for KmBox {
    type V = SessionView;

    closed spec fn view(&self) -> SessionView {
        SessionView {
            addr: self.addr,
            mac: self.mac,
            index: self.index,
            strict: self.strict,
            queued: Seq::new(self.outbox@.len(), |i: int| self.outbox@[i]@),
        }
    }
}

/// A handshake under way: the Connect packet is built and no reply has been
/// judged yet.
#[derive(Clone, Copy, Debug, PartialEq, Eq, Structural)]
pub struct Handshake {
    /// The address dialed.
    pub addr: Endpoint,
    /// The device's identity.
    pub mac: u32,
    /// The nonce of the Connect packet.
    pub nonce: u32,
}

/// How the exchange with the device went, as the caller saw it.
#[derive(Debug)]
pub enum Exchange {
    /// The local socket could not be opened or configured.
    SocketFailed,
    /// The Connect packet could not be sent.
    SendFailed,
    /// No datagram arrived before the deadline.
    TimedOut,
    /// A datagram arrived.
    Reply { from: Endpoint, data: Vec<u8> },
}

/// What `connect` decides, given the nonce it drew.
pub open spec fn connect_spec(addr: Option<Endpoint>, mac_hex: Seq<char>, nonce: u32) -> Result<
    Handshake,
    Error,
> {
    match parse_identity(mac_hex) {
        None => Err(Error::InvalidIdentity),
        Some(mac) => match addr {
            None => Err(Error::InvalidAddress),
            Some(a) => Ok(Handshake { addr: a, mac, nonce }),
        },
    }
}

impl Handshake {
    /// The header of the Connect packet: the first packet of the session.
    pub open spec fn hello_header(self) -> Header {
        Header { mac: self.mac, rand: self.nonce, index: 1, cmd: Cmd::Connect.spec_code() }
    }

    /// The session that an accepted reply opens: the counter stands at the
    /// Connect packet's number and nothing is queued.
    pub open spec fn opened(self) -> SessionView {
        SessionView {
            addr: self.addr,
            mac: self.mac,
            index: 1,
            strict: false,
            queued: Seq::empty(),
        }
    }

    /// What the exchange amounts to.
    pub open spec fn outcome(self, exchange: Exchange) -> Result<SessionView, Error> {
        match exchange {
            Exchange::SocketFailed => Err(Error::ConnectFailure),
            Exchange::SendFailed => Err(Error::SendFailure),
            Exchange::TimedOut => Err(Error::Timeout),
            Exchange::Reply { from, data } => if from != self.addr {
                Err(Error::UnexpectedSender)
            } else if data@.len() < 16 {
                Err(Error::MalformedResponse)
            } else {
                Ok(self.opened())
            },
        }
    }

    /// The Connect packet, to be sent to `addr`.
    pub fn hello(&self) -> (datagram: Vec<u8>)
        ensures
            datagram@ == self.hello_header().wire(),
    {
        let head = Header { mac: self.mac, rand: self.nonce, index: 1, cmd: Cmd::Connect.code() };
        head.encode()
    }

    /// Judges the exchange and opens the session if the device answered.
    pub fn complete(self, exchange: Exchange) -> (r: Result<KmBox, Error>)
        ensures
            r matches Ok(km) ==> self.outcome(exchange) == Ok::<SessionView, Error>(km@),
            r matches Err(e) ==> self.outcome(exchange) == Err::<SessionView, Error>(e),
    {
        match exchange {
            Exchange::SocketFailed => Err(Error::ConnectFailure),
            Exchange::SendFailed => Err(Error::SendFailure),
            Exchange::TimedOut => Err(Error::Timeout),
            Exchange::Reply { from, data } => {
                if from != self.addr {
                    return Err(Error::UnexpectedSender);
                }
                match decode_header(data.as_slice()) {
                    Err(e) => Err(e),
                    Ok(_) => {
                        let km = KmBox {
                            addr: self.addr,
                            mac: self.mac,
                            index: 1,
                            strict: false,
                            outbox: Vec::new(),
                        };
                        assert(km@.queued =~= Seq::<Seq<u8>>::empty());
                        Ok(km)
                    },
                }
            },
        }
    }
}

impl KmBox {
    /// Starts a handshake with the device at `addr`, which is `None` where
    /// the address could not be parsed or resolved. The nonce is given.
    pub fn connect_with(addr: Option<Endpoint>, mac_hex: &str, nonce: u32) -> (r: Result<
        Handshake,
        Error,
    >)
        ensures
            r == connect_spec(addr, mac_hex@, nonce),
    {
        let mac = match identity_from_hex(mac_hex) {
            Ok(mac) => mac,
            Err(e) => {
                return Err(e);
            },
        };
        match addr {
            None => Err(Error::InvalidAddress),
            Some(a) => Ok(Handshake { addr: a, mac, nonce }),
        }
    }

    /// Starts a handshake with the device at `addr`, which is `None` where
    /// the address could not be parsed or resolved. The nonce is random.
    pub fn connect(addr: Option<Endpoint>, mac_hex: &str) -> (r: Result<Handshake, Error>)
        ensures
            parse_identity(mac_hex@) is None ==> r == Err::<Handshake, Error>(Error::InvalidIdentity),
            parse_identity(mac_hex@) is Some && addr is None ==> r == Err::<Handshake, Error>(
                Error::InvalidAddress,
            ),
            parse_identity(mac_hex@) is Some && addr is Some ==> r is Ok && r.unwrap().addr
                == addr.unwrap() && r.unwrap().mac == parse_identity(mac_hex@).unwrap(),
            exists|nonce: u32| r == #[trigger] connect_spec(addr, mac_hex@, nonce),
    {
        let nonce = random_nonce();
        Self::connect_with(addr, mac_hex, nonce)
    }

    pub fn addr(&self) -> (r: Endpoint)
        ensures
            r == self@.addr,
    {
        self.addr
    }

    pub fn identity(&self) -> (r: u32)
        ensures
            r == self@.mac,
    {
        self.mac
    }

    /// Sequence number of the last packet built.
    pub fn sequence(&self) -> (r: u32)
        ensures
            r == self@.index,
    {
        self.index
    }

    /// Number of datagrams that wait to be sent.
    pub fn pending(&self) -> (n: usize)
        ensures
            n == self@.queued.len(),
    {
        self.outbox.len()
    }

    /// Chooses whether a failed send is reported (`true`) or passed over.
    pub fn set_strict(&mut self, strict: bool)
        ensures
            final(self)@ == (SessionView { strict, ..old(self)@ }),
    {
        self.strict = strict;
        assert(self@.queued =~= old(self)@.queued);
    }

    /// Advances the counter and returns its new value.
    pub fn next_sequence(&mut self) -> (n: u32)
        ensures
            n == next_index(old(self)@.index),
            final(self)@ == (SessionView { index: n, ..old(self)@ }),
    {
        self.index = next_index(self.index);
        assert(self@.queued =~= old(self)@.queued);
        self.index
    }

    /// Builds the header of the next packet and advances the counter.
    pub fn next_header(&mut self, cmd: Cmd, rand: u32) -> (head: Header)
        ensures
            head == old(self)@.header(cmd, rand),
            final(self)@ == (SessionView { index: head.index, ..old(self)@ }),
    {
        let index = self.next_sequence();
        Header { mac: self.mac, rand, index, cmd: cmd.code() }
    }

    fn push(&mut self, datagram: Vec<u8>)
        ensures
            final(self)@ == (SessionView {
                queued: old(self)@.queued.push(datagram@),
                ..old(self)@
            }),
    {
        self.outbox.push(datagram);
        assert(self@.queued =~= old(self)@.queued.push(datagram@));
    }

    fn queue_mouse(&mut self, cmd: Cmd, rand: u32, button: i32, x: i32, y: i32)
        ensures
            final(self)@ == old(self)@.queue(old(self)@.mouse(cmd, rand, button, x, y)),
    {
        let head = self.next_header(cmd, rand);
        let packet = MousePacket { head, button, x, y, wheel: 0 };
        self.push(packet.encode());
    }

    /// Builds the action's packet with the given nonce and queues it.
    pub fn dispatch_with(&mut self, action: Action, nonce: u32)
        ensures
            final(self)@ == old(self)@.act(action, nonce),
    {
        match action {
            Action::Left { down } => self.queue_mouse(Cmd::Left, nonce, if down { 1 } else { 0 }, 0, 0),
            Action::Right { down } => self.queue_mouse(Cmd::Right, nonce, if down { 1 } else { 0 }, 0, 0),
            Action::MoveDelta { x, y } => self.queue_mouse(Cmd::Move, nonce, 0, x, y),
            Action::MoveAuto { x, y, delay } => self.queue_mouse(Cmd::AutoMove, delay, 0, x, y),
            Action::Reboot => {
                let head = self.next_header(Cmd::Reboot, nonce);
                self.push(head.encode());
            },
            Action::SetConfig { ip, port } => {
                let head = self.next_header(Cmd::SetConfig, ip.bits());
                let packet = ConfigPacket { head, data: relay_data(port) };
                self.push(packet.encode());
            },
        }
    }

    /// Builds the action's packet with a random nonce and queues it.
    pub fn dispatch(&mut self, action: Action)
        ensures
            exists|nonce: u32| final(self)@ == #[trigger] old(self)@.act(action, nonce),
    {
        let nonce = random_nonce();
        self.dispatch_with(action, nonce);
    }

    /// Queues a Config packet that points the device's relay at `ip:port`.
    pub fn set_config(&mut self, ip: Ipv4Address, port: u16) -> (r: Result<(), Error>)
        ensures
            r is Ok,
            final(self)@ == old(self)@.queue(
                old(self)@.header(Cmd::SetConfig, ip.spec_bits()).wire() + relay_payload(port),
            ),
    {
        self.dispatch_with(Action::SetConfig { ip, port }, 0);
        Ok(())
    }

    /// Showing a picture on the device is not supported.
    pub fn set_picture(&mut self, _image: Vec<u8>) -> (r: Result<(), Error>)
        ensures
            r == Err::<(), Error>(Error::Unsupported),
            final(self)@ == old(self)@,
    {
        Err(Error::Unsupported)
    }

    /// Hands out the oldest queued datagram, for the caller to send to
    /// `addr`.
    pub fn take_datagram(&mut self) -> (r: Option<Vec<u8>>)
        ensures
            old(self)@.queued.len() == 0 ==> r.is_none() && final(self)@ == old(self)@,
            old(self)@.queued.len() > 0 ==> r.is_some() && r.unwrap()@ == old(self)@.queued[0]
                && final(self)@ == (SessionView {
                queued: old(self)@.queued.subrange(1, old(self)@.queued.len() as int),
                ..old(self)@
            }),
    {
        if self.outbox.len() == 0 {
            return None;
        }
        let datagram = self.outbox.remove(0);
        assert(self@.queued =~= old(self)@.queued.subrange(1, old(self)@.queued.len() as int));
        Some(datagram)
    }

    /// What the caller of an action is told after the transport has tried to
    /// send its datagram: a failure only in strict mode.
    pub fn sent(&self, delivered: bool) -> (r: Result<(), Error>)
        ensures
            r == if self@.strict && !delivered {
                Err::<(), Error>(Error::SendFailure)
            } else {
                Ok::<(), Error>(())
            },
    {
        if self.strict && !delivered {
            Err(Error::SendFailure)
        } else {
            Ok(())
        }
    }
}

impl Mouse for KmBox {
    fn left(&mut self, down: bool) -> (r: Result<(), Error>)
        ensures
            r is Ok,
            exists|nonce: u32| final(self)@ == #[trigger] old(self)@.act(Action::Left { down }, nonce),
    {
        self.dispatch(Action::Left { down });
        Ok(())
    }

    fn right(&mut self, down: bool) -> (r: Result<(), Error>)
        ensures
            r is Ok,
            exists|nonce: u32| final(self)@ == #[trigger] old(self)@.act(Action::Right { down }, nonce),
    {
        self.dispatch(Action::Right { down });
        Ok(())
    }

    fn move_delta(&mut self, x: i32, y: i32) -> (r: Result<(), Error>)
        ensures
            r is Ok,
            exists|nonce: u32| final(self)@ == #[trigger] old(self)@.act(Action::MoveDelta { x, y }, nonce),
    {
        self.dispatch(Action::MoveDelta { x, y });
        Ok(())
    }

    fn move_auto(&mut self, x: i32, y: i32, delay: u32) -> (r: Result<(), Error>)
        ensures
            r is Ok,
            final(self)@ == old(self)@.queue(old(self)@.mouse(Cmd::AutoMove, delay, 0, x, y)),
    {
        self.dispatch_with(Action::MoveAuto { x, y, delay }, 0);
        Ok(())
    }

    fn reboot(&mut self) -> (r: Result<(), Error>)
        ensures
            r is Ok,
            exists|nonce: u32| final(self)@ == #[trigger] old(self)@.act(Action::Reboot, nonce),
    {
        self.dispatch(Action::Reboot);
        Ok(())
    }

    fn shutdown(&mut self) -> (r: Result<(), Error>)
        ensures
            r == Err::<(), Error>(Error::Unsupported),
            final(self)@ == old(self)@,
    {
        Err(Error::Unsupported)
    }
}

} // verus!
