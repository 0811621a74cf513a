//! Byte layout of the packets. Every numeric field is 32 bits wide and is
//! written little-endian, in declaration order, with no padding.

use vstd::prelude::*;
use crate::error::Error;

verus! {

/// Bytes in a header.
pub const HEADER_LEN: usize = 16;

/// Bytes in a mouse packet: a header and four 32-bit fields.
pub const MOUSE_PACKET_LEN: usize = 32;

/// Bytes in the payload of a configuration packet.
pub const CONFIG_DATA_LEN: usize = 1024;

/// Bytes in a configuration packet: a header and its payload.
pub const CONFIG_PACKET_LEN: usize = 1040;

/// The commands the device understands. Each travels as a fixed 32-bit code.
#[derive(Clone, Copy, Debug, PartialEq, Eq, Structural)]
pub enum Cmd {
    Connect,
    Move,
    AutoMove,
    Left,
    Right,
    SetConfig,
    ShowPic,
    Reboot,
}

impl Cmd {
    /// The code that stands for this command on the wire.
    pub open spec fn spec_code(self) -> u32 {
        match self {
            Cmd::Connect => 0xAF3C2828u32,
            Cmd::Move => 0xAEDE7345u32,
            Cmd::AutoMove => 0xAEDE7346u32,
            Cmd::Left => 0x9823AE8Du32,
            Cmd::Right => 0x238D8212u32,
            Cmd::SetConfig => 0x1D3D3323u32,
            Cmd::ShowPic => 0x12334883u32,
            Cmd::Reboot => 0xAA8855AAu32,
        }
    }

    #[verifier::when_used_as_spec(spec_code)]
    pub fn code(self) -> (c: u32)
        ensures
            c == self.spec_code(),
    {
        match self {
            Cmd::Connect => 0xAF3C2828u32,
            Cmd::Move => 0xAEDE7345u32,
            Cmd::AutoMove => 0xAEDE7346u32,
            Cmd::Left => 0x9823AE8Du32,
            Cmd::Right => 0x238D8212u32,
            Cmd::SetConfig => 0x1D3D3323u32,
            Cmd::ShowPic => 0x12334883u32,
            Cmd::Reboot => 0xAA8855AAu32,
        }
    }
}

/// The four bytes of `v`, least significant first.
pub open spec fn le_bytes(v: u32) -> Seq<u8> {
    seq![
        (v % 256) as u8,
        (v / 256 % 256) as u8,
        (v / 65536 % 256) as u8,
        (v / 16777216) as u8,
    ]
}

/// The number whose little-endian bytes are the first four of `b`.
pub open spec fn le_value(b: Seq<u8>) -> u32
    recommends
        b.len() >= 4,
{
    (b[0] as int + 256 * (b[1] as int) + 65536 * (b[2] as int) + 16777216 * (b[3] as int)) as u32
}

/// The two's-complement bit pattern of `x`, read as an unsigned number.
pub open spec fn i32_bits(x: i32) -> u32 {
    if x >= 0 {
        x as u32
    } else {
        (x + 0x1_0000_0000) as u32
    }
}

/// Reading back what `le_bytes` wrote gives the number that was written,
/// whatever follows the four bytes.
pub proof fn lemma_le_round_trip(v: u32, rest: Seq<u8>)
    ensures
        le_value(le_bytes(v) + rest) == v,
        le_bytes(v).len() == 4,
{
    let b = le_bytes(v) + rest;
    assert(b[0] == le_bytes(v)[0]);
    assert(b[1] == le_bytes(v)[1]);
    assert(b[2] == le_bytes(v)[2]);
    assert(b[3] == le_bytes(v)[3]);
}

pub fn bits_of(x: i32) -> (r: u32)
    ensures
        r == i32_bits(x),
{
    if x >= 0 {
        x as u32
    } else {
        (x as i64 + 0x1_0000_0000i64) as u32
    }
}

/// Appends the little-endian bytes of `v` to `out`.
pub fn put_u32(out: &mut Vec<u8>, v: u32)
    ensures
        final(out)@ == old(out)@ + le_bytes(v),
{
    out.push((v % 256) as u8);
    out.push((v / 256 % 256) as u8);
    out.push((v / 65536 % 256) as u8);
    out.push((v / 16777216) as u8);
    assert(out@ =~= old(out)@ + le_bytes(v));
}

/// Reads the little-endian number that starts at `at`.
pub fn get_u32(bytes: &[u8], at: usize) -> (v: u32)
    requires
        at + 4 <= bytes@.len(),
    ensures
        v == le_value(bytes@.subrange(at as int, at + 4)),
{
    let b0: u32 = bytes[at] as u32;
    let b1: u32 = bytes[at + 1] as u32;
    let b2: u32 = bytes[at + 2] as u32;
    let b3: u32 = bytes[at + 3] as u32;
    b0 + 256 * b1 + 65536 * b2 + 16777216 * b3
}

/// What starts every packet.
#[derive(Clone, Copy, Debug, PartialEq, Eq, Structural)]
pub struct Header {
    /// Identity of the device addressed.
    pub mac: u32,
    /// Auxiliary value: a random nonce, a delay in milliseconds or an address,
    /// depending on the command.
    pub rand: u32,
    /// Sequence number of the packet within its session.
    pub index: u32,
    /// Code of the command.
    pub cmd: u32,
}

impl Header {
    /// The header as it travels: `mac`, `rand`, `index`, `cmd`.
    pub open spec fn wire(self) -> Seq<u8> {
        le_bytes(self.mac) + le_bytes(self.rand) + le_bytes(self.index) + le_bytes(self.cmd)
    }

    /// The header that the first sixteen bytes of `b` spell.
    pub open spec fn from_wire(b: Seq<u8>) -> Header
        recommends
            b.len() >= 16,
    {
        Header {
            mac: le_value(b.subrange(0, 4)),
            rand: le_value(b.subrange(4, 8)),
            index: le_value(b.subrange(8, 12)),
            cmd: le_value(b.subrange(12, 16)),
        }
    }

    /// A header travels as sixteen bytes, and reading them back gives the
    /// header again, whatever payload follows.
    pub proof fn lemma_round_trip(self, rest: Seq<u8>)
        ensures
            self.wire().len() == 16,
            Header::from_wire(self.wire() + rest) == self,
    {
        let b = self.wire() + rest;
        let e = Seq::<u8>::empty();
        lemma_le_round_trip(self.mac, e);
        lemma_le_round_trip(self.rand, e);
        lemma_le_round_trip(self.index, e);
        lemma_le_round_trip(self.cmd, e);
        assert(b.subrange(0, 4) =~= le_bytes(self.mac) + e);
        assert(b.subrange(4, 8) =~= le_bytes(self.rand) + e);
        assert(b.subrange(8, 12) =~= le_bytes(self.index) + e);
        assert(b.subrange(12, 16) =~= le_bytes(self.cmd) + e);
    }

    /// Appends the header's bytes to `out`.
    pub fn put(&self, out: &mut Vec<u8>)
        ensures
            final(out)@ == old(out)@ + self.wire(),
    {
        put_u32(out, self.mac);
        put_u32(out, self.rand);
        put_u32(out, self.index);
        put_u32(out, self.cmd);
        assert(out@ =~= old(out)@ + self.wire());
    }

    /// The header alone, as a datagram.
    pub fn encode(&self) -> (out: Vec<u8>)
        ensures
            out@ == self.wire(),
            out@.len() == HEADER_LEN,
    {
        let mut out: Vec<u8> = Vec::new();
        self.put(&mut out);
        assert(out@ =~= self.wire());
        out
    }
}

/// Reads the header at the start of a datagram. Whatever follows the header
/// is left uninterpreted.
pub fn decode_header(bytes: &[u8]) -> (r: Result<Header, Error>)
    ensures
        bytes@.len() >= HEADER_LEN ==> r == Ok::<Header, Error>(Header::from_wire(bytes@)),
        bytes@.len() < HEADER_LEN ==> r == Err::<Header, Error>(Error::MalformedResponse),
{
    if bytes.len() < HEADER_LEN {
        return Err(Error::MalformedResponse);
    }
    let mac = get_u32(bytes, 0);
    let rand = get_u32(bytes, 4);
    let index = get_u32(bytes, 8);
    let cmd = get_u32(bytes, 12);
    Ok(Header { mac, rand, index, cmd })
}

/// A mouse action: a header, the button state and three signed deltas.
#[derive(Clone, Copy, Debug, PartialEq, Eq, Structural)]
pub struct MousePacket {
    pub head: Header,
    /// 1 while the button is held down, else 0.
    pub button: i32,
    pub x: i32,
    pub y: i32,
    pub wheel: i32,
}

impl MousePacket {
    /// The packet as it travels: the header, then `button`, `x`, `y`, `wheel`.
    pub open spec fn wire(self) -> Seq<u8> {
        self.head.wire() + le_bytes(i32_bits(self.button)) + le_bytes(i32_bits(self.x)) + le_bytes(
            i32_bits(self.y),
        ) + le_bytes(i32_bits(self.wheel))
    }

    /// A mouse packet travels as thirty-two bytes, and the header read back
    /// from them is the packet's own.
    pub proof fn lemma_round_trip(self)
        ensures
            self.wire().len() == 32,
            Header::from_wire(self.wire()) == self.head,
    {
        let rest = le_bytes(i32_bits(self.button)) + le_bytes(i32_bits(self.x)) + le_bytes(
            i32_bits(self.y),
        ) + le_bytes(i32_bits(self.wheel));
        self.head.lemma_round_trip(rest);
        assert(self.wire() =~= self.head.wire() + rest);
    }

    pub fn encode(&self) -> (out: Vec<u8>)
        ensures
            out@ == self.wire(),
            out@.len() == MOUSE_PACKET_LEN,
    {
        let mut out: Vec<u8> = Vec::new();
        self.head.put(&mut out);
        put_u32(&mut out, bits_of(self.button));
        put_u32(&mut out, bits_of(self.x));
        put_u32(&mut out, bits_of(self.y));
        put_u32(&mut out, bits_of(self.wheel));
        proof {
            self.lemma_round_trip();
            assert(out@ =~= self.wire());
        }
        out
    }
}

/// A configuration push: a header and a payload that the device reads
/// according to the command.
#[derive(Clone, Copy, Debug)]
pub struct ConfigPacket {
    pub head: Header,
    pub data: [u8; 1024],
}

impl ConfigPacket {
    /// The packet as it travels: the header, then the payload.
    pub open spec fn wire(self) -> Seq<u8> {
        self.head.wire() + self.data@
    }

    /// A configuration packet travels as 1040 bytes, and the header read back
    /// from them is the packet's own.
    pub proof fn lemma_round_trip(self)
        ensures
            self.wire().len() == 1040,
            Header::from_wire(self.wire()) == self.head,
    {
        self.head.lemma_round_trip(self.data@);
    }

    pub fn encode(&self) -> (out: Vec<u8>)
        ensures
            out@ == self.wire(),
            out@.len() == CONFIG_PACKET_LEN,
    {
        let mut out: Vec<u8> = Vec::new();
        self.head.put(&mut out);
        let mut i: usize = 0;
        while i < CONFIG_DATA_LEN
            invariant
                i <= CONFIG_DATA_LEN,
                out@ == self.head.wire() + self.data@.take(i as int),
            decreases CONFIG_DATA_LEN - i,
        {
            out.push(self.data[i]);
            i = i + 1;
            assert(out@ =~= self.head.wire() + self.data@.take(i as int));
        }
        proof {
            self.lemma_round_trip();
            assert(self.data@.take(i as int) =~= self.data@);
        }
        out
    }
}

/// The payload that names a relay port: the port's two bytes, most
/// significant first, then zeros.
pub open spec fn relay_payload(port: u16) -> Seq<u8> {
    Seq::new(
        1024,
        |i: int|
            if i == 0 {
                (port / 256) as u8
            } else if i == 1 {
                (port % 256) as u8
            } else {
                0u8
            },
    )
}

pub fn relay_data(port: u16) -> (data: [u8; 1024])
    ensures
        data@ == relay_payload(port),
{
    let mut data: [u8; 1024] = [0u8; 1024];
    data[0] = (port / 256) as u8;
    data[1] = (port % 256) as u8;
    assert(data@ =~= relay_payload(port));
    data
}

} // verus!
