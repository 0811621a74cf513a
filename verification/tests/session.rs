use kmbox::codec::{decode_header, Cmd, Header};
use kmbox::error::Error;
use kmbox::kmbox::{next_index, Action, Exchange, Handshake, KmBox, READ_TIMEOUT_MS};
use kmbox::mouse::Mouse;
use kmbox::net::{Endpoint, IpAddress, Ipv4Address};

fn device() -> Endpoint {
    Endpoint { ip: IpAddress::V4(Ipv4Address { a: 192, b: 168, c: 2, d: 188 }), port: 61697 }
}

fn open() -> KmBox {
    let handshake = KmBox::connect_with(Some(device()), "FF313CAB", 5).unwrap();
    handshake.complete(Exchange::Reply { from: device(), data: vec![0u8; 16] }).unwrap()
}

fn i32_at(bytes: &[u8], at: usize) -> i32 {
    i32::from_le_bytes([bytes[at], bytes[at + 1], bytes[at + 2], bytes[at + 3]])
}

#[test]
fn read_timeout_is_one_second() {
    assert_eq!(READ_TIMEOUT_MS, 1000);
}

#[test]
fn connect_packet_carries_the_identity() {
    let handshake = KmBox::connect(Some(device()), "FF313CAB").unwrap();
    assert_eq!(handshake.addr, device());
    assert_eq!(handshake.mac, 0xFF313CAB);
    let hello = handshake.hello();
    assert_eq!(hello.len(), 16);
    let head = decode_header(&hello).unwrap();
    assert_eq!(head.mac, 0xFF313CAB);
    assert_eq!(head.rand, handshake.nonce);
    assert_eq!(head.index, 1);
    assert_eq!(head.cmd, 0xAF3C2828);
}

#[test]
fn connect_with_uses_the_given_nonce() {
    let handshake = KmBox::connect_with(Some(device()), "FF313CAB", 0x0A0B0C0D).unwrap();
    assert_eq!(handshake, Handshake { addr: device(), mac: 0xFF313CAB, nonce: 0x0A0B0C0D });
    assert_eq!(
        handshake.hello(),
        vec![
            0xAB, 0x3C, 0x31, 0xFF, 0x0D, 0x0C, 0x0B, 0x0A, 0x01, 0x00, 0x00, 0x00, 0x28, 0x28,
            0x3C, 0xAF
        ]
    );
}

#[test]
fn connect_rejects_a_bad_identity() {
    assert_eq!(KmBox::connect(Some(device()), "not hex"), Err(Error::InvalidIdentity));
    assert_eq!(KmBox::connect(Some(device()), ""), Err(Error::InvalidIdentity));
    assert_eq!(KmBox::connect_with(Some(device()), "1FFFFFFFF", 0), Err(Error::InvalidIdentity));
}

#[test]
fn connect_rejects_a_missing_address() {
    assert_eq!(KmBox::connect(None, "FF313CAB"), Err(Error::InvalidAddress));
}

#[test]
fn identity_is_judged_before_the_address() {
    assert_eq!(KmBox::connect(None, "zz"), Err(Error::InvalidIdentity));
}

#[test]
fn handshake_opens_a_session() {
    let km = open();
    assert_eq!(km.addr(), device());
    assert_eq!(km.identity(), 0xFF313CAB);
    assert_eq!(km.sequence(), 1);
    assert_eq!(km.pending(), 0);
}

#[test]
fn handshake_accepts_a_long_reply() {
    let handshake = KmBox::connect_with(Some(device()), "1", 0).unwrap();
    let km = handshake.complete(Exchange::Reply { from: device(), data: vec![7u8; 1024] });
    assert!(km.is_ok());
}

#[test]
fn handshake_failures_are_typed() {
    let handshake = KmBox::connect_with(Some(device()), "FF313CAB", 0).unwrap();
    assert_eq!(handshake.complete(Exchange::SocketFailed).err(), Some(Error::ConnectFailure));
    assert_eq!(handshake.complete(Exchange::SendFailed).err(), Some(Error::SendFailure));
    assert_eq!(handshake.complete(Exchange::TimedOut).err(), Some(Error::Timeout));
}

#[test]
fn reply_from_another_address_is_refused() {
    let handshake = KmBox::connect_with(Some(device()), "FF313CAB", 0).unwrap();
    let other_port = Endpoint { port: 61698, ..device() };
    let other_host =
        Endpoint { ip: IpAddress::V4(Ipv4Address { a: 192, b: 168, c: 2, d: 189 }), port: 61697 };
    let v6 = Endpoint { ip: IpAddress::V6 { bits: 1, flowinfo: 0, scope_id: 0 }, port: 61697 };
    for from in [other_port, other_host, v6] {
        let r = handshake.complete(Exchange::Reply { from, data: vec![0u8; 16] });
        assert_eq!(r.err(), Some(Error::UnexpectedSender));
    }
}

#[test]
fn wrong_sender_is_reported_before_a_short_reply() {
    let handshake = KmBox::connect_with(Some(device()), "FF313CAB", 0).unwrap();
    let from = Endpoint { port: 1, ..device() };
    let r = handshake.complete(Exchange::Reply { from, data: vec![] });
    assert_eq!(r.err(), Some(Error::UnexpectedSender));
}

#[test]
fn short_reply_is_malformed() {
    let handshake = KmBox::connect_with(Some(device()), "FF313CAB", 0).unwrap();
    for len in [0usize, 1, 15] {
        let r = handshake.complete(Exchange::Reply { from: device(), data: vec![0u8; len] });
        assert_eq!(r.err(), Some(Error::MalformedResponse));
    }
}

#[test]
fn left_down_then_up() {
    let mut km = open();
    assert_eq!(km.left(true), Ok(()));
    assert_eq!(km.left(false), Ok(()));
    assert_eq!(km.pending(), 2);
    let first = km.take_datagram().unwrap();
    let second = km.take_datagram().unwrap();
    assert_eq!(km.take_datagram(), None);
    assert_eq!(first.len(), 32);
    assert_eq!(second.len(), 32);
    let (h1, h2) = (decode_header(&first).unwrap(), decode_header(&second).unwrap());
    assert_eq!(h1.cmd, 0x9823AE8D);
    assert_eq!(h2.cmd, 0x9823AE8D);
    assert_eq!(h1.mac, 0xFF313CAB);
    assert_eq!(h2.mac, 0xFF313CAB);
    assert_eq!(h1.index, 2);
    assert_eq!(h2.index, 3);
    assert_eq!(h2.index - h1.index, 1);
    assert_eq!(i32_at(&first, 16), 1);
    assert_eq!(i32_at(&second, 16), 0);
    for packet in [&first, &second] {
        assert_eq!(i32_at(packet, 20), 0);
        assert_eq!(i32_at(packet, 24), 0);
        assert_eq!(i32_at(packet, 28), 0);
    }
}

#[test]
fn right_button() {
    let mut km = open();
    assert_eq!(km.right(true), Ok(()));
    let packet = km.take_datagram().unwrap();
    assert_eq!(decode_header(&packet).unwrap().cmd, 0x238D8212);
    assert_eq!(i32_at(&packet, 16), 1);
    assert_eq!(&packet[20..], &[0u8; 12]);
}

#[test]
fn relative_move() {
    let mut km = open();
    assert_eq!(km.move_delta(-40, 25), Ok(()));
    let packet = km.take_datagram().unwrap();
    assert_eq!(packet.len(), 32);
    assert_eq!(decode_header(&packet).unwrap().cmd, 0xAEDE7345);
    assert_eq!(i32_at(&packet, 16), 0);
    assert_eq!(i32_at(&packet, 20), -40);
    assert_eq!(i32_at(&packet, 24), 25);
    assert_eq!(i32_at(&packet, 28), 0);
}

#[test]
fn interpolated_move_carries_the_delay() {
    let mut km = open();
    assert_eq!(km.move_auto(100, -200, 350), Ok(()));
    let packet = km.take_datagram().unwrap();
    let head = decode_header(&packet).unwrap();
    assert_eq!(
        head,
        Header { mac: 0xFF313CAB, rand: 350, index: 2, cmd: Cmd::AutoMove.code() }
    );
    assert_eq!(i32_at(&packet, 16), 0);
    assert_eq!(i32_at(&packet, 20), 100);
    assert_eq!(i32_at(&packet, 24), -200);
    assert_eq!(i32_at(&packet, 28), 0);
}

#[test]
fn reboot_is_a_header_alone() {
    let mut km = open();
    assert_eq!(km.reboot(), Ok(()));
    let packet = km.take_datagram().unwrap();
    assert_eq!(packet.len(), 16);
    let head = decode_header(&packet).unwrap();
    assert_eq!(head.cmd, 0xAA8855AA);
    assert_eq!(head.index, 2);
    assert_eq!(head.mac, 0xFF313CAB);
}

#[test]
fn shutdown_is_unsupported() {
    let mut km = open();
    assert_eq!(km.shutdown(), Err(Error::Unsupported));
    assert_eq!(km.pending(), 0);
    assert_eq!(km.sequence(), 1);
}

#[test]
fn set_picture_is_unsupported() {
    let mut km = open();
    assert_eq!(km.set_picture(vec![1, 2, 3]), Err(Error::Unsupported));
    assert_eq!(km.pending(), 0);
    assert_eq!(km.sequence(), 1);
}

#[test]
fn relay_config_packet() {
    let mut km = open();
    assert_eq!(km.set_config(Ipv4Address { a: 192, b: 168, c: 2, d: 188 }, 2000), Ok(()));
    let packet = km.take_datagram().unwrap();
    assert_eq!(packet.len(), 1040);
    let head = decode_header(&packet).unwrap();
    assert_eq!(head.cmd, 0x1D3D3323);
    assert_eq!(head.rand, 0xC0A802BC);
    assert_eq!(head.rand, u32::from_be_bytes([192, 168, 2, 188]));
    assert_eq!(head.index, 2);
    assert_eq!(head.mac, 0xFF313CAB);
    assert_eq!(&packet[16..18], &[0x07, 0xD0]);
    assert!(packet[18..].iter().all(|b| *b == 0));
}

#[test]
fn ipv4_bits() {
    assert_eq!(Ipv4Address { a: 0, b: 0, c: 0, d: 0 }.bits(), 0);
    assert_eq!(Ipv4Address { a: 255, b: 255, c: 255, d: 255 }.bits(), u32::MAX);
    assert_eq!(Ipv4Address { a: 1, b: 2, c: 3, d: 4 }.bits(), 0x01020304);
}

#[test]
fn sequence_numbers_rise_by_one() {
    let mut km = open();
    let n: u32 = 50;
    for i in 0..n {
        match i % 5 {
            0 => km.left(i % 2 == 0).unwrap(),
            1 => km.right(true).unwrap(),
            2 => km.move_delta(1, -1).unwrap(),
            3 => km.move_auto(3, 4, 5).unwrap(),
            _ => km.reboot().unwrap(),
        }
    }
    assert_eq!(km.sequence(), n + 1);
    for i in 0..n {
        let head = decode_header(&km.take_datagram().unwrap()).unwrap();
        assert_eq!(head.index, i + 2);
        assert_eq!(head.mac, 0xFF313CAB);
    }
    assert_eq!(km.take_datagram(), None);
}

#[test]
fn next_sequence_counts_from_the_handshake() {
    let mut km = open();
    assert_eq!(km.next_sequence(), 2);
    assert_eq!(km.next_sequence(), 3);
    assert_eq!(km.sequence(), 3);
    assert_eq!(km.pending(), 0);
}

#[test]
fn next_header_takes_the_next_number() {
    let mut km = open();
    let head = km.next_header(Cmd::Move, 77);
    assert_eq!(head, Header { mac: 0xFF313CAB, rand: 77, index: 2, cmd: 0xAEDE7345 });
    assert_eq!(km.sequence(), 2);
    assert_eq!(km.pending(), 0);
}

#[test]
fn dispatch_with_uses_the_given_nonce() {
    let mut km = open();
    km.dispatch_with(Action::Left { down: true }, 0xCAFEBABE);
    km.dispatch_with(Action::MoveAuto { x: 1, y: 2, delay: 9 }, 0xCAFEBABE);
    km.dispatch_with(
        Action::SetConfig { ip: Ipv4Address { a: 10, b: 0, c: 0, d: 1 }, port: 80 },
        0xCAFEBABE,
    );
    km.dispatch_with(Action::Reboot, 0xCAFEBABE);
    let rands: Vec<u32> = (0..4)
        .map(|_| decode_header(&km.take_datagram().unwrap()).unwrap().rand)
        .collect();
    assert_eq!(rands, vec![0xCAFEBABE, 9, 0x0A000001, 0xCAFEBABE]);
}

#[test]
fn dispatch_queues_one_packet() {
    let mut km = open();
    km.dispatch(Action::Right { down: false });
    assert_eq!(km.pending(), 1);
    assert_eq!(km.sequence(), 2);
    let packet = km.take_datagram().unwrap();
    assert_eq!(decode_header(&packet).unwrap().cmd, Cmd::Right.code());
    assert_eq!(&packet[16..], &[0u8; 16]);
}

#[test]
fn datagrams_come_out_oldest_first() {
    let mut km = open();
    km.reboot().unwrap();
    km.move_delta(1, 1).unwrap();
    assert_eq!(km.take_datagram().unwrap().len(), 16);
    assert_eq!(km.pending(), 1);
    assert_eq!(km.take_datagram().unwrap().len(), 32);
    assert_eq!(km.pending(), 0);
    assert_eq!(km.take_datagram(), None);
    assert_eq!(km.sequence(), 3);
}

#[test]
fn send_failures_are_passed_over_unless_strict() {
    let mut km = open();
    assert_eq!(km.sent(true), Ok(()));
    assert_eq!(km.sent(false), Ok(()));
    km.set_strict(true);
    assert_eq!(km.sent(true), Ok(()));
    assert_eq!(km.sent(false), Err(Error::SendFailure));
    km.set_strict(false);
    assert_eq!(km.sent(false), Ok(()));
}

#[test]
fn identity_and_address_stay() {
    let mut km = open();
    km.left(true).unwrap();
    km.set_config(Ipv4Address { a: 1, b: 1, c: 1, d: 1 }, 1).unwrap();
    km.set_strict(true);
    let _ = km.take_datagram();
    assert_eq!(km.identity(), 0xFF313CAB);
    assert_eq!(km.addr(), device());
}

#[test]
fn sequence_counter_wraps() {
    assert_eq!(next_index(0), 1);
    assert_eq!(next_index(41), 42);
    assert_eq!(next_index(u32::MAX - 1), u32::MAX);
    assert_eq!(next_index(u32::MAX), 0);
}
