use std::collections::VecDeque;

use aa_mirror::channel_manager::{
    append_all, endpoint_reader, read_input_data, ssl_encapsulate, take_front, CmdStatus,
    EngineError, InputKind, Packet, ReadError, SslMemBuf, SslMemory, SslStreams, ENCRYPTED,
    FRAME_TYPE_FIRST, FRAME_TYPE_FULL, FRAME_TYPE_LAST, HEADER_LENGTH,
};
use aa_mirror::aa_services::CommandState;
use aa_mirror::wire::{
    copy_range, push_be16, push_be32, push_be64, push_le16, read_be16, read_be32, read_be64,
};

fn packet(channel: u8, flags: u8, final_length: Option<u32>, payload: &[u8]) -> Packet {
    Packet { channel, flags, final_length, payload: payload.to_vec() }
}

fn same(a: &Packet, b: &Packet) -> bool {
    a.channel == b.channel
        && a.flags == b.flags
        && a.final_length == b.final_length
        && a.payload == b.payload
}

#[test]
fn numbers_are_written_and_read_back() {
    let mut out: Vec<u8> = vec![0xAA];
    push_be16(&mut out, 0x0102);
    push_be32(&mut out, 0x03040506);
    push_be64(&mut out, 0x0708090A0B0C0D0E);
    push_le16(&mut out, 0x1122);
    assert_eq!(
        out,
        vec![0xAA, 1, 2, 3, 4, 5, 6, 7, 8, 9, 10, 11, 12, 13, 14, 0x22, 0x11]
    );
    assert_eq!(read_be16(&out, 1), 0x0102);
    assert_eq!(read_be32(&out, 3), 0x03040506);
    assert_eq!(read_be64(&out, 7), 0x0708090A0B0C0D0E);
    assert_eq!(copy_range(&out, 1, 3), vec![1, 2]);
    assert_eq!(copy_range(&out, 4, 4), Vec::<u8>::new());
}

#[test]
fn frame_of_a_full_packet() {
    let p = packet(2, 0x0B, None, &[0x80, 0x01, 0x55]);
    assert_eq!(p.transmit(), vec![2, 0x0B, 0, 3, 0x80, 0x01, 0x55]);
    assert_eq!(p.message_id(), 0x8001);
}

#[test]
fn frame_of_a_first_packet_has_the_total_length() {
    let p = packet(1, 9, Some(0x00012345), &[7; 2]);
    assert_eq!(p.transmit(), vec![1, 9, 0, 2, 0, 1, 0x23, 0x45, 7, 7]);
}

#[test]
fn frames_are_read_back_as_packets() {
    let sent = vec![
        packet(0, FRAME_TYPE_FULL, None, &[0, 1, 0, 1, 0, 6]),
        packet(3, FRAME_TYPE_FIRST | ENCRYPTED, Some(70000), &[9; 300]),
        packet(3, ENCRYPTED, None, &[8; 300]),
        packet(3, FRAME_TYPE_LAST | ENCRYPTED, None, &[]),
    ];
    let mut rbuf: VecDeque<u8> = VecDeque::new();
    for p in &sent {
        append_all(&mut rbuf, &p.transmit());
    }
    append_all(&mut rbuf, &[5, 3, 0]);
    let got = endpoint_reader(&mut rbuf);
    assert_eq!(got.len(), sent.len());
    for i in 0..sent.len() {
        assert!(same(&sent[i], &got[i]));
    }
    assert_eq!(rbuf, VecDeque::from(vec![5, 3, 0]));
}

#[test]
fn how_the_stream_is_cut_into_reads_does_not_matter() {
    let sent = vec![
        packet(1, 9, Some(12), &[1, 2, 3, 4, 5]),
        packet(1, 10, None, &[6, 7]),
        packet(0, 3, None, &[0, 11]),
    ];
    let mut stream: Vec<u8> = Vec::new();
    for p in &sent {
        stream.extend_from_slice(&p.transmit());
    }
    for cut in 0..=stream.len() {
        let mut rbuf: VecDeque<u8> = VecDeque::new();
        append_all(&mut rbuf, &stream[..cut]);
        let mut got = endpoint_reader(&mut rbuf);
        append_all(&mut rbuf, &stream[cut..]);
        got.append(&mut endpoint_reader(&mut rbuf));
        assert_eq!(got.len(), 3);
        for i in 0..3 {
            assert!(same(&sent[i], &got[i]));
        }
        assert!(rbuf.is_empty());
    }
}

#[test]
fn a_first_frame_waits_for_its_longer_header() {
    let mut rbuf: VecDeque<u8> = VecDeque::from(vec![1, 9, 0, 0, 0, 0, 1]);
    assert!(rbuf.len() >= HEADER_LENGTH);
    assert!(endpoint_reader(&mut rbuf).is_empty());
    assert_eq!(rbuf.len(), 7);
    rbuf.push_back(4);
    let got = endpoint_reader(&mut rbuf);
    assert_eq!(got.len(), 1);
    assert_eq!(got[0].final_length, Some(260));
    assert!(got[0].payload.is_empty());
}

#[test]
fn an_empty_frame_is_a_packet() {
    let mut rbuf: VecDeque<u8> = VecDeque::from(vec![4, 3, 0, 0]);
    let got = endpoint_reader(&mut rbuf);
    assert_eq!(got.len(), 1);
    assert!(same(&got[0], &packet(4, 3, None, &[])));
}

#[test]
fn reads_go_to_the_end_of_the_buffer() {
    let mut rbuf: VecDeque<u8> = VecDeque::from(vec![1]);
    assert_eq!(read_input_data(&mut rbuf, InputKind::Usb, &[2, 3, 4], 2), Ok(2));
    assert_eq!(rbuf, VecDeque::from(vec![1, 2, 3]));
    assert_eq!(read_input_data(&mut rbuf, InputKind::Endpoint, &[9], 0), Ok(0));
    assert_eq!(read_input_data(&mut rbuf, InputKind::Usb, &[9], 0), Ok(0));
    assert_eq!(rbuf.len(), 3);
}

#[test]
fn a_closed_connection_is_an_error() {
    let mut rbuf: VecDeque<u8> = VecDeque::from(vec![1]);
    assert_eq!(
        read_input_data(&mut rbuf, InputKind::Tcp, &[9, 9], 0),
        Err(ReadError::Eof)
    );
    assert_eq!(rbuf, VecDeque::from(vec![1]));
    assert_eq!(read_input_data(&mut rbuf, InputKind::Tcp, &[9, 9], 2), Ok(2));
}

#[test]
fn the_front_of_a_queue_is_taken_off() {
    let mut queue: VecDeque<u8> = VecDeque::from(vec![1, 2, 3]);
    assert_eq!(take_front(&mut queue, 2), vec![1, 2]);
    assert_eq!(queue, VecDeque::from(vec![3]));
    assert!(take_front(&mut queue, 0).is_empty());
}

#[test]
fn the_engine_reads_what_the_peer_sent() {
    let mut buf = SslStreams::new();
    assert_eq!(buf.write_from(&[1, 2, 3]), 3);
    assert_eq!(buf.read(2), vec![1, 2]);
    assert_eq!(buf.read(10), vec![3]);
    assert!(buf.read(1).is_empty());
    assert_eq!(buf.write(&[4, 5]), 2);
    let mut out = vec![9];
    assert_eq!(buf.read_to(&mut out), 2);
    assert_eq!(out, vec![9, 4, 5]);
    assert!(buf.server_stream.is_empty());
}

#[test]
fn tls_data_of_the_handshake_arrives() {
    let mut here = SslStreams::new();
    let mut there = SslStreams::new();
    here.write(&[0x16, 0x03, 0x01]);
    let p = ssl_encapsulate(&mut here);
    assert!(same(&p, &packet(0, 3, None, &[0, 3, 0x16, 0x03, 0x01])));
    assert!(here.server_stream.is_empty());
    p.ssl_decapsulate_write(&mut there);
    assert_eq!(there.client_stream, VecDeque::from(vec![0x16, 0x03, 0x01]));
    // Another message does not reach the engine.
    packet(0, 3, None, &[0, 4, 7]).ssl_decapsulate_write(&mut there);
    assert_eq!(there.client_stream.len(), 3);
}

#[test]
fn only_encrypted_payloads_pass_the_engine() {
    let mut buf = SslStreams::new();
    buf.write(&[0xC0, 0xDE]);
    let mut plain = packet(1, FRAME_TYPE_FULL, None, &[1]);
    assert!(!plain.is_encrypted());
    assert_eq!(plain.encrypt_payload(true, &mut buf), Ok(()));
    assert_eq!(plain.payload, vec![1]);
    assert_eq!(buf.server_stream.len(), 2);
    assert!(!plain.decrypt_input(&mut buf));
    assert_eq!(plain.decrypt_payload(Some(vec![5])), Ok(()));
    assert_eq!(plain.payload, vec![1]);

    let mut secret = packet(1, FRAME_TYPE_FULL | ENCRYPTED, None, &[1]);
    assert!(secret.is_encrypted());
    assert_eq!(secret.encrypt_payload(true, &mut buf), Ok(()));
    assert_eq!(secret.payload, vec![0xC0, 0xDE]);
    assert!(buf.server_stream.is_empty());
    assert!(secret.decrypt_input(&mut buf));
    assert_eq!(buf.client_stream, VecDeque::from(vec![0xC0, 0xDE]));
    assert_eq!(secret.decrypt_payload(Some(vec![1])), Ok(()));
    assert_eq!(secret.payload, vec![1]);
}

#[test]
fn a_failed_engine_leaves_the_packet() {
    let mut buf = SslStreams::new();
    buf.write(&[0xC0, 0xDE]);
    let before = packet(5, FRAME_TYPE_FULL | ENCRYPTED, Some(9), &[1, 2]);
    let mut secret = packet(5, FRAME_TYPE_FULL | ENCRYPTED, Some(9), &[1, 2]);
    assert_eq!(secret.encrypt_payload(false, &mut buf), Err(EngineError::Write));
    assert!(same(&secret, &before));
    assert_eq!(buf.server_stream, VecDeque::from(vec![0xC0, 0xDE]));
    assert_eq!(secret.decrypt_payload(None), Err(EngineError::Read));
    assert!(same(&secret, &before));
    // The engine has no part in a plain packet.
    let mut plain = packet(5, FRAME_TYPE_FULL, None, &[1, 2]);
    assert_eq!(plain.encrypt_payload(false, &mut buf), Ok(()));
    assert_eq!(plain.decrypt_payload(None), Ok(()));
    assert!(same(&plain, &packet(5, FRAME_TYPE_FULL, None, &[1, 2])));
    assert_eq!(buf.server_stream.len(), 2);
}

#[test]
fn a_payload_survives_both_engines() {
    // The engines of this session turn every byte around.
    let turn = |v: &[u8]| v.iter().map(|b| !b).collect::<Vec<u8>>();
    let (mut here, mut there) = (SslStreams::new(), SslStreams::new());
    let before = packet(7, FRAME_TYPE_FIRST | ENCRYPTED, Some(300), &[1, 2, 3]);
    let mut p = packet(7, FRAME_TYPE_FIRST | ENCRYPTED, Some(300), &[1, 2, 3]);
    here.write(&turn(&p.payload));
    assert_eq!(p.encrypt_payload(true, &mut here), Ok(()));
    assert_eq!(p.payload, vec![0xFE, 0xFD, 0xFC]);
    assert!(here.server_stream.is_empty());
    assert!(p.decrypt_input(&mut there));
    let records = there.read(16);
    assert_eq!(p.decrypt_payload(Some(turn(&records))), Ok(()));
    assert!(same(&p, &before));
    assert!(there.client_stream.is_empty());
}

#[test]
fn writes_come_out_in_order() {
    let mut buf = SslStreams::new();
    buf.write_from(&[77]);
    buf.write(&[1]);
    assert_eq!(buf.write(&[2, 3]), 2);
    assert_eq!(buf.write(&[4]), 1);
    let mut out = vec![9];
    assert_eq!(buf.read_to(&mut out), 4);
    assert_eq!(out, vec![9, 1, 2, 3, 4]);
    assert!(buf.server_stream.is_empty());
    assert_eq!(buf.client_stream, VecDeque::from(vec![77]));
    buf.write_from(&[78, 79]);
    assert_eq!(buf.read(2), vec![77, 78]);
    assert_eq!(buf.read(2), vec![79]);
}

#[test]
fn clones_of_a_buffer_share_its_streams() {
    let mut mem = SslMemory::new();
    let m = SslMemBuf::new(&mut mem);
    let other = SslMemBuf::new(&mut mem);
    let (writer, reader) = (m.clone(), m.clone());
    assert!(mem.holds(m) && mem.holds(other));
    assert!(!SslMemory::new().holds(m));
    m.write_from(&mut mem, &[77]);
    other.write(&mut mem, &[50]);
    m.write(&mut mem, &[1]);
    assert_eq!(writer.write(&mut mem, &[2, 3]), 2);
    assert_eq!(m.write(&mut mem, &[4]), 1);
    let mut out = vec![9];
    assert_eq!(reader.read_to(&mut mem, &mut out), 4);
    assert_eq!(out, vec![9, 1, 2, 3, 4]);
    for clone in [m, writer, reader] {
        let streams = clone.lock(&mut mem);
        assert!(streams.server_stream.is_empty());
        assert_eq!(streams.client_stream, VecDeque::from(vec![77]));
    }
    assert_eq!(other.lock(&mut mem).server_stream, VecDeque::from(vec![50]));
}

#[test]
fn clones_of_a_buffer_share_what_the_peer_sent() {
    let mut mem = SslMemory::new();
    let m = SslMemBuf::new(&mut mem);
    let engine = m.clone();
    assert_eq!(m.write_from(&mut mem, &[1, 2]), 2);
    assert_eq!(engine.write_from(&mut mem, &[3]), 1);
    assert_eq!(engine.read(&mut mem, 2), vec![1, 2]);
    assert_eq!(m.read(&mut mem, 2), vec![3]);
    assert_eq!(engine.read(&mut mem, 2), Vec::<u8>::new());
}

#[test]
fn two_buffers_are_locked_together() {
    let mut mem = SslMemory::new();
    let a = SslMemBuf::new(&mut mem);
    let b = SslMemBuf::new(&mut mem);
    let c = SslMemBuf::new(&mut mem);
    {
        let (x, y) = mem.lock_both(a, c);
        x.write(&[1]);
        y.write(&[3]);
    }
    {
        let (x, y) = mem.lock_both(b, a);
        x.write(&[2]);
        y.write(&[4]);
    }
    let mut out = Vec::new();
    for buf in [a, b, c] {
        buf.read_to(&mut mem, &mut out);
    }
    assert_eq!(out, vec![1, 4, 2, 3]);
}

#[test]
fn a_command_is_not_done_at_first() {
    assert_eq!(CmdStatus::default().status, CommandState::NotDone);
}
