use udp_transport::acquire::SocketAcquirer;
use udp_transport::codec::ZstdHolder;
use udp_transport::error::UdpError;
use udp_transport::msg::UdpMsg;

#[test]
fn ping_encodes_to_tag_and_little_endian_seq() {
    let bytes = UdpMsg::Ping { seq: 1 }.encode().unwrap();
    assert_eq!(bytes, vec![0, 0, 0, 0, 1, 0, 0, 0]);
}

#[test]
fn pong_encodes_to_tag_and_little_endian_seq() {
    let bytes = UdpMsg::Pong { seq: 0x0102_0304 }.encode().unwrap();
    assert_eq!(bytes, vec![1, 0, 0, 0, 4, 3, 2, 1]);
}

#[test]
fn data_encodes_with_length_prefix() {
    let bytes = UdpMsg::Data { bytes: vec![9, 8, 7] }.encode().unwrap();
    assert_eq!(bytes, vec![2, 0, 0, 0, 3, 0, 0, 0, 9, 8, 7]);
}

#[test]
fn decode_inverts_encode_on_ping() {
    let m = UdpMsg::Ping { seq: 0xDEAD_BEEF };
    let bytes = m.encode().unwrap();
    assert_eq!(UdpMsg::decode(&bytes).unwrap(), m);
}

#[test]
fn decode_inverts_encode_on_pong() {
    let m = UdpMsg::Pong { seq: 0 };
    let bytes = m.encode().unwrap();
    assert_eq!(UdpMsg::decode(&bytes).unwrap(), m);
}

#[test]
fn decode_inverts_encode_on_data() {
    let m = UdpMsg::Data { bytes: vec![1, 1, 2, 3, 5, 8, 13] };
    let bytes = m.encode().unwrap();
    assert_eq!(UdpMsg::decode(&bytes).unwrap(), m);
}

#[test]
fn decode_inverts_encode_on_empty_data() {
    let m = UdpMsg::Data { bytes: vec![] };
    let bytes = m.encode().unwrap();
    assert_eq!(bytes, vec![2, 0, 0, 0, 0, 0, 0, 0]);
    assert_eq!(UdpMsg::decode(&bytes).unwrap(), m);
}

#[test]
fn decode_rejects_short_input() {
    assert!(matches!(UdpMsg::decode(&vec![0, 0, 0]), Err(UdpError::Encoding)));
    assert!(matches!(UdpMsg::decode(&vec![]), Err(UdpError::Encoding)));
}

#[test]
fn decode_rejects_unknown_tag() {
    assert!(matches!(UdpMsg::decode(&vec![3, 0, 0, 0, 1, 0, 0, 0]), Err(UdpError::Encoding)));
}

#[test]
fn decode_rejects_trailing_bytes() {
    assert!(matches!(UdpMsg::decode(&vec![0, 0, 0, 0, 1, 0, 0, 0, 99]), Err(UdpError::Encoding)));
}

#[test]
fn decode_rejects_wrong_length_prefix() {
    // claims 5 payload bytes, carries 2
    assert!(matches!(UdpMsg::decode(&vec![2, 0, 0, 0, 5, 0, 0, 0, 1, 2]), Err(UdpError::Encoding)));
}

#[test]
fn acquirer_offers_adjacent_ports_until_budget_spent() {
    let mut a = SocketAcquirer::new(9000, 2);
    assert_eq!(a.next_port(), Some(9000));
    a.record_failure();
    assert_eq!(a.next_port(), Some(9001));
    a.record_failure();
    assert_eq!(a.next_port(), Some(9002));
    assert!(!a.exhausted());
    a.record_failure();
    assert_eq!(a.next_port(), None);
    assert!(a.exhausted());
    assert!(matches!(a.exhausted_error(), UdpError::BindExhausted { attempts: 2 }));
}

#[test]
fn acquirer_wraps_past_top_of_port_range() {
    let mut a = SocketAcquirer::new(65535, 1);
    assert_eq!(a.next_port(), Some(65535));
    a.record_failure();
    assert_eq!(a.next_port(), Some(0));
}

#[test]
fn acquirer_with_zero_budget_offers_only_preferred_port() {
    let mut a = SocketAcquirer::new(9000, 0);
    assert_eq!(a.next_port(), Some(9000));
    a.record_failure();
    assert_eq!(a.next_port(), None);
    assert!(matches!(a.exhausted_error(), UdpError::BindExhausted { attempts: 0 }));
}

#[test]
fn codec_pair_round_trips_a_block() {
    let mut holder = ZstdHolder::new();
    let data: Vec<u8> = (0..5000u32).map(|i| (i % 17) as u8).collect();
    let frame = holder.compress(&data, 7).unwrap();
    let back = holder.decompress(&frame, data.len()).unwrap();
    assert_eq!(back, data);
}

#[test]
fn codec_rejects_a_hint_smaller_than_the_content() {
    let mut holder = ZstdHolder::new();
    let data: Vec<u8> = vec![5; 4096];
    let frame = holder.compress(&data, 7).unwrap();
    assert!(matches!(holder.decompress(&frame, data.len() - 1), Err(UdpError::Codec)));
}
