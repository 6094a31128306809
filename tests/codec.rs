use snmp_trapd::ber::{push_tlv, read_tlv, read_u32};
use snmp_trapd::error::Error;
use snmp_trapd::message::{
    decode_message, encode_v2c, inform_response, read_scoped_pdu, read_usm, Message, Pdu,
    TAG_INFORM_REQUEST, TAG_RESPONSE,
};

fn varbind_list() -> Vec<u8> {
    // (1.3.6.1.2.1.1.3.0, TimeTicks 42)
    vec![
        0x30, 0x0d, 0x06, 0x08, 0x2b, 0x06, 0x01, 0x02, 0x01, 0x01, 0x03, 0x00, 0x43, 0x01, 0x2a,
    ]
}

fn inform_packet() -> Vec<u8> {
    let mut p = vec![0x30, 0x2a, 0x02, 0x01, 0x01, 0x04, 0x06];
    p.extend_from_slice(b"public");
    p.extend_from_slice(&[0xa6, 0x1d, 0x02, 0x04, 0x12, 0x34, 0x56, 0x78, 0x02, 0x01, 0x00]);
    p.extend_from_slice(&[0x02, 0x01, 0x00, 0x30, 0x0f]);
    p.extend_from_slice(&varbind_list());
    p
}

fn v1_trap_packet() -> Vec<u8> {
    let mut p = vec![0x30, 0x27, 0x02, 0x01, 0x00, 0x04, 0x06];
    p.extend_from_slice(b"public");
    p.extend_from_slice(&[0xa4, 0x1a]);
    p.extend_from_slice(&[0x06, 0x07, 0x2b, 0x06, 0x01, 0x04, 0x01, 0x8f, 0x51]);
    p.extend_from_slice(&[0x40, 0x04, 0xc0, 0xa8, 0x01, 0x01]);
    p.extend_from_slice(&[0x02, 0x01, 0x06, 0x02, 0x01, 0x01, 0x43, 0x01, 0x2a, 0x30, 0x00]);
    p
}

#[test]
fn tlv_short_and_long_lengths() {
    let data = [0x04, 0x03, 1, 2, 3, 0xff];
    assert_eq!(read_tlv(&data, 0, data.len()), Some((0x04, 2, 5)));
    let mut long = vec![0x04, 0x82, 0x01, 0x00];
    long.extend(std::iter::repeat(7u8).take(256));
    assert_eq!(read_tlv(&long, 0, long.len()), Some((0x04, 4, 260)));
    // indefinite length and truncated content are refused
    assert_eq!(read_tlv(&[0x30, 0x80, 0, 0], 0, 4), None);
    assert_eq!(read_tlv(&[0x04, 0x05, 1, 2], 0, 4), None);
    // high tag numbers are refused
    assert_eq!(read_tlv(&[0x1f, 0x01, 0], 0, 3), None);
}

#[test]
fn tlv_written_with_shortest_length() {
    let mut out = Vec::new();
    push_tlv(&mut out, 0x04, &[9u8; 200]);
    assert_eq!(&out[..3], &[0x04, 0x81, 200]);
    let mut out2 = Vec::new();
    push_tlv(&mut out2, 0x04, &[9u8; 300]);
    assert_eq!(&out2[..4], &[0x04, 0x82, 0x01, 0x2c]);
    assert_eq!(read_tlv(&out2, 0, out2.len()), Some((0x04, 4, 304)));
}

#[test]
fn integer_values() {
    assert_eq!(read_u32(&[0x00], 0, 1), Some(0));
    assert_eq!(read_u32(&[0x7f, 0xff, 0xff, 0xff], 0, 4), Some(0x7fff_ffff));
    assert_eq!(read_u32(&[0x00, 0xff, 0xff, 0xff, 0xff], 0, 5), Some(u32::MAX));
    assert_eq!(read_u32(&[0x01, 0x00, 0x00, 0x00, 0x00], 0, 5), None);
    assert_eq!(read_u32(&[0x80], 0, 1), None);
    assert_eq!(read_u32(&[], 0, 0), None);
}

#[test]
fn v1_trap_decodes_without_response() {
    match decode_message(&v1_trap_packet()) {
        Ok(Message::V1(m)) => {
            assert_eq!(m.community, b"public".to_vec());
            assert_eq!(m.pdu_tag, 0xa4);
        },
        _ => panic!("expected a v1 message"),
    }
}

#[test]
fn v1_malformed_trap_refused() {
    let mut p = v1_trap_packet();
    // agent-addr of three octets instead of four
    p[25] = 0x03;
    p.remove(29);
    p[1] -= 1;
    p[14] -= 1;
    assert!(matches!(decode_message(&p), Err(Error::ASNDecodeError)));
    // a v2 Trap tag is not a v1 PDU
    let mut q = v1_trap_packet();
    q[13] = 0xa7;
    assert!(matches!(decode_message(&q), Err(Error::ASNDecodeError)));
}

#[test]
fn v2c_inform_gets_response() {
    let packet = inform_packet();
    let m = match decode_message(&packet) {
        Ok(Message::V2C(m)) => m,
        _ => panic!("expected a v2c message"),
    };
    assert_eq!(m.pdu.tag, TAG_INFORM_REQUEST);
    assert_eq!(m.pdu.request_id, vec![0x12, 0x34, 0x56, 0x78]);
    let resp = m.response.expect("an inform is acknowledged");
    let mut expected = packet.clone();
    expected[13] = 0xa2;
    assert_eq!(resp, expected);
    match decode_message(&resp) {
        Ok(Message::V2C(r)) => {
            assert_eq!(r.community, b"public".to_vec());
            assert_eq!(r.pdu.tag, TAG_RESPONSE);
            assert_eq!(r.pdu.request_id, vec![0x12, 0x34, 0x56, 0x78]);
            assert_eq!(r.pdu.error_status, vec![0]);
            assert_eq!(r.pdu.error_index, vec![0]);
            assert_eq!(r.pdu.variable_bindings, varbind_list());
            assert!(r.response.is_none());
        },
        _ => panic!("the response decodes as v2c"),
    }
}

#[test]
fn inform_response_clears_error_fields() {
    let p = Pdu {
        tag: TAG_INFORM_REQUEST,
        request_id: vec![0x05],
        error_status: vec![0x02],
        error_index: vec![0x01],
        variable_bindings: varbind_list(),
    };
    let resp = inform_response(b"private", &p).unwrap();
    let expected = encode_v2c(
        b"private",
        &Pdu {
            tag: TAG_RESPONSE,
            request_id: vec![0x05],
            error_status: vec![0],
            error_index: vec![0],
            variable_bindings: varbind_list(),
        },
    )
    .unwrap();
    assert_eq!(resp, expected);
}

#[test]
fn trap_v2_gets_no_response() {
    let mut packet = inform_packet();
    packet[13] = 0xa7;
    match decode_message(&packet) {
        Ok(Message::V2C(m)) => assert!(m.response.is_none()),
        _ => panic!("expected a v2c message"),
    }
}

#[test]
fn unknown_version_and_garbage() {
    let mut packet = inform_packet();
    packet[4] = 2;
    assert!(matches!(decode_message(&packet), Err(Error::UnknownSNMPVersion)));
    assert!(matches!(decode_message(&[0x01, 0x02, 0x03]), Err(Error::ASNDecodeError)));
    assert!(matches!(decode_message(&[]), Err(Error::ASNDecodeError)));
    let mut truncated = inform_packet();
    truncated.truncate(30);
    assert!(matches!(decode_message(&truncated), Err(Error::ASNDecodeError)));
}

#[test]
fn usm_parameters_decode() {
    let mut body = Vec::new();
    push_tlv(&mut body, 0x04, &[0x80, 0x00, 0x1f, 0x88, 0x01]);
    push_tlv(&mut body, 0x02, &[0x01]);
    push_tlv(&mut body, 0x02, &[0x00, 0x80]);
    push_tlv(&mut body, 0x04, b"auser");
    push_tlv(&mut body, 0x04, &[0u8; 12]);
    push_tlv(&mut body, 0x04, &[]);
    let mut sp = Vec::new();
    push_tlv(&mut sp, 0x30, &body);
    let u = read_usm(&sp).unwrap();
    assert_eq!(u.authoritative_engine_id, vec![0x80, 0x00, 0x1f, 0x88, 0x01]);
    assert_eq!(u.authoritative_engine_time, vec![0x00, 0x80]);
    assert_eq!(u.user_name, b"auser".to_vec());
    assert_eq!(u.authentication_parameters, vec![0u8; 12]);
    assert!(u.privacy_parameters.is_empty());
    assert!(read_usm(&sp[..sp.len() - 1]).is_none());
}

#[test]
fn scoped_pdu_ignores_padding() {
    let mut body = Vec::new();
    push_tlv(&mut body, 0x04, b"ctx");
    push_tlv(&mut body, 0x04, b"");
    let mut pdu_body = vec![0x02, 0x01, 0x07, 0x02, 0x01, 0x00, 0x02, 0x01, 0x00, 0x30, 0x0f];
    pdu_body.extend_from_slice(&varbind_list());
    push_tlv(&mut body, 0xa7, &pdu_body);
    let mut scoped = Vec::new();
    push_tlv(&mut scoped, 0x30, &body);
    scoped.extend_from_slice(&[0, 0, 0, 0, 0]);
    let s = read_scoped_pdu(&scoped).unwrap();
    assert_eq!(s.context_engine_id, b"ctx".to_vec());
    assert_eq!(s.data.tag, 0xa7);
    assert_eq!(s.data.request_id, vec![0x07]);
}
