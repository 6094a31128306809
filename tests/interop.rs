use rasn::types::{Integer, ObjectIdentifier, OctetString};
use rasn_snmp::{v2, v2c, v3};
use snmp_trapd::message::{decode_message, Message, TAG_INFORM_REQUEST};

fn varbind() -> v2::VarBind {
    v2::VarBind {
        name: ObjectIdentifier::new(vec![1, 3, 6, 1, 2, 1, 1, 3, 0]).unwrap(),
        value: v2::VarBindValue::Unspecified,
    }
}

fn message(data: v2::Pdus) -> v2c::Message<v2::Pdus> {
    v2c::Message { version: Integer::from(1), community: OctetString::from(b"public".to_vec()), data }
}

fn pdu(error_status: u32, error_index: u32) -> v2::Pdu {
    v2::Pdu { request_id: 0x12345678, error_status, error_index, variable_bindings: vec![varbind()] }
}

#[test]
fn inform_from_rasn_is_acknowledged_in_rasn_terms() {
    let inform = message(v2::Pdus::InformRequest(v2::InformRequest(pdu(5, 1))));
    let bytes = rasn::ber::encode(&inform).unwrap();
    let m = match decode_message(&bytes) {
        Ok(Message::V2C(m)) => m,
        _ => panic!("expected a v2c message"),
    };
    assert_eq!(m.pdu.tag, TAG_INFORM_REQUEST);
    let resp = m.response.expect("an inform is acknowledged");
    let decoded: v2c::Message<v2::Pdus> = rasn::ber::decode(&resp).unwrap();
    assert_eq!(decoded.community, OctetString::from(b"public".to_vec()));
    match decoded.data {
        v2::Pdus::Response(v2::Response(p)) => {
            assert_eq!(p.request_id, 0x12345678);
            assert_eq!(p.error_status, 0);
            assert_eq!(p.error_index, 0);
            assert_eq!(p.variable_bindings, vec![varbind()]);
        },
        _ => panic!("expected a Response PDU"),
    }
    let expected = rasn::ber::encode(&message(v2::Pdus::Response(v2::Response(pdu(0, 0))))).unwrap();
    assert_eq!(resp, expected);
}

#[test]
fn trap_from_rasn_decodes() {
    let trap = message(v2::Pdus::Trap(v2::Trap(pdu(0, 0))));
    let bytes = rasn::ber::encode(&trap).unwrap();
    match decode_message(&bytes) {
        Ok(Message::V2C(m)) => {
            assert_eq!(m.pdu.tag, 0xa7);
            assert!(m.response.is_none());
        },
        _ => panic!("expected a v2c message"),
    }
}

fn rasn_v3(auth_params: Vec<u8>) -> v3::Message {
    let usm = v3::USMSecurityParameters {
        authoritative_engine_id: OctetString::from(vec![0x80, 0x00, 0x1f, 0x88, 0x80, 0xe9, 0x63]),
        authoritative_engine_boots: Integer::from(3),
        authoritative_engine_time: Integer::from(12345),
        user_name: OctetString::from(b"auser".to_vec()),
        authentication_parameters: OctetString::from(auth_params),
        privacy_parameters: OctetString::from(Vec::new()),
    };
    let mut m = v3::Message {
        version: Integer::from(3),
        global_data: v3::HeaderData {
            message_id: Integer::from(77),
            max_size: Integer::from(65507),
            flags: OctetString::from(vec![0x05]),
            security_model: Integer::from(3),
        },
        security_parameters: OctetString::from(Vec::new()),
        scoped_data: v3::ScopedPduData::CleartextPdu(v3::ScopedPdu {
            engine_id: OctetString::from(vec![0x80, 0x00, 0x1f, 0x88, 0x80, 0xe9, 0x63]),
            name: OctetString::from(Vec::new()),
            data: v2::Pdus::Trap(v2::Trap(pdu(0, 0))),
        }),
    };
    assert!(m.encode_security_parameters(rasn::codec::Codec::Ber, &usm).is_ok());
    m
}

#[test]
fn v3_mac_input_matches_rasn_encoding() {
    let signed = rasn::ber::encode(&rasn_v3(vec![0xab; 12])).unwrap();
    let zeroed = rasn::ber::encode(&rasn_v3(vec![0; 12])).unwrap();
    let m = match decode_message(&signed) {
        Ok(Message::V3(m)) => m,
        _ => panic!("expected a v3 message"),
    };
    assert_eq!(m.usm().authentication_parameters, vec![0xab; 12]);
    assert_eq!(m.authentication_payload().unwrap(), zeroed);
}
