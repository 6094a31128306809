use aes::cipher::{AsyncStreamCipher, BlockEncryptMut, KeyIvInit};
use snmp_trapd::auth::AuthType;
use snmp_trapd::cache::{EngineCache, KeyCache};
use snmp_trapd::cipher::CipherType;
use snmp_trapd::error::Error;
use snmp_trapd::message::{
    decode_message, encode_usm, encode_v3, HeaderData, Message, Pdu, ScopedPdu, ScopedPduData,
    UsmSecurityParameters, V3Message,
};

const ENGINE_ID: [u8; 13] =
    [0x80, 0x00, 0x1f, 0x88, 0x80, 0xe9, 0x63, 0x00, 0x00, 0xd6, 0x1f, 0xe6, 0x7c];
const NOW: u64 = 1_000_000;
const SALT: [u8; 8] = [1, 2, 3, 4, 5, 6, 7, 8];

fn int_bytes(v: u32) -> Vec<u8> {
    let mut b = v.to_be_bytes().to_vec();
    while b.len() > 1 && b[0] == 0 && b[1] < 0x80 {
        b.remove(0);
    }
    if b[0] >= 0x80 {
        b.insert(0, 0);
    }
    b
}

fn tlv(tag: u8, content: &[u8]) -> Vec<u8> {
    let mut v = vec![tag];
    let n = content.len();
    if n < 0x80 {
        v.push(n as u8);
    } else if n < 0x100 {
        v.push(0x81);
        v.push(n as u8);
    } else {
        v.push(0x82);
        v.push((n >> 8) as u8);
        v.push(n as u8);
    }
    v.extend_from_slice(content);
    v
}

fn header(flags: u8) -> HeaderData {
    HeaderData {
        msg_id: vec![0x2a],
        max_size: vec![0x05, 0xdc],
        flags: vec![flags],
        security_model: vec![0x03],
    }
}

fn usm(boots: u32, time: u32, auth: Vec<u8>, privacy: Vec<u8>) -> UsmSecurityParameters {
    UsmSecurityParameters {
        authoritative_engine_id: ENGINE_ID.to_vec(),
        authoritative_engine_boots: int_bytes(boots),
        authoritative_engine_time: int_bytes(time),
        user_name: b"auser".to_vec(),
        authentication_parameters: auth,
        privacy_parameters: privacy,
    }
}

fn varbinds() -> Vec<u8> {
    vec![
        0x30, 0x0d, 0x06, 0x08, 0x2b, 0x06, 0x01, 0x02, 0x01, 0x01, 0x03, 0x00, 0x43, 0x01, 0x2a,
    ]
}

fn scoped_pdu() -> ScopedPdu {
    ScopedPdu {
        context_engine_id: ENGINE_ID.to_vec(),
        context_name: Vec::new(),
        data: Pdu {
            tag: 0xa7,
            request_id: vec![0x11],
            error_status: vec![0],
            error_index: vec![0],
            variable_bindings: varbinds(),
        },
    }
}

fn scoped_pdu_bytes() -> Vec<u8> {
    let mut pdu = Vec::new();
    pdu.extend(tlv(0x02, &[0x11]));
    pdu.extend(tlv(0x02, &[0]));
    pdu.extend(tlv(0x02, &[0]));
    pdu.extend(tlv(0x30, &varbinds()));
    let mut body = Vec::new();
    body.extend(tlv(0x04, &ENGINE_ID));
    body.extend(tlv(0x04, &[]));
    body.extend(tlv(0xa7, &pdu));
    tlv(0x30, &body)
}

fn auth_key() -> Vec<u8> {
    AuthType::SHA128.gen_key_iter(b"authkey12", &ENGINE_ID)
}

/// Builds a v3 packet and signs it with HMAC-SHA-1-96 under `authkey12`.
fn signed_packet(flags: u8, boots: u32, time: u32, privacy: Vec<u8>, data: ScopedPduData) -> Vec<u8> {
    let h = header(flags);
    let zero = encode_usm(&usm(boots, time, vec![0u8; 12], privacy.clone())).unwrap();
    let payload = encode_v3(&h, &zero, &data).unwrap();
    let mac = AuthType::SHA128.hmac(&auth_key(), &payload);
    let signed = encode_usm(&usm(boots, time, mac[..12].to_vec(), privacy)).unwrap();
    encode_v3(&h, &signed, &data).unwrap()
}

fn aes128_encrypt(boots: u32, time: u32, plain: &[u8]) -> Vec<u8> {
    let key = AuthType::SHA128.gen_key_iter(b"privkey12", &ENGINE_ID);
    let mut iv = boots.to_be_bytes().to_vec();
    iv.extend_from_slice(&time.to_be_bytes());
    iv.extend_from_slice(&SALT);
    let mut buf = plain.to_vec();
    cfb_mode::Encryptor::<aes::Aes128>::new_from_slices(&key[..16], &iv).unwrap().encrypt(&mut buf);
    buf
}

fn decode_v3(packet: &[u8]) -> V3Message {
    match decode_message(packet) {
        Ok(Message::V3(m)) => m,
        _ => panic!("expected a v3 message"),
    }
}

fn process_auth_no_priv(m: &mut V3Message, keys: &KeyCache, engines: &EngineCache) -> Result<(), Error> {
    m.process(1, Some(AuthType::SHA128), Some(b"authkey12"), None, None, false, keys, engines, NOW)
}

fn process_auth_priv(m: &mut V3Message, keys: &KeyCache, engines: &EngineCache) -> Result<(), Error> {
    m.process(
        3,
        Some(AuthType::SHA128),
        Some(b"authkey12"),
        Some(CipherType::AES128),
        Some(b"privkey12"),
        false,
        keys,
        engines,
        NOW,
    )
}

#[test]
fn v3_auth_no_priv_sha1() {
    let packet = signed_packet(0x05, 1, 500, Vec::new(), ScopedPduData::CleartextPdu(scoped_pdu()));
    let mut m = decode_v3(&packet);
    let (keys, engines) = (KeyCache::new(), EngineCache::new());
    assert_eq!(process_auth_no_priv(&mut m, &keys, &engines), Ok(()));
    match &m.scoped_data {
        ScopedPduData::CleartextPdu(s) => {
            assert_eq!(s.data.request_id, vec![0x11]);
            assert_eq!(s.data.variable_bindings, varbinds());
        },
        _ => panic!("scoped data stays cleartext"),
    }
    let entry = engines.get(&ENGINE_ID).unwrap();
    assert_eq!((entry.engine_boots, entry.engine_time, entry.last_access), (1, 500, NOW));
}

#[test]
fn v3_auth_priv_sha1_aes128() {
    let ct = aes128_encrypt(1, 500, &scoped_pdu_bytes());
    let packet = signed_packet(0x07, 1, 500, SALT.to_vec(), ScopedPduData::EncryptedPdu(ct));
    let mut m = decode_v3(&packet);
    let (keys, engines) = (KeyCache::new(), EngineCache::new());
    assert_eq!(process_auth_priv(&mut m, &keys, &engines), Ok(()));
    match &m.scoped_data {
        ScopedPduData::CleartextPdu(s) => {
            assert_eq!(s.context_engine_id, ENGINE_ID.to_vec());
            assert_eq!(s.data.tag, 0xa7);
            assert_eq!(s.data.variable_bindings, varbinds());
        },
        _ => panic!("scoped data becomes cleartext"),
    }
}

#[test]
fn v3_no_auth_no_priv_accepted() {
    let h = header(0x04);
    let sp = encode_usm(&usm(1, 500, Vec::new(), Vec::new())).unwrap();
    let packet = encode_v3(&h, &sp, &ScopedPduData::CleartextPdu(scoped_pdu())).unwrap();
    let mut m = decode_v3(&packet);
    let (keys, engines) = (KeyCache::new(), EngineCache::new());
    assert_eq!(m.process(0, None, None, None, None, false, &keys, &engines, NOW), Ok(()));
    assert!(engines.get(&ENGINE_ID).is_none());
}

#[test]
fn v3_undecodable_plaintext() {
    let ct = aes128_encrypt(1, 500, &[0x04, 0x02, 0xff, 0xff, 0x00, 0x00]);
    let packet = signed_packet(0x07, 1, 500, SALT.to_vec(), ScopedPduData::EncryptedPdu(ct.clone()));
    let mut m = decode_v3(&packet);
    let (keys, engines) = (KeyCache::new(), EngineCache::new());
    assert_eq!(process_auth_priv(&mut m, &keys, &engines), Err(Error::DecryptionFailure));
    match &m.scoped_data {
        ScopedPduData::EncryptedPdu(c) => assert_eq!(c, &ct),
        _ => panic!("scoped data stays encrypted"),
    }
}

#[test]
fn v3_missing_privacy_credentials() {
    let ct = aes128_encrypt(1, 500, &scoped_pdu_bytes());
    let packet = signed_packet(0x07, 1, 500, SALT.to_vec(), ScopedPduData::EncryptedPdu(ct));
    let mut m = decode_v3(&packet);
    let (keys, engines) = (KeyCache::new(), EngineCache::new());
    let r = m.process(3, Some(AuthType::SHA128), Some(b"authkey12"), None, None, false, &keys, &engines, NOW);
    assert_eq!(r, Err(Error::DecryptionFailure));
}

#[test]
fn v3_replay_out_of_window() {
    let (keys, engines) = (KeyCache::new(), EngineCache::new());
    let first = signed_packet(0x05, 1, 500, Vec::new(), ScopedPduData::CleartextPdu(scoped_pdu()));
    let mut m = decode_v3(&first);
    assert_eq!(process_auth_no_priv(&mut m, &keys, &engines), Ok(()));
    let replay = signed_packet(0x05, 1, 300, Vec::new(), ScopedPduData::CleartextPdu(scoped_pdu()));
    let mut m2 = decode_v3(&replay);
    assert_eq!(process_auth_no_priv(&mut m2, &keys, &engines), Err(Error::NotInTimeWindowError));
}

#[test]
fn v3_tampered_ciphertext() {
    let ct = aes128_encrypt(1, 500, &scoped_pdu_bytes());
    let mut packet = signed_packet(0x07, 1, 500, SALT.to_vec(), ScopedPduData::EncryptedPdu(ct));
    let last = packet.len() - 1;
    packet[last] ^= 0x01;
    let mut m = decode_v3(&packet);
    let (keys, engines) = (KeyCache::new(), EngineCache::new());
    assert_eq!(process_auth_priv(&mut m, &keys, &engines), Err(Error::AuthenticationFailure));
    assert!(matches!(m.scoped_data, ScopedPduData::EncryptedPdu(_)));
}

#[test]
fn v3_priv_without_auth_refused() {
    for min in 0..4u8 {
        let packet = signed_packet(0x02, 1, 500, SALT.to_vec(), ScopedPduData::EncryptedPdu(vec![0; 16]));
        let mut m = decode_v3(&packet);
        assert_eq!(m.security_level(min), Err(Error::InvalidSecurityLevel));
        let (keys, engines) = (KeyCache::new(), EngineCache::new());
        let r = m.process(min, None, None, None, None, true, &keys, &engines, NOW);
        assert_eq!(r, Err(Error::InvalidSecurityLevel));
    }
}

#[test]
fn v3_level_below_minimum() {
    let packet = signed_packet(0x00, 1, 500, Vec::new(), ScopedPduData::CleartextPdu(scoped_pdu()));
    let mut m = decode_v3(&packet);
    let (keys, engines) = (KeyCache::new(), EngineCache::new());
    assert_eq!(process_auth_no_priv(&mut m, &keys, &engines), Err(Error::InvalidSecurityLevel));
    assert_eq!(m.security_level(0), Ok(0));
}

#[test]
fn v3_missing_flags_and_credentials() {
    let h = HeaderData { msg_id: vec![1], max_size: vec![1], flags: Vec::new(), security_model: vec![3] };
    let sp = encode_usm(&usm(1, 1, vec![0u8; 12], Vec::new())).unwrap();
    let packet = encode_v3(&h, &sp, &ScopedPduData::CleartextPdu(scoped_pdu())).unwrap();
    let mut m = decode_v3(&packet);
    let (keys, engines) = (KeyCache::new(), EngineCache::new());
    assert_eq!(process_auth_no_priv(&mut m, &keys, &engines), Err(Error::InvalidV3Flags));
    let signed = signed_packet(0x05, 1, 500, Vec::new(), ScopedPduData::CleartextPdu(scoped_pdu()));
    let mut m2 = decode_v3(&signed);
    let r = m2.process(1, Some(AuthType::SHA128), None, None, None, false, &keys, &engines, NOW);
    assert_eq!(r, Err(Error::AuthenticationFailure));
}

#[test]
fn v3_wrong_auth_param_length() {
    let h = header(0x05);
    let sp = encode_usm(&usm(1, 500, vec![0u8; 11], Vec::new())).unwrap();
    let packet = encode_v3(&h, &sp, &ScopedPduData::CleartextPdu(scoped_pdu())).unwrap();
    let mut m = decode_v3(&packet);
    let (keys, engines) = (KeyCache::new(), EngineCache::new());
    assert_eq!(process_auth_no_priv(&mut m, &keys, &engines), Err(Error::AuthenticationError));
}

#[test]
fn v3_bad_usm_parameters() {
    let h = header(0x05);
    let packet = encode_v3(&h, &[0x30, 0x01, 0x00], &ScopedPduData::CleartextPdu(scoped_pdu())).unwrap();
    assert!(matches!(decode_message(&packet), Err(Error::USMParamDecodeError)));
}

#[test]
fn v3_forged_mac_fails() {
    let mut m = decode_v3(&signed_packet(0x05, 1, 500, Vec::new(), ScopedPduData::CleartextPdu(scoped_pdu())));
    match &mut m.security_parameters {
        snmp_trapd::message::SecurityParameters::USM(u) => u.authentication_parameters[0] ^= 0x80,
    }
    assert_eq!(m.authenticate(AuthType::SHA128, &auth_key()), Err(Error::AuthenticationFailure));
}

#[test]
fn des_round_trip() {
    let plain = scoped_pdu_bytes();
    let key = AuthType::MD5.gen_key(b"privkey12", &ENGINE_ID, CipherType::DES.key_extension(), 16);
    let iv: Vec<u8> = key[8..16].iter().zip(SALT.iter()).map(|(a, b)| a ^ b).collect();
    let mut buf = plain.clone();
    buf.resize((plain.len() + 7) / 8 * 8, 0);
    let n = plain.len();
    cbc::Encryptor::<des::Des>::new_from_slices(&key[..8], &iv)
        .unwrap()
        .encrypt_padded_mut::<cbc::cipher::block_padding::ZeroPadding>(&mut buf, n)
        .unwrap();
    let mut out = buf.clone();
    assert_eq!(CipherType::DES.decrypt_with_key(&mut out, &key, 1, 2, &SALT), Ok(()));
    assert_eq!(&out[..n], &plain[..]);
    assert!(out[n..].iter().all(|b| *b == 0));
    let mut odd = buf[..buf.len() - 1].to_vec();
    assert_eq!(
        CipherType::DES.decrypt_with_key(&mut odd, &key, 1, 2, &SALT),
        Err(Error::CipherDESUnpadError)
    );
    // alignment is checked before the salt
    assert_eq!(
        CipherType::DES.decrypt_with_key(&mut odd, &key, 1, 2, &SALT[..4]),
        Err(Error::CipherDESUnpadError)
    );
    let mut aligned = buf.clone();
    assert_eq!(
        CipherType::DES.decrypt_with_key(&mut aligned, &key, 1, 2, &SALT[..4]),
        Err(Error::DecryptionFailure)
    );
    assert_eq!(aligned, buf);
}

fn aes_round_trip(cipher: CipherType) {
    let plain = scoped_pdu_bytes();
    let key = AuthType::SHA128.gen_key(b"privkey12", &ENGINE_ID, cipher.key_extension(), cipher.key_len());
    let mut iv = 7u32.to_be_bytes().to_vec();
    iv.extend_from_slice(&99u32.to_be_bytes());
    iv.extend_from_slice(&SALT);
    let mut buf = plain.clone();
    match cipher.key_len() {
        16 => cfb_mode::Encryptor::<aes::Aes128>::new_from_slices(&key, &iv).unwrap().encrypt(&mut buf),
        24 => cfb_mode::Encryptor::<aes::Aes192>::new_from_slices(&key, &iv).unwrap().encrypt(&mut buf),
        _ => cfb_mode::Encryptor::<aes::Aes256>::new_from_slices(&key, &iv).unwrap().encrypt(&mut buf),
    }
    assert_ne!(buf, plain);
    assert_eq!(cipher.decrypt(AuthType::SHA128, &mut buf, b"privkey12", 7, 99, &ENGINE_ID, &SALT), Ok(()));
    assert_eq!(buf, plain);
}

#[test]
fn aes_round_trips() {
    for c in [CipherType::AES128, CipherType::AES192, CipherType::AES256, CipherType::AES192C, CipherType::AES256C] {
        aes_round_trip(c);
    }
}

#[test]
fn cipher_errors() {
    let key = vec![0u8; 16];
    let mut buf = vec![1u8; 16];
    assert_eq!(CipherType::AES128.decrypt_with_key(&mut buf, &key, 1, 2, &[0u8; 7]), Err(Error::DecryptionFailure));
    assert_eq!(buf, vec![1u8; 16]);
    let key24 = vec![0u8; 24];
    assert_eq!(CipherType::TDES.decrypt_with_key(&mut buf, &key24, 1, 2, &SALT), Err(Error::DecryptionFailure));
}

#[test]
fn aes_iv_layout() {
    let iv = CipherType::AES128.aes_iv(0x01020304, 0x0a0b0c0d, &SALT);
    assert_eq!(iv, vec![1, 2, 3, 4, 0x0a, 0x0b, 0x0c, 0x0d, 1, 2, 3, 4, 5, 6, 7, 8]);
}
