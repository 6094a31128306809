use snmp_trapd::auth::AuthType;
use snmp_trapd::cache::{EngineCache, KeyCache};
use snmp_trapd::cipher::CipherType;
use snmp_trapd::error::Error;
use snmp_trapd::parser::{community_check, parse_snmp_packet, Rejection};
use snmp_trapd::settings::{
    default_listening, default_num_cpus, parse_engine_id, Auth, Community, LogFormat, LogLevel,
    Settings, User,
};

fn user(name: &[u8]) -> User {
    User {
        username: name.to_vec(),
        no_auth: false,
        require_privacy: false,
        engine_id: None,
        auth_type: Some(AuthType::SHA128),
        auth_passphrase: Some(b"authkey12".to_vec()),
        privacy_protocol: None,
        privacy_passphrase: None,
        skip_timeliness_checks: false,
    }
}

fn settings_with_auth() -> Settings {
    let mut s = Settings::default();
    s.snmptrapd.auth = Auth {
        enable: true,
        community: vec![Community { name: b"public".to_vec() }],
        user: vec![user(b"auser")],
    };
    s
}

fn inform_packet(community: &[u8]) -> Vec<u8> {
    let mut body = vec![0x02, 0x01, 0x01, 0x04, community.len() as u8];
    body.extend_from_slice(community);
    body.extend_from_slice(&[0xa6, 0x0e, 0x02, 0x01, 0x07, 0x02, 0x01, 0x00, 0x02, 0x01, 0x00]);
    body.extend_from_slice(&[0x30, 0x03, 0x30, 0x01, 0x00]);
    let mut p = vec![0x30, body.len() as u8];
    p.extend(body);
    p
}

#[test]
fn defaults() {
    let s = Settings::default();
    assert!(s.parse_workers >= 1);
    assert_eq!(s.logger.level, LogLevel::LvlInfo);
    assert_eq!(s.logger.format, LogFormat::Console);
    assert_eq!(s.logger.level.name(), "info");
    assert!(!s.snmptrapd.auth.enable);
    assert_eq!(default_listening(), vec!["0.0.0.0:10162".to_string(), "[::]:10162".to_string()]);
    assert!(default_num_cpus() >= 1);
    assert!(s.is_valid());
}

#[test]
fn minimum_levels() {
    let mut u = user(b"u");
    assert_eq!(u.minimum_security_level(), 1);
    u.require_privacy = true;
    assert_eq!(u.minimum_security_level(), 3);
    u.no_auth = true;
    u.require_privacy = false;
    assert_eq!(u.minimum_security_level(), 0);
}

#[test]
fn user_rules() {
    assert!(user(b"auser").is_valid());
    assert!(!user(b"").is_valid());
    assert!(!user(&[b'x'; 33]).is_valid());
    let mut u = user(b"auser");
    u.auth_passphrase = Some(b"short".to_vec());
    assert!(!u.is_valid());
    let mut u = user(b"auser");
    u.privacy_protocol = Some(CipherType::AES128);
    assert!(!u.is_valid());
    u.privacy_passphrase = Some(b"privkey12".to_vec());
    assert!(u.is_valid());
    u.privacy_protocol = Some(CipherType::TDES);
    assert!(!u.is_valid());
    u.privacy_protocol = Some(CipherType::AES128);
    u.engine_id = Some(vec![1, 2, 3, 4]);
    assert!(!u.is_valid());
    let mut s = settings_with_auth();
    assert!(s.is_valid());
    s.snmptrapd.auth.community.push(Community { name: Vec::new() });
    assert!(!s.is_valid());
}

#[test]
fn lookups() {
    let s = settings_with_auth();
    assert!(s.snmptrapd.auth.is_community_allowed(b"public"));
    assert!(!s.snmptrapd.auth.is_community_allowed(b"private"));
    assert_eq!(s.snmptrapd.auth.get_user(b"auser").unwrap().username, b"auser".to_vec());
    assert!(s.snmptrapd.auth.get_user(b"other").is_none());
    assert_eq!(community_check(&s, b"private"), Err(Rejection::CommunityNotAllowed));
    assert_eq!(community_check(&Settings::default(), b"private"), Ok(()));
}

#[test]
fn engine_ids() {
    assert_eq!(parse_engine_id(b"0x80001f88AbcD"), Some(vec![0x80, 0x00, 0x1f, 0x88, 0xab, 0xcd]));
    assert_eq!(parse_engine_id(b"0x123"), None);
    assert_eq!(parse_engine_id(b"0xzz"), None);
    assert_eq!(parse_engine_id(b"engine"), Some(b"engine".to_vec()));
}

#[test]
fn packets_through_the_pipeline() {
    let (keys, engines) = (KeyCache::new(), EngineCache::new());
    let s = settings_with_auth();
    let ok = parse_snmp_packet(&inform_packet(b"public"), &s, &keys, &engines, 0);
    assert!(ok.error.is_none());
    let resp = ok.response.unwrap();
    assert_eq!(resp[13], 0xa2);
    let denied = parse_snmp_packet(&inform_packet(b"nobody"), &s, &keys, &engines, 0);
    assert_eq!(denied.error, Some(Rejection::CommunityNotAllowed));
    assert!(denied.response.is_some());
    let open = parse_snmp_packet(&inform_packet(b"nobody"), &Settings::default(), &keys, &engines, 0);
    assert!(open.error.is_none());
    let garbage = parse_snmp_packet(&[0xff], &s, &keys, &engines, 0);
    assert_eq!(garbage.error, Some(Rejection::Invalid(Error::ASNDecodeError)));
    assert!(garbage.response.is_none());
}

#[test]
fn v1_trap_through_pipeline_with_admission_off() {
    let mut p = vec![0x30, 0x27, 0x02, 0x01, 0x00, 0x04, 0x06];
    p.extend_from_slice(b"public");
    p.extend_from_slice(&[0xa4, 0x1a]);
    p.extend_from_slice(&[0x06, 0x07, 0x2b, 0x06, 0x01, 0x04, 0x01, 0x8f, 0x51]);
    p.extend_from_slice(&[0x40, 0x04, 0xc0, 0xa8, 0x01, 0x01]);
    p.extend_from_slice(&[0x02, 0x01, 0x06, 0x02, 0x01, 0x01, 0x43, 0x01, 0x2a, 0x30, 0x00]);
    let (keys, engines) = (KeyCache::new(), EngineCache::new());
    let r = parse_snmp_packet(&p, &Settings::default(), &keys, &engines, 0);
    assert!(r.response.is_none());
    assert!(r.error.is_none());
}
