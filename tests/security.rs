use snmpv3::error::SnmpError;
use snmpv3::keys::{localize, LocalizedAuthKey};
use snmpv3::params::{host_with_port, AuthTypeArgs, Command, Params, PrivTypeArgs};
use snmpv3::session::{Session, Step};

fn params(
    auth: Option<&str>,
    auth_protocol: Option<&str>,
    privacy: Option<&str>,
    privacy_protocol: Option<&str>,
) -> Params {
    Params {
        user: "admin".to_string(),
        host: "192.0.2.1".to_string(),
        auth: auth.map(|s| s.to_string()),
        auth_protocol: auth_protocol.map(|s| s.to_string()),
        privacy: privacy.map(|s| s.to_string()),
        privacy_protocol: privacy_protocol.map(|s| s.to_string()),
        cmd: Command::Get { oids: vec![] },
    }
}

fn key_bytes(k: &LocalizedAuthKey) -> String {
    format!("{:?}", k)
}

const RFC_ENGINE_ID: [u8; 12] = [0, 0, 0, 0, 0, 0, 0, 0, 0, 0, 0, 2];

#[test]
fn md5_key_matches_published_vector() {
    let k = localize(b"maplesyrup", &RFC_ENGINE_ID, AuthTypeArgs::Md5Digest).unwrap();
    assert!(matches!(k, LocalizedAuthKey::Md5(_)));
    let expected = [
        0x52u8, 0x6f, 0x5e, 0xed, 0x9f, 0xcc, 0xe2, 0x6f, 0x89, 0x64, 0xc2, 0x93, 0x07, 0x87, 0xd8,
        0x2b,
    ];
    assert!(key_bytes(&k).contains(&format!("{:?}", expected)));
}

#[test]
fn sha1_key_matches_published_vector() {
    let k = localize(b"maplesyrup", &RFC_ENGINE_ID, AuthTypeArgs::Sha1Digest).unwrap();
    assert!(matches!(k, LocalizedAuthKey::Sha1(_)));
    let expected = [
        0x66u8, 0x95, 0xfe, 0xbc, 0x92, 0x88, 0xe3, 0x62, 0x82, 0x23, 0x5f, 0xc7, 0x15, 0x1f, 0x12,
        0x84, 0x97, 0xb3, 0x8f, 0x3f,
    ];
    assert!(key_bytes(&k).contains(&format!("{:?}", expected)));
}

#[test]
fn localization_depends_on_engine_id_and_is_repeatable() {
    let e2 = [0u8, 0, 0, 0, 0, 0, 0, 0, 0, 0, 0, 3];
    let a = key_bytes(&localize(b"maplesyrup", &RFC_ENGINE_ID, AuthTypeArgs::Md5Digest).unwrap());
    let b = key_bytes(&localize(b"maplesyrup", &e2, AuthTypeArgs::Md5Digest).unwrap());
    let c = key_bytes(&localize(b"maplesyrup", &RFC_ENGINE_ID, AuthTypeArgs::Md5Digest).unwrap());
    assert_ne!(a, b);
    assert_eq!(a, c);
}

#[test]
fn localization_refuses_empty_passphrase_and_no_digest() {
    assert_eq!(localize(b"", &RFC_ENGINE_ID, AuthTypeArgs::Md5Digest).unwrap_err(), SnmpError::InvalidInput);
    assert_eq!(localize(b"maplesyrup", &RFC_ENGINE_ID, AuthTypeArgs::NoAuth).unwrap_err(), SnmpError::InvalidInput);
}

#[test]
fn host_gets_default_port() {
    assert_eq!(host_with_port(&"192.0.2.1".to_string()), "192.0.2.1:161");
    assert_eq!(host_with_port(&"192.0.2.1:1161".to_string()), "192.0.2.1:1161");
    assert_eq!(host_with_port(&"".to_string()), ":161");
}

#[test]
fn legal_credentials_pass() {
    assert!(params(None, None, None, None).check_credentials().is_ok());
    assert!(params(Some("authpass1"), Some("SHA1"), None, None).check_credentials().is_ok());
    assert!(params(Some("authpass1"), Some("MD5"), Some("privpass1"), Some("AES128")).check_credentials().is_ok());
}

#[test]
fn illegal_credentials_are_invalid_input() {
    let bad = [
        params(None, None, Some("privpass1"), Some("DES")),
        params(Some("authpass1"), None, None, None),
        params(None, Some("MD5"), None, None),
        params(Some("authpass1"), Some("MD5"), Some("privpass1"), None),
        params(Some(""), Some("MD5"), None, None),
        params(Some("authpass1"), Some("MD5"), Some(""), Some("DES")),
    ];
    for p in bad.iter() {
        assert_eq!(p.check_credentials(), Err(SnmpError::InvalidInput));
    }
}

#[test]
fn protocol_names_select_algorithms() {
    assert_eq!(params(Some("a"), Some("SHA1"), None, None).auth_type(), AuthTypeArgs::Sha1Digest);
    assert_eq!(params(Some("a"), Some("MD5"), None, None).auth_type(), AuthTypeArgs::Md5Digest);
    assert_eq!(params(Some("a"), Some("sha1"), None, None).auth_type(), AuthTypeArgs::Md5Digest);
    assert_eq!(params(None, None, None, None).auth_type(), AuthTypeArgs::NoAuth);
    assert_eq!(params(None, None, Some("p"), Some("AES128")).priv_type(), PrivTypeArgs::Aes128);
    assert_eq!(params(None, None, Some("p"), Some("DES")).priv_type(), PrivTypeArgs::Des);
    assert_eq!(params(None, None, None, None).priv_type(), PrivTypeArgs::NoPriv);
    assert_eq!(Params::SHA1_DIGEST, "SHA1");
    assert_eq!(Params::AES128_ENCRYPTION, "AES128");
}

#[test]
fn request_ids_advance_and_wrap() {
    let mut s: Session<u32> = Session::discovered(b"u".to_vec(), vec![1, 2], 3, 40, i32::MAX, 7);
    assert_eq!(s.take_request_id(), i32::MAX);
    assert_eq!(s.take_request_id(), i32::MIN);
    assert_eq!(s.request_id, i32::MIN + 1);
}

#[test]
fn salts_are_never_reused() {
    let mut s: Session<u64> = Session::discovered(b"u".to_vec(), vec![1], 1, 1, 0, u64::MAX - 1);
    let a = s.take_salt();
    let b = s.take_salt();
    let c = s.take_salt();
    assert_eq!((a, b, c), (u64::MAX - 1, u64::MAX, 0));
    let mut d: u32 = u32::MAX;
    d.step();
    assert_eq!(d, 0);
}

#[test]
fn only_encrypted_messages_take_a_salt() {
    let mut s: Session<u32> = Session::discovered(b"u".to_vec(), vec![1], 1, 1, 10, 500);
    let plain = s.plan_message(true, false);
    assert_eq!((plain.request_id, plain.authenticated, plain.salt), (10, true, None));
    let enc = s.plan_message(true, true);
    assert_eq!((enc.request_id, enc.authenticated, enc.salt), (11, true, Some(500)));
    let noauth = s.plan_message(false, true);
    assert_eq!((noauth.request_id, noauth.authenticated, noauth.salt), (12, false, None));
    assert_eq!((s.request_id, s.salt), (13, 501));
}

#[test]
fn reply_to_other_request_is_protocol_error() {
    let mut s: Session<u64> = Session::discovered(b"u".to_vec(), vec![1], 2, 50, 1, 0);
    assert_eq!(s.accept_reply(5, 6, 2, 60), Err(SnmpError::ProtocolError));
    assert_eq!(s.engine_time, 50);
    assert_eq!(s.accept_reply(5, 5, 1, 60), Err(SnmpError::SecurityError));
    assert_eq!(s.accept_reply(5, 5, 2, 60), Ok(()));
    assert_eq!(s.engine_time, 60);
}

#[test]
fn protocol_names_select_their_algorithm_again() {
    for a in [AuthTypeArgs::Md5Digest, AuthTypeArgs::Sha1Digest, AuthTypeArgs::NoAuth] {
        let p = params(Some("pw"), a.protocol_name(), None, None);
        assert_eq!(p.auth_type(), a);
    }
    for c in [PrivTypeArgs::Des, PrivTypeArgs::Aes128, PrivTypeArgs::NoPriv] {
        let p = params(None, None, Some("pw"), c.protocol_name());
        assert_eq!(p.priv_type(), c);
    }
    assert_eq!(AuthTypeArgs::Md5Digest.protocol_name(), Some("MD5"));
    assert_eq!(PrivTypeArgs::Des.protocol_name(), Some("DES"));
}

#[test]
fn boots_rollback_is_security_error() {
    let mut s: Session<u32> = Session::discovered(b"u".to_vec(), vec![9], 5, 100, 1, 0);
    assert_eq!(s.update_timeliness(4, 500), Err(SnmpError::SecurityError));
    assert_eq!((s.engine_boots, s.engine_time), (5, 100));
    assert_eq!(s.update_timeliness(5, 130), Ok(()));
    assert_eq!((s.engine_boots, s.engine_time), (5, 130));
    assert_eq!(s.update_timeliness(6, 2), Ok(()));
    assert_eq!((s.engine_boots, s.engine_time), (6, 2));
}
