use db2_rust_auth::codes::{Db2rc, DB2SEC_ID_TYPE_AUTHID, DB2SEC_MAX_AUTHID_LENGTH};
use db2_rust_auth::flags::{
    ConnectionFlags, DB2SEC_CONNECTION_ISLOCAL, DB2SEC_USERID_FROM_OS,
    DB2SEC_VALIDATING_ON_SERVER_SIDE,
};
use db2_rust_auth::message::ErrorMessage;
use db2_rust_auth::plugin::{initialize, InitRequest};
use db2_rust_auth::session::{
    does_auth_id_exist, free_token, get_auth_ids, validate_password, PasswordRequest,
};
use db2_rust_auth::store::CredentialStore;
use db2_rust_auth::text::{convert_to_optional_string, TextField};

const ALL_FLAGS: u32 =
    DB2SEC_USERID_FROM_OS | DB2SEC_CONNECTION_ISLOCAL | DB2SEC_VALIDATING_ON_SERVER_SIDE;

fn field(s: &str) -> TextField {
    TextField { bytes: Some(s.as_bytes().to_vec()), declared_len: s.len() as i32 }
}

fn absent() -> TextField {
    TextField { bytes: None, declared_len: 0 }
}

fn request(userid: &str, password: Option<&str>, flags: u32) -> PasswordRequest {
    PasswordRequest {
        userid: field(userid),
        usernamespace: absent(),
        usernamespacetype: 0,
        password: match password {
            Some(p) => field(p),
            None => absent(),
        },
        newpassword: absent(),
        dbname: field("SAMPLE"),
        connection_details: flags,
    }
}

fn message_of(r: &db2_rust_auth::session::PluginError) -> Option<String> {
    r.message.as_ref().map(|m| m.text().to_string())
}

#[test]
fn example_gstager_session() {
    let store = CredentialStore::seeded();
    let token = validate_password(&store, &request("gstager", Some("temp4Now"), 0)).ok().unwrap();
    assert_eq!(token.authid(), "GSTAGER");
    let ids = get_auth_ids(Some(&token)).ok().unwrap();
    assert_eq!(ids.system_auth_id, b"GSTAGER".to_vec());
    assert_eq!(ids.initial_session_auth_id, b"GSTAGER".to_vec());
    assert_eq!(ids.system_auth_id_len, 7);
    assert_eq!(ids.initial_session_auth_id_len, 7);
    assert_eq!(ids.initial_session_id_type, DB2SEC_ID_TYPE_AUTHID);
    assert_eq!(free_token(token), Db2rc::DB2SEC_PLUGIN_OK);
}

#[test]
fn example_wrong_password_is_bad_password() {
    let store = CredentialStore::seeded();
    let e = validate_password(&store, &request("gstager", Some("wrong"), 0)).err().unwrap();
    assert_eq!(e.code, Db2rc::DB2SEC_PLUGIN_BADPWD);
    assert_eq!(e.code.code(), -10);
    assert_eq!(
        message_of(&e).unwrap(),
        "RUSTSECP Error from function ValidatePassword: The password is bad for the user"
    );
}

#[test]
fn example_unknown_user_is_bad_user() {
    let store = CredentialStore::seeded();
    let e = validate_password(&store, &request("ghost", Some("x"), 0)).err().unwrap();
    assert_eq!(e.code, Db2rc::DB2SEC_PLUGIN_BADUSER);
    assert_eq!(e.code.code(), -2);
    assert_eq!(
        message_of(&e).unwrap(),
        "RUSTSECP Error from function ValidatePassword: The password is bad for user: ghost"
    );
}

#[test]
fn example_exists_check_ignores_case() {
    let store = CredentialStore::seeded();
    assert!(does_auth_id_exist(&store, &field("GSTAGER")).is_ok());
    assert!(does_auth_id_exist(&store, &field("gstager")).is_ok());
    let e = does_auth_id_exist(&store, &field("ghost")).err().unwrap();
    assert_eq!(e.code, Db2rc::DB2SEC_PLUGIN_INVALIDUSERORGROUP);
    assert_eq!(e.code.code(), -3);
    assert!(e.message.is_none());
}

#[test]
fn exists_check_without_authid_is_bad_user() {
    let store = CredentialStore::seeded();
    let e = does_auth_id_exist(&store, &absent()).err().unwrap();
    assert_eq!(e.code, Db2rc::DB2SEC_PLUGIN_BADUSER);
}

#[test]
fn exists_check_rejects_non_text() {
    let store = CredentialStore::seeded();
    let f = TextField { bytes: Some(vec![b'a', 0xff, b'b']), declared_len: 3 };
    let e = does_auth_id_exist(&store, &f).err().unwrap();
    assert_eq!(e.code, Db2rc::DB2SEC_PLUGIN_UNKNOWNERROR);
    assert_eq!(
        message_of(&e).unwrap(),
        "RUSTSECP Error from function DoesAuthIdExist: authid is not utf8. Valid up to 1"
    );
}

#[test]
fn truncation_to_declared_length() {
    let f = TextField { bytes: Some(b"gstager".to_vec()), declared_len: 3 };
    assert_eq!(convert_to_optional_string(&f), Ok(Some("gst".to_string())));
}

#[test]
fn truncation_applies_to_validation() {
    let store = CredentialStore::seeded();
    let mut req = request("gstager", Some("temp4Now"), 0);
    req.userid.declared_len = 3;
    let e = validate_password(&store, &req).err().unwrap();
    assert_eq!(e.code, Db2rc::DB2SEC_PLUGIN_BADUSER);
    assert_eq!(
        message_of(&e).unwrap(),
        "RUSTSECP Error from function ValidatePassword: The password is bad for user: gst"
    );
}

#[test]
fn field_absent_when_null_or_empty() {
    assert_eq!(convert_to_optional_string(&absent()), Ok(None));
    let f = TextField { bytes: Some(b"abc".to_vec()), declared_len: 0 };
    assert_eq!(convert_to_optional_string(&f), Ok(None));
}

#[test]
fn field_longer_or_negative_declared_length_keeps_all() {
    let f = TextField { bytes: Some(b"abc".to_vec()), declared_len: 10 };
    assert_eq!(convert_to_optional_string(&f), Ok(Some("abc".to_string())));
    let g = TextField { bytes: Some(b"abc".to_vec()), declared_len: -1 };
    assert_eq!(convert_to_optional_string(&g), Ok(Some("abc".to_string())));
}

#[test]
fn field_not_utf8_reports_offset() {
    let f = TextField { bytes: Some(vec![b'a', b'b', 0xc3, b'x']), declared_len: 4 };
    assert_eq!(convert_to_optional_string(&f), Err(2));
}

#[test]
fn field_cut_inside_a_character_fails() {
    // "é" is two bytes; keeping one of them leaves no whole character.
    let f = TextField { bytes: Some("aé".as_bytes().to_vec()), declared_len: 2 };
    assert_eq!(convert_to_optional_string(&f), Err(1));
    let g = TextField { bytes: Some("aé".as_bytes().to_vec()), declared_len: 3 };
    assert_eq!(convert_to_optional_string(&g), Ok(Some("aé".to_string())));
}

#[test]
fn every_seeded_user_is_accepted() {
    let store = CredentialStore::seeded();
    for (u, p, up) in [
        ("gstager", "temp4Now", "GSTAGER"),
        ("newton", "newtonpw", "NEWTON"),
        ("zurbie", "zurbiepw", "ZURBIE"),
    ] {
        let token = validate_password(&store, &request(u, Some(p), 0)).ok().unwrap();
        assert_eq!(token.authid(), up);
    }
}

#[test]
fn every_seeded_user_rejects_other_password() {
    let store = CredentialStore::seeded();
    for u in ["gstager", "newton", "zurbie"] {
        let e = validate_password(&store, &request(u, Some("zurbiepwx"), 0)).err().unwrap();
        assert_eq!(e.code, Db2rc::DB2SEC_PLUGIN_BADPWD);
    }
}

#[test]
fn password_lookup_is_case_sensitive() {
    let store = CredentialStore::seeded();
    let e = validate_password(&store, &request("GSTAGER", Some("temp4Now"), 0)).err().unwrap();
    assert_eq!(e.code, Db2rc::DB2SEC_PLUGIN_BADUSER);
    let e = validate_password(&store, &request("gstager", Some("TEMP4NOW"), 0)).err().unwrap();
    assert_eq!(e.code, Db2rc::DB2SEC_PLUGIN_BADPWD);
}

#[test]
fn unknown_user_is_bad_user_whatever_the_password() {
    let store = CredentialStore::seeded();
    for p in ["x", "temp4Now", "newtonpw"] {
        let req = request("nobody", Some(p), ALL_FLAGS);
        let e = validate_password(&store, &req).err().unwrap();
        assert_eq!(e.code, Db2rc::DB2SEC_PLUGIN_BADUSER);
    }
}

#[test]
fn password_change_is_unsupported() {
    let store = CredentialStore::seeded();
    let mut req = request("gstager", Some("temp4Now"), ALL_FLAGS);
    req.newpassword = field("newsecret");
    let e = validate_password(&store, &req).err().unwrap();
    assert_eq!(e.code, Db2rc::DB2SEC_PLUGIN_CHANGEPASSWORD_NOTSUPPORTED);
    assert_eq!(e.code.code(), -12);
    assert!(e.message.is_none());
    let mut req = request("ghost", None, 0);
    req.newpassword = field("x");
    let e = validate_password(&store, &req).err().unwrap();
    assert_eq!(e.code, Db2rc::DB2SEC_PLUGIN_CHANGEPASSWORD_NOTSUPPORTED);
}

#[test]
fn no_password_needs_all_three_flags() {
    let store = CredentialStore::seeded();
    let token = validate_password(&store, &request("someone", None, ALL_FLAGS)).ok().unwrap();
    assert_eq!(token.authid(), "SOMEONE");
    let token = validate_password(&store, &request("gstager", None, ALL_FLAGS | 0x100)).ok().unwrap();
    assert_eq!(token.authid(), "GSTAGER");
    for bits in 0u32..7 {
        let e = validate_password(&store, &request("gstager", None, bits)).err().unwrap();
        assert_eq!(e.code, Db2rc::DB2SEC_PLUGIN_UNKNOWNERROR);
        assert!(e.message.is_none());
    }
}

#[test]
fn missing_userid_is_bad_user() {
    let store = CredentialStore::seeded();
    let mut req = request("gstager", Some("temp4Now"), 0);
    req.userid = absent();
    let e = validate_password(&store, &req).err().unwrap();
    assert_eq!(e.code, Db2rc::DB2SEC_PLUGIN_BADUSER);
    assert!(e.message.is_none());
}

#[test]
fn malformed_fields_are_unknown_errors() {
    let store = CredentialStore::seeded();
    let bad = || TextField { bytes: Some(vec![0x80]), declared_len: 1 };
    let mut req = request("gstager", Some("temp4Now"), 0);
    req.dbname = bad();
    let e = validate_password(&store, &req).err().unwrap();
    assert_eq!(e.code, Db2rc::DB2SEC_PLUGIN_UNKNOWNERROR);
    assert_eq!(
        message_of(&e).unwrap(),
        "RUSTSECP Error from function ValidatePassword: dbname is not utf8. Valid up to 0"
    );
    let mut req = request("gstager", Some("temp4Now"), 0);
    req.usernamespace = bad();
    let e = validate_password(&store, &req).err().unwrap();
    assert_eq!(
        message_of(&e).unwrap(),
        "RUSTSECP Error from function ValidatePassword: usernamespace is not utf8. Valid up to 0"
    );
    let mut req = request("gstager", Some("temp4Now"), 0);
    req.userid = TextField { bytes: Some(b"gst\xe2\x82".to_vec()), declared_len: 5 };
    let e = validate_password(&store, &req).err().unwrap();
    assert_eq!(
        message_of(&e).unwrap(),
        "RUSTSECP Error from function ValidatePassword: userid is not utf8. Valid up to 3"
    );
}

#[test]
fn derivation_is_repeatable_until_reclaimed() {
    let store = CredentialStore::seeded();
    let token = validate_password(&store, &request("newton", Some("newtonpw"), 0)).ok().unwrap();
    let first = get_auth_ids(Some(&token)).ok().unwrap();
    for _ in 0..3 {
        let again = get_auth_ids(Some(&token)).ok().unwrap();
        assert_eq!(again.system_auth_id, first.system_auth_id);
        assert_eq!(again.initial_session_auth_id_len, first.initial_session_auth_id_len);
    }
    assert_eq!(first.system_auth_id, b"NEWTON".to_vec());
    assert_eq!(free_token(token), Db2rc::DB2SEC_PLUGIN_OK);
}

#[test]
fn derivation_without_token_fails() {
    let e = get_auth_ids(None).err().unwrap();
    assert_eq!(e.code, Db2rc::DB2SEC_PLUGIN_UNKNOWNERROR);
    assert_eq!(e.code.code(), -1);
}

#[test]
fn derivation_never_exceeds_buffer() {
    let long = "a".repeat(300);
    let store = CredentialStore::seeded();
    let token = validate_password(&store, &request(&long, None, ALL_FLAGS)).ok().unwrap();
    assert_eq!(token.authid().len(), 300);
    let ids = get_auth_ids(Some(&token)).ok().unwrap();
    assert_eq!(ids.system_auth_id.len(), DB2SEC_MAX_AUTHID_LENGTH);
    assert_eq!(ids.system_auth_id_len, 255);
    assert_eq!(ids.initial_session_auth_id, "A".repeat(255).into_bytes());
}

#[test]
fn uppercase_beyond_ascii() {
    let store = CredentialStore::seeded();
    let token = validate_password(&store, &request("straße", None, ALL_FLAGS)).ok().unwrap();
    assert_eq!(token.authid(), "STRASSE");
}

#[test]
fn custom_store_insert_replaces() {
    let mut store = CredentialStore::new();
    store.insert("alice".to_string(), "one".to_string());
    store.insert("alice".to_string(), "two".to_string());
    assert_eq!(store.lookup(&"alice".to_string()), Some(&"two".to_string()));
    assert!(store.contains(&"alice".to_string()));
    assert!(!store.contains(&"bob".to_string()));
    assert!(validate_password(&store, &request("alice", Some("two"), 0)).is_ok());
    let e = validate_password(&store, &request("alice", Some("one"), 0)).err().unwrap();
    assert_eq!(e.code, Db2rc::DB2SEC_PLUGIN_BADPWD);
}

#[test]
fn error_message_handoff() {
    let m = ErrorMessage::allocate("Caller", "héllo").unwrap();
    assert_eq!(m.text(), "RUSTSECP Error from function Caller: héllo");
    assert_eq!(m.byte_len(), "RUSTSECP Error from function Caller: héllo".len());
    let s = m.into_string();
    assert_eq!(s, "RUSTSECP Error from function Caller: héllo");
    assert!(ErrorMessage::allocate("Caller", "a\0b").is_none());
}

#[test]
fn connection_flags_round_trip() {
    let f = ConnectionFlags::from_bits_truncate(0xffff_fff8 | DB2SEC_CONNECTION_ISLOCAL);
    assert!(!f.userid_from_os);
    assert!(f.connection_is_local);
    assert!(!f.validating_on_server_side);
    assert!(!f.allows_no_password());
    assert_eq!(f.bits(), 2);
    assert!(ConnectionFlags::from_bits_truncate(7).allows_no_password());
    assert_eq!(ConnectionFlags::from_bits_truncate(0xff).bits(), 7);
}

fn init(version: i32) -> InitRequest {
    InitRequest {
        version,
        has_log_message_callback: true,
        has_function_table: true,
        has_error_message_out: true,
        has_con_details_callback: true,
    }
}

#[test]
fn initialize_builds_seeded_store() {
    let store = initialize(&init(1)).ok().unwrap();
    assert_eq!(store.lookup(&"zurbie".to_string()), Some(&"zurbiepw".to_string()));
    assert!(initialize(&init(2)).is_ok());
}

#[test]
fn initialize_rejects_old_version() {
    let e = initialize(&init(0)).err().unwrap();
    assert_eq!(e.code, Db2rc::DB2SEC_PLUGIN_INCOMPATIBLE_VER);
    assert_eq!(e.code.code(), -26);
    assert_eq!(
        message_of(&e).unwrap(),
        "RUSTSECP Error from function db2secServerAuthPluginInit: Invalidate function version"
    );
}

#[test]
fn initialize_needs_callbacks_and_pointers() {
    for k in 0..4 {
        let mut r = init(1);
        match k {
            0 => r.has_log_message_callback = false,
            1 => r.has_function_table = false,
            2 => r.has_error_message_out = false,
            _ => r.has_con_details_callback = false,
        }
        let e = initialize(&r).err().unwrap();
        assert_eq!(e.code, Db2rc::DB2SEC_PLUGIN_UNKNOWNERROR);
        assert!(e.message.is_none());
    }
}

#[test]
fn bytes_past_declared_length_are_ignored() {
    let f = TextField { bytes: Some(vec![0x61, 0xff]), declared_len: 1 };
    assert_eq!(convert_to_optional_string(&f), Ok(Some("a".to_string())));
    let store = CredentialStore::seeded();
    let mut req = request("gstager", Some("temp4Now"), 0);
    req.userid = TextField { bytes: Some(b"gstager\xff\xfe".to_vec()), declared_len: 7 };
    assert!(validate_password(&store, &req).is_ok());
}

#[test]
fn offset_is_measured_on_declared_bytes() {
    let f = TextField { bytes: Some(vec![0x61, 0xc3, 0xa9, 0xff]), declared_len: 2 };
    assert_eq!(convert_to_optional_string(&f), Err(1));
    let store = CredentialStore::seeded();
    let e = does_auth_id_exist(&store, &f).err().unwrap();
    assert_eq!(e.code, Db2rc::DB2SEC_PLUGIN_UNKNOWNERROR);
    assert_eq!(
        message_of(&e).unwrap(),
        "RUSTSECP Error from function DoesAuthIdExist: authid is not utf8. Valid up to 1"
    );
}

#[test]
fn large_offset_in_diagnostic() {
    let mut bytes = "a".repeat(1234).into_bytes();
    bytes.push(0xff);
    let f = TextField { bytes: Some(bytes), declared_len: -1 };
    let store = CredentialStore::seeded();
    let e = does_auth_id_exist(&store, &f).err().unwrap();
    assert_eq!(
        message_of(&e).unwrap(),
        "RUSTSECP Error from function DoesAuthIdExist: authid is not utf8. Valid up to 1234"
    );
}
