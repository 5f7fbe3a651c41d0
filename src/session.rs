use vstd::prelude::*;
use vstd::slice::{slice_subrange, slice_to_vec};
use vstd::string::*;
use vstd::utf8::*;

use crate::codes::{Db2rc, DB2SEC_ID_TYPE_AUTHID, DB2SEC_MAX_AUTHID_LENGTH};
use crate::flags::ConnectionFlags;
use crate::message::{error_text, terminable, ErrorMessage};
use crate::store::CredentialStore;
use crate::text::{
    convert_to_optional_string, decimal, decimal_text, field_text, lower_of, to_lowercase, to_uppercase,
    upper_of, TextField,
};

verus! {

/// A failed call: the result code, and the diagnostic handed to the engine, if any.
pub struct PluginError {
    pub code: Db2rc,
    pub message: Option<ErrorMessage>,
}

/// A result code with the text of the diagnostic that goes with it, if any.
pub type Rejection = (Db2rc, Option<Seq<char>>);

pub open spec fn message_view(m: Option<ErrorMessage>) -> Option<Seq<char>> {
    match m {
        Some(e) => Some(e@),
        None => None,
    }
}

pub open spec fn error_view(e: PluginError) -> Rejection {
    (e.code, message_view(e.message))
}

/// The diagnostic that reaches the engine for text `t`: none where it holds a NUL.
pub open spec fn handed(t: Seq<char>) -> Option<Seq<char>> {
    if terminable(t) {
        Some(t)
    } else {
        None
    }
}

/// The diagnostic of `caller` for field `name`, not text past offset `k`.
pub open spec fn not_text_message(caller: Seq<char>, name: Seq<char>, k: nat) -> Seq<char> {
    error_text(caller, name + " is not utf8. Valid up to "@ + decimal(k))
}

/// A field decoded for `caller`: its text, or the rejection when it is not text.
pub open spec fn decoded_field(
    caller: Seq<char>,
    name: Seq<char>,
    bytes: Option<Seq<u8>>,
    declared: i32,
) -> Result<Option<Seq<char>>, Rejection> {
    match field_text(bytes, declared) {
        Ok(t) => Ok(t),
        Err(k) => Err((Db2rc::DB2SEC_PLUGIN_UNKNOWNERROR, handed(not_text_message(caller, name, k)))),
    }
}

pub open spec fn decoded_view(r: Result<Option<String>, PluginError>) -> Result<
    Option<Seq<char>>,
    Rejection,
> {
    match r {
        Ok(Some(s)) => Ok(Some(s@)),
        Ok(None) => Ok(None),
        Err(e) => Err(error_view(e)),
    }
}

/// Decodes a field for `caller`, with a diagnostic when it is not text.
fn decode_field(caller: &str, name: &str, field: &TextField) -> (r: Result<
    Option<String>,
    PluginError,
>)
    ensures
        decoded_view(r) == decoded_field(caller@, name@, field.spec_bytes(), field.declared_len),
{
    match convert_to_optional_string(field) {
        Ok(t) => Ok(t),
        Err(k) => {
            let mut text = String::from_str(name);
            text.append(" is not utf8. Valid up to ");
            let digits = decimal_text(k);
            text.append(digits.as_str());
            assert(text@ == name@ + " is not utf8. Valid up to "@ + decimal(k as nat));
            Err(
                PluginError {
                    code: Db2rc::DB2SEC_PLUGIN_UNKNOWNERROR,
                    message: ErrorMessage::allocate(caller, text.as_str()),
                },
            )
        },
    }
}

/// What the engine hands to password validation, after the raw buffers
/// have been read.
pub struct PasswordRequest {
    pub userid: TextField,
    pub usernamespace: TextField,
    pub usernamespacetype: i32,
    pub password: TextField,
    pub newpassword: TextField,
    pub dbname: TextField,
    pub connection_details: u32,
}

/// The token that a successful validation hands to the engine: it owns the
/// authorization identity of the session.
pub struct AuthToken {
    first_val: i32,
    second_val: i16,
    authid: String,
}

impl View for AuthToken {
    type V = Seq<char>;

    /// The authorization identity that the token carries.
    closed spec fn view(&self) -> Seq<char> {
        self.authid@
    }
}

impl AuthToken {
    /// The authorization identity that the token carries.
    pub fn authid(&self) -> (r: &str)
        ensures
            r@ == self@,
    {
        self.authid.as_str()
    }
}

pub open spec fn validate_caller() -> Seq<char> {
    "ValidatePassword"@
}

/// The diagnostic for an identity that the store does not hold.
pub open spec fn unknown_user_message(userid: Seq<char>) -> Seq<char> {
    error_text(validate_caller(), "The password is bad for user: "@ + userid)
}

/// The diagnostic for a password that does not match.
pub open spec fn bad_password_message() -> Seq<char> {
    error_text(validate_caller(), "The password is bad for the user"@)
}

/// The decision on validated text: with a password, the store decides;
/// without one, the connection must carry all three capabilities.
pub open spec fn credential_decision(
    store: Map<Seq<char>, Seq<char>>,
    userid: Seq<char>,
    password: Option<Seq<char>>,
    flags: u32,
) -> Result<Seq<char>, Rejection> {
    match password {
        Some(p) => if !store.contains_key(userid) {
            Err((Db2rc::DB2SEC_PLUGIN_BADUSER, handed(unknown_user_message(userid))))
        } else if store[userid] != p {
            Err((Db2rc::DB2SEC_PLUGIN_BADPWD, handed(bad_password_message())))
        } else {
            Ok(upper_of(userid))
        },
        None => if ConnectionFlags::from_bits_truncate_spec(flags).spec_allows_no_password() {
            Ok(upper_of(userid))
        } else {
            Err((Db2rc::DB2SEC_PLUGIN_UNKNOWNERROR, None))
        },
    }
}

/// The outcome of validating `req` against `store`: the authorization
/// identity of the new session, or the rejection.
pub open spec fn validation(store: Map<Seq<char>, Seq<char>>, req: PasswordRequest) -> Result<
    Seq<char>,
    Rejection,
> {
    let c = validate_caller();
    if req.newpassword.bytes is Some {
        Err((Db2rc::DB2SEC_PLUGIN_CHANGEPASSWORD_NOTSUPPORTED, None))
    } else {
        match decoded_field(c, "userid"@, req.userid.spec_bytes(), req.userid.declared_len) {
            Err(e) => Err(e),
            Ok(None) => Err((Db2rc::DB2SEC_PLUGIN_BADUSER, None)),
            Ok(Some(u)) => match decoded_field(
                c,
                "usernamespace"@,
                req.usernamespace.spec_bytes(),
                req.usernamespace.declared_len,
            ) {
                Err(e) => Err(e),
                Ok(_) => match decoded_field(
                    c,
                    "password"@,
                    req.password.spec_bytes(),
                    req.password.declared_len,
                ) {
                    Err(e) => Err(e),
                    Ok(p) => match decoded_field(
                        c,
                        "dbname"@,
                        req.dbname.spec_bytes(),
                        req.dbname.declared_len,
                    ) {
                        Err(e) => Err(e),
                        Ok(_) => credential_decision(store, u, p, req.connection_details),
                    },
                },
            },
        }
    }
}

pub open spec fn validation_view(r: Result<AuthToken, PluginError>) -> Result<Seq<char>, Rejection> {
    match r {
        Ok(t) => Ok(t@),
        Err(e) => Err(error_view(e)),
    }
}

/// Validates the password of a connecting user. On success the returned
/// token carries the upper-cased user id as the authorization identity, and
/// its ownership passes to the caller.
pub fn validate_password(store: &CredentialStore, req: &PasswordRequest) -> (r: Result<
    AuthToken,
    PluginError,
>)
    requires
        store.wf(),
    ensures
        validation_view(r) == validation(store@, *req),
{
    let caller = "ValidatePassword";
    if req.newpassword.bytes.is_some() {
        return Err(
            PluginError { code: Db2rc::DB2SEC_PLUGIN_CHANGEPASSWORD_NOTSUPPORTED, message: None },
        );
    }
    let userid = match decode_field(caller, "userid", &req.userid) {
        Err(e) => return Err(e),
        Ok(None) => return Err(PluginError { code: Db2rc::DB2SEC_PLUGIN_BADUSER, message: None }),
        Ok(Some(u)) => u,
    };
    match decode_field(caller, "usernamespace", &req.usernamespace) {
        Err(e) => return Err(e),
        Ok(_) => {},
    }
    let password = match decode_field(caller, "password", &req.password) {
        Err(e) => return Err(e),
        Ok(p) => p,
    };
    match decode_field(caller, "dbname", &req.dbname) {
        Err(e) => return Err(e),
        Ok(_) => {},
    }
    let flags = ConnectionFlags::from_bits_truncate(req.connection_details);
    match password {
        Some(pw) => match store.lookup(&userid) {
            None => {
                let mut text = String::from_str("The password is bad for user: ");
                text.append(userid.as_str());
                return Err(
                    PluginError {
                        code: Db2rc::DB2SEC_PLUGIN_BADUSER,
                        message: ErrorMessage::allocate(caller, text.as_str()),
                    },
                );
            },
            Some(stored) => {
                if *stored != pw {
                    return Err(
                        PluginError {
                            code: Db2rc::DB2SEC_PLUGIN_BADPWD,
                            message: ErrorMessage::allocate(
                                caller,
                                "The password is bad for the user",
                            ),
                        },
                    );
                }
            },
        },
        None => {
            if !flags.allows_no_password() {
                return Err(PluginError { code: Db2rc::DB2SEC_PLUGIN_UNKNOWNERROR, message: None });
            }
        },
    }
    let authid = to_uppercase(userid.as_str());
    Ok(AuthToken { first_val: 5, second_val: 6, authid })
}

/// The bytes of authorization identity `a` that fit an engine buffer.
pub open spec fn authid_bytes(a: Seq<char>) -> Seq<u8> {
    let b = encode_utf8(a);
    if b.len() <= DB2SEC_MAX_AUTHID_LENGTH {
        b
    } else {
        b.subrange(0, DB2SEC_MAX_AUTHID_LENGTH as int)
    }
}

/// The identities that the engine takes from a token: the system and the
/// initial session authorization identity with their lengths, and the kind
/// of the initial session identity.
pub struct AuthIds {
    pub system_auth_id: Vec<u8>,
    pub system_auth_id_len: i32,
    pub initial_session_auth_id: Vec<u8>,
    pub initial_session_auth_id_len: i32,
    pub initial_session_id_type: i32,
}

/// What the engine takes from a token with authorization identity `a`.
pub open spec fn derived_ids(ids: AuthIds, a: Seq<char>) -> bool {
    &&& ids.system_auth_id@ == authid_bytes(a)
    &&& ids.initial_session_auth_id@ == authid_bytes(a)
    &&& ids.system_auth_id_len as int == authid_bytes(a).len()
    &&& ids.initial_session_auth_id_len as int == authid_bytes(a).len()
    &&& ids.initial_session_id_type == DB2SEC_ID_TYPE_AUTHID
}

/// Derives the authorization identities of a session from its token, which
/// stays with the caller. Without a token the call fails. The identities
/// never exceed the engine's buffer size.
pub fn get_auth_ids(token: Option<&AuthToken>) -> (r: Result<AuthIds, PluginError>)
    ensures
        token is None ==> (r matches Err(e) && error_view(e) == (
            Db2rc::DB2SEC_PLUGIN_UNKNOWNERROR,
            None::<Seq<char>>,
        )),
        token matches Some(t) ==> (r matches Ok(ids) && derived_ids(ids, t@)),
{
    match token {
        None => Err(PluginError { code: Db2rc::DB2SEC_PLUGIN_UNKNOWNERROR, message: None }),
        Some(t) => {
            let all = t.authid.as_str().as_bytes();
            let n: usize = if all.len() <= DB2SEC_MAX_AUTHID_LENGTH {
                all.len()
            } else {
                DB2SEC_MAX_AUTHID_LENGTH
            };
            let kept = slice_subrange(all, 0, n);
            assert(kept@ =~= authid_bytes(t@));
            let system = slice_to_vec(kept);
            let initial = slice_to_vec(kept);
            Ok(
                AuthIds {
                    system_auth_id: system,
                    system_auth_id_len: n as i32,
                    initial_session_auth_id: initial,
                    initial_session_auth_id_len: n as i32,
                    initial_session_id_type: DB2SEC_ID_TYPE_AUTHID,
                },
            )
        },
    }
}

/// Takes a token back from the engine and destroys it with all it owns.
/// Taking the token by value makes a second reclamation, or a use after
/// this one, impossible.
pub fn free_token(token: AuthToken) -> (r: Db2rc)
    ensures
        r == Db2rc::DB2SEC_PLUGIN_OK,
{
    let AuthToken { first_val: _, second_val: _, authid: _ } = token;
    Db2rc::DB2SEC_PLUGIN_OK
}

pub open spec fn exists_caller() -> Seq<char> {
    "DoesAuthIdExist"@
}

/// The outcome of the existence check of `authid` against `store`: found
/// where the lower-cased identity is stored.
pub open spec fn existence(store: Map<Seq<char>, Seq<char>>, authid: TextField) -> Result<
    (),
    Rejection,
> {
    match decoded_field(exists_caller(), "authid"@, authid.spec_bytes(), authid.declared_len) {
        Err(e) => Err(e),
        Ok(None) => Err((Db2rc::DB2SEC_PLUGIN_BADUSER, None)),
        Ok(Some(a)) => if store.contains_key(lower_of(a)) {
            Ok(())
        } else {
            Err((Db2rc::DB2SEC_PLUGIN_INVALIDUSERORGROUP, None))
        },
    }
}

pub open spec fn existence_view(r: Result<(), PluginError>) -> Result<(), Rejection> {
    match r {
        Ok(_) => Ok(()),
        Err(e) => Err(error_view(e)),
    }
}

/// Checks, without a token, whether an authorization identity is known,
/// ignoring its case.
pub fn does_auth_id_exist(store: &CredentialStore, authid: &TextField) -> (r: Result<
    (),
    PluginError,
>)
    requires
        store.wf(),
    ensures
        existence_view(r) == existence(store@, *authid),
{
    let a = match decode_field("DoesAuthIdExist", "authid", authid) {
        Err(e) => return Err(e),
        Ok(None) => return Err(PluginError { code: Db2rc::DB2SEC_PLUGIN_BADUSER, message: None }),
        Ok(Some(a)) => a,
    };
    let lowered = to_lowercase(a.as_str());
    if store.contains(&lowered) {
        Ok(())
    } else {
        Err(PluginError { code: Db2rc::DB2SEC_PLUGIN_INVALIDUSERORGROUP, message: None })
    }
}

} // verus!
