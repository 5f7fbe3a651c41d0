//! Laws of the authentication protocol, proved over the contracts of the
//! entry points.
use vstd::prelude::*;
use vstd::utf8::*;

use crate::codes::Db2rc;
use crate::flags::ConnectionFlags;
use crate::message::error_text;
use crate::session::{
    bad_password_message, derived_ids, handed, unknown_user_message, validation, AuthIds,
    PasswordRequest,
};
use crate::text::{field_text, upper_of};

verus! {

/// The password field of `req` as text, or nothing where it was not supplied.
pub open spec fn password_text(req: PasswordRequest) -> Result<Option<Seq<char>>, nat> {
    field_text(req.password.spec_bytes(), req.password.declared_len)
}

/// A request whose user id reads as `u` and whose other fields are not
/// malformed, and which asks for no password change.
pub open spec fn plain_request(req: PasswordRequest, u: Seq<char>) -> bool {
    &&& req.newpassword.bytes is None
    &&& field_text(req.userid.spec_bytes(), req.userid.declared_len) == Ok::<
        Option<Seq<char>>,
        nat,
    >(Some(u))
    &&& field_text(req.usernamespace.spec_bytes(), req.usernamespace.declared_len) is Ok
    &&& password_text(req) is Ok
    &&& field_text(req.dbname.spec_bytes(), req.dbname.declared_len) is Ok
}

/// For every stored identity, validation with its own password succeeds,
/// and the token carries the upper-cased identity.
pub proof fn lemma_correct_password_accepted(
    store: Map<Seq<char>, Seq<char>>,
    req: PasswordRequest,
    u: Seq<char>,
)
    requires
        plain_request(req, u),
        store.contains_key(u),
        password_text(req) == Ok::<Option<Seq<char>>, nat>(Some(store[u])),
    ensures
        validation(store, req) == Ok::<Seq<char>, (Db2rc, Option<Seq<char>>)>(upper_of(u)),
{
}

/// For every stored identity, validation with another password fails with
/// the bad-password code, and no token comes out.
pub proof fn lemma_wrong_password_rejected(
    store: Map<Seq<char>, Seq<char>>,
    req: PasswordRequest,
    u: Seq<char>,
    p: Seq<char>,
)
    requires
        plain_request(req, u),
        store.contains_key(u),
        password_text(req) == Ok::<Option<Seq<char>>, nat>(Some(p)),
        p != store[u],
    ensures
        validation(store, req) == Err::<Seq<char>, (Db2rc, Option<Seq<char>>)>(
            (Db2rc::DB2SEC_PLUGIN_BADPWD, handed(bad_password_message())),
        ),
{
}

/// For every identity that is not stored, validation with any password
/// fails with the bad-user code.
pub proof fn lemma_unknown_user_rejected(
    store: Map<Seq<char>, Seq<char>>,
    req: PasswordRequest,
    u: Seq<char>,
    p: Seq<char>,
)
    requires
        plain_request(req, u),
        !store.contains_key(u),
        password_text(req) == Ok::<Option<Seq<char>>, nat>(Some(p)),
    ensures
        validation(store, req) == Err::<Seq<char>, (Db2rc, Option<Seq<char>>)>(
            (Db2rc::DB2SEC_PLUGIN_BADUSER, handed(unknown_user_message(u))),
        ),
{
}

/// A request that carries a replacement password fails with the
/// unsupported-operation code, whatever else it holds.
pub proof fn lemma_password_change_unsupported(
    store: Map<Seq<char>, Seq<char>>,
    req: PasswordRequest,
)
    requires
        req.newpassword.bytes is Some,
    ensures
        validation(store, req) == Err::<Seq<char>, (Db2rc, Option<Seq<char>>)>(
            (Db2rc::DB2SEC_PLUGIN_CHANGEPASSWORD_NOTSUPPORTED, None),
        ),
{
}

/// Without a password, validation succeeds exactly when the connection
/// details carry all three capabilities: user id from the operating system,
/// local connection, validation on the server side.
pub proof fn lemma_no_password_needs_all_flags(
    store: Map<Seq<char>, Seq<char>>,
    req: PasswordRequest,
    u: Seq<char>,
)
    requires
        plain_request(req, u),
        password_text(req) == Ok::<Option<Seq<char>>, nat>(None),
    ensures
        validation(store, req) is Ok <==> {
            let f = ConnectionFlags::from_bits_truncate_spec(req.connection_details);
            f.userid_from_os && f.connection_is_local && f.validating_on_server_side
        },
        validation(store, req) is Ok ==> validation(store, req) == Ok::<
            Seq<char>,
            (Db2rc, Option<Seq<char>>),
        >(upper_of(u)),
{
}

/// Derivation reads the token only: any two derivations from tokens with
/// the same identity agree, and both engine fields hold the same identity.
pub proof fn lemma_derivation_stable(ids1: AuthIds, ids2: AuthIds, a: Seq<char>)
    requires
        derived_ids(ids1, a),
        derived_ids(ids2, a),
    ensures
        ids1.system_auth_id@ == ids2.system_auth_id@,
        ids1.initial_session_auth_id@ == ids2.initial_session_auth_id@,
        ids1.system_auth_id_len == ids2.system_auth_id_len,
        ids1.system_auth_id@ == ids1.initial_session_auth_id@,
        ids1.system_auth_id_len == ids1.initial_session_auth_id_len,
{
}

/// The bytes that carry a diagnostic to the engine are valid UTF-8 and
/// decode back to exactly the diagnostic's text.
pub proof fn lemma_message_bytes_round_trip(caller: Seq<char>, message: Seq<char>)
    ensures
        valid_utf8(encode_utf8(error_text(caller, message))),
        decode_utf8(encode_utf8(error_text(caller, message))) == error_text(caller, message),
{
    encode_utf8_valid_utf8(error_text(caller, message));
    encode_utf8_decode_utf8(error_text(caller, message));
}

} // verus!
