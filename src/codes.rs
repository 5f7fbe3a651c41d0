use vstd::prelude::*;

verus! {

/// Version of the server authentication function table that this plugin fills.
pub const DB2SEC_USERID_PASSWORD_SERVER_AUTH_FUNCTIONS_VERSION_1: i32 = 1;

/// Longest authorization identity, in bytes, that the engine's buffers take.
pub const DB2SEC_MAX_AUTHID_LENGTH: usize = 255;

/// Longest user id, in bytes.
pub const DB2SEC_MAX_USERID_LENGTH: usize = 255;

/// Longest user namespace, in bytes.
pub const DB2SEC_MAX_USERNAMESPACE_LENGTH: usize = 255;

/// Longest password, in bytes.
pub const DB2SEC_MAX_PASSWORD_LENGTH: usize = 255;

/// Longest principal name, in bytes.
pub const DB2SEC_MAX_PRINCIPAL_NAME_LENGTH: usize = 255;

/// Longest database name, in bytes.
pub const DB2SEC_MAX_DBNAME_LENGTH: usize = 128;

/// Plugin kind tag: user id and password.
pub const DB2SEC_PLUGIN_TYPE_USERID_PASSWORD: i32 = 0;

/// Plugin kind tag: GSS-API.
pub const DB2SEC_PLUGIN_TYPE_GSSAPI: i32 = 1;

/// Plugin kind tag: Kerberos.
pub const DB2SEC_PLUGIN_TYPE_KERBEROS: i32 = 2;

/// Plugin kind tag: group lookup.
pub const DB2SEC_PLUGIN_TYPE_GROUP: i32 = 3;

/// Identity kind reported for the initial session identity: an authorization id.
pub const DB2SEC_ID_TYPE_AUTHID: i32 = 0;

/// Result codes of the plugin interface.
#[derive(Clone, Copy, Debug, PartialEq, Eq, Structural)]
pub enum Db2rc {
    DB2SEC_PLUGIN_OK,
    DB2SEC_PLUGIN_UNKNOWNERROR,
    DB2SEC_PLUGIN_BADUSER,
    DB2SEC_PLUGIN_INVALIDUSERORGROUP,
    DB2SEC_PLUGIN_USERSTATUSNOTKNOWN,
    DB2SEC_PLUGIN_GROUPSTATUSNOTKNOWN,
    DB2SEC_PLUGIN_UID_EXPIRED,
    DB2SEC_PLUGIN_PWD_EXPIRED,
    DB2SEC_PLUGIN_USER_REVOKED,
    DB2SEC_PLUGIN_USER_SUSPENDED,
    DB2SEC_PLUGIN_BADPWD,
    DB2SEC_PLUGIN_BAD_NEWPASSWORD,
    DB2SEC_PLUGIN_CHANGEPASSWORD_NOTSUPPORTED,
    DB2SEC_PLUGIN_NOMEM,
    DB2SEC_PLUGIN_DISKERROR,
    DB2SEC_PLUGIN_NOPERM,
    DB2SEC_PLUGIN_NETWORKERROR,
    DB2SEC_PLUGIN_CANTLOADLIBRARY,
    DB2SEC_PLUGIN_CANT_OPEN_FILE,
    DB2SEC_PLUGIN_FILENOTFOUND,
    DB2SEC_PLUGIN_CONNECTION_DISALLOWED,
    DB2SEC_PLUGIN_NO_CRED,
    DB2SEC_PLUGIN_CRED_EXPIRED,
    DB2SEC_PLUGIN_BAD_PRINCIPAL_NAME,
    /// Returned by the engine's callbacks to the plugin, never by the plugin.
    DB2SEC_PLUGIN_NO_CON_DETAILS,
    /// Returned by the engine's callbacks to the plugin, never by the plugin.
    DB2SEC_PLUGIN_BAD_INPUT_PARAMETERS,
    DB2SEC_PLUGIN_INCOMPATIBLE_VER,
    DB2SEC_PLUGIN_PROCESS_LIMIT,
    DB2SEC_PLUGIN_NO_LICENSES,
    DB2SEC_PLUGIN_ROOT_NEEDED,
    DB2SEC_PLUGIN_UNEXPECTED_SYSTEM_ERROR,
    DB2SEC_PLUGIN_AUTH_SYSERR,
}

impl Db2rc {
    /// The integer that the interface carries for each code.
    pub open spec fn spec_code(self) -> int {
        match self {
            Db2rc::DB2SEC_PLUGIN_OK => 0,
            Db2rc::DB2SEC_PLUGIN_UNKNOWNERROR => -1,
            Db2rc::DB2SEC_PLUGIN_BADUSER => -2,
            Db2rc::DB2SEC_PLUGIN_INVALIDUSERORGROUP => -3,
            Db2rc::DB2SEC_PLUGIN_USERSTATUSNOTKNOWN => -4,
            Db2rc::DB2SEC_PLUGIN_GROUPSTATUSNOTKNOWN => -5,
            Db2rc::DB2SEC_PLUGIN_UID_EXPIRED => -6,
            Db2rc::DB2SEC_PLUGIN_PWD_EXPIRED => -7,
            Db2rc::DB2SEC_PLUGIN_USER_REVOKED => -8,
            Db2rc::DB2SEC_PLUGIN_USER_SUSPENDED => -9,
            Db2rc::DB2SEC_PLUGIN_BADPWD => -10,
            Db2rc::DB2SEC_PLUGIN_BAD_NEWPASSWORD => -11,
            Db2rc::DB2SEC_PLUGIN_CHANGEPASSWORD_NOTSUPPORTED => -12,
            Db2rc::DB2SEC_PLUGIN_NOMEM => -13,
            Db2rc::DB2SEC_PLUGIN_DISKERROR => -14,
            Db2rc::DB2SEC_PLUGIN_NOPERM => -15,
            Db2rc::DB2SEC_PLUGIN_NETWORKERROR => -16,
            Db2rc::DB2SEC_PLUGIN_CANTLOADLIBRARY => -17,
            Db2rc::DB2SEC_PLUGIN_CANT_OPEN_FILE => -18,
            Db2rc::DB2SEC_PLUGIN_FILENOTFOUND => -19,
            Db2rc::DB2SEC_PLUGIN_CONNECTION_DISALLOWED => -20,
            Db2rc::DB2SEC_PLUGIN_NO_CRED => -21,
            Db2rc::DB2SEC_PLUGIN_CRED_EXPIRED => -22,
            Db2rc::DB2SEC_PLUGIN_BAD_PRINCIPAL_NAME => -23,
            Db2rc::DB2SEC_PLUGIN_NO_CON_DETAILS => -24,
            Db2rc::DB2SEC_PLUGIN_BAD_INPUT_PARAMETERS => -25,
            Db2rc::DB2SEC_PLUGIN_INCOMPATIBLE_VER => -26,
            Db2rc::DB2SEC_PLUGIN_PROCESS_LIMIT => -27,
            Db2rc::DB2SEC_PLUGIN_NO_LICENSES => -28,
            Db2rc::DB2SEC_PLUGIN_ROOT_NEEDED => -29,
            Db2rc::DB2SEC_PLUGIN_UNEXPECTED_SYSTEM_ERROR => -30,
            Db2rc::DB2SEC_PLUGIN_AUTH_SYSERR => -31,
        }
    }

    /// The integer that the interface carries for this code.
    pub fn code(self) -> (r: i32)
        ensures
            r as int == self.spec_code(),
    {
        match self {
            Db2rc::DB2SEC_PLUGIN_OK => 0,
            Db2rc::DB2SEC_PLUGIN_UNKNOWNERROR => -1,
            Db2rc::DB2SEC_PLUGIN_BADUSER => -2,
            Db2rc::DB2SEC_PLUGIN_INVALIDUSERORGROUP => -3,
            Db2rc::DB2SEC_PLUGIN_USERSTATUSNOTKNOWN => -4,
            Db2rc::DB2SEC_PLUGIN_GROUPSTATUSNOTKNOWN => -5,
            Db2rc::DB2SEC_PLUGIN_UID_EXPIRED => -6,
            Db2rc::DB2SEC_PLUGIN_PWD_EXPIRED => -7,
            Db2rc::DB2SEC_PLUGIN_USER_REVOKED => -8,
            Db2rc::DB2SEC_PLUGIN_USER_SUSPENDED => -9,
            Db2rc::DB2SEC_PLUGIN_BADPWD => -10,
            Db2rc::DB2SEC_PLUGIN_BAD_NEWPASSWORD => -11,
            Db2rc::DB2SEC_PLUGIN_CHANGEPASSWORD_NOTSUPPORTED => -12,
            Db2rc::DB2SEC_PLUGIN_NOMEM => -13,
            Db2rc::DB2SEC_PLUGIN_DISKERROR => -14,
            Db2rc::DB2SEC_PLUGIN_NOPERM => -15,
            Db2rc::DB2SEC_PLUGIN_NETWORKERROR => -16,
            Db2rc::DB2SEC_PLUGIN_CANTLOADLIBRARY => -17,
            Db2rc::DB2SEC_PLUGIN_CANT_OPEN_FILE => -18,
            Db2rc::DB2SEC_PLUGIN_FILENOTFOUND => -19,
            Db2rc::DB2SEC_PLUGIN_CONNECTION_DISALLOWED => -20,
            Db2rc::DB2SEC_PLUGIN_NO_CRED => -21,
            Db2rc::DB2SEC_PLUGIN_CRED_EXPIRED => -22,
            Db2rc::DB2SEC_PLUGIN_BAD_PRINCIPAL_NAME => -23,
            Db2rc::DB2SEC_PLUGIN_NO_CON_DETAILS => -24,
            Db2rc::DB2SEC_PLUGIN_BAD_INPUT_PARAMETERS => -25,
            Db2rc::DB2SEC_PLUGIN_INCOMPATIBLE_VER => -26,
            Db2rc::DB2SEC_PLUGIN_PROCESS_LIMIT => -27,
            Db2rc::DB2SEC_PLUGIN_NO_LICENSES => -28,
            Db2rc::DB2SEC_PLUGIN_ROOT_NEEDED => -29,
            Db2rc::DB2SEC_PLUGIN_UNEXPECTED_SYSTEM_ERROR => -30,
            Db2rc::DB2SEC_PLUGIN_AUTH_SYSERR => -31,
        }
    }
}

} // verus!
