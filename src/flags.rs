use vstd::prelude::*;

verus! {

/// Bit of the connection details that says the user id came from the operating system.
pub const DB2SEC_USERID_FROM_OS: u32 = 0x0000_0001;

/// Bit of the connection details that says the connection is local.
pub const DB2SEC_CONNECTION_ISLOCAL: u32 = 0x0000_0002;

/// Bit of the connection details that says validation runs on the server side.
pub const DB2SEC_VALIDATING_ON_SERVER_SIDE: u32 = 0x0000_0004;

/// The properties of the calling connection, as named capabilities.
#[derive(Clone, Copy, Debug, PartialEq, Eq, Structural)]
pub struct ConnectionFlags {
    pub userid_from_os: bool,
    pub connection_is_local: bool,
    pub validating_on_server_side: bool,
}

/// Whether bit `mask` is set in `bits`.
pub open spec fn has_bit(bits: u32, mask: u32) -> bool {
    bits & mask == mask
}

impl ConnectionFlags {
    /// Decodes the engine's bit set; bits that name no capability are ignored.
    pub fn from_bits_truncate(bits: u32) -> (r: ConnectionFlags)
        ensures
            r.userid_from_os == has_bit(bits, DB2SEC_USERID_FROM_OS),
            r.connection_is_local == has_bit(bits, DB2SEC_CONNECTION_ISLOCAL),
            r.validating_on_server_side == has_bit(bits, DB2SEC_VALIDATING_ON_SERVER_SIDE),
    {
        ConnectionFlags {
            userid_from_os: bits & DB2SEC_USERID_FROM_OS == DB2SEC_USERID_FROM_OS,
            connection_is_local: bits & DB2SEC_CONNECTION_ISLOCAL == DB2SEC_CONNECTION_ISLOCAL,
            validating_on_server_side: bits & DB2SEC_VALIDATING_ON_SERVER_SIDE
                == DB2SEC_VALIDATING_ON_SERVER_SIDE,
        }
    }

    /// The bit set with exactly this value's capabilities.
    pub open spec fn spec_bits(self) -> u32 {
        (if self.userid_from_os { DB2SEC_USERID_FROM_OS } else { 0u32 }) | (
        if self.connection_is_local { DB2SEC_CONNECTION_ISLOCAL } else { 0u32 }) | (
        if self.validating_on_server_side { DB2SEC_VALIDATING_ON_SERVER_SIDE } else { 0u32 })
    }

    /// Encodes these capabilities as the engine's bit set.
    pub fn bits(&self) -> (r: u32)
        ensures
            r == self.spec_bits(),
            r & !7u32 == 0,
            ConnectionFlags::from_bits_truncate_spec(r) == *self,
    {
        let a: u32 = if self.userid_from_os { DB2SEC_USERID_FROM_OS } else { 0 };
        let b: u32 = if self.connection_is_local { DB2SEC_CONNECTION_ISLOCAL } else { 0 };
        let c: u32 = if self.validating_on_server_side { DB2SEC_VALIDATING_ON_SERVER_SIDE } else { 0 };
        let r = a | b | c;
        assert(r & !7u32 == 0 && has_bit(r, 1) == (a == 1) && has_bit(r, 2) == (b == 2)
            && has_bit(r, 4) == (c == 4)) by (bit_vector)
            requires
                r == a | b | c,
                a == 0 || a == 1,
                b == 0 || b == 2,
                c == 0 || c == 4,
        ;
        r
    }

    /// What `from_bits_truncate` returns on `bits`.
    pub open spec fn from_bits_truncate_spec(bits: u32) -> ConnectionFlags {
        ConnectionFlags {
            userid_from_os: has_bit(bits, DB2SEC_USERID_FROM_OS),
            connection_is_local: has_bit(bits, DB2SEC_CONNECTION_ISLOCAL),
            validating_on_server_side: has_bit(bits, DB2SEC_VALIDATING_ON_SERVER_SIDE),
        }
    }

    /// The conjunction under which a connection may authenticate without a
    /// password: the user id came from the operating system, the connection
    /// is local, and validation runs on the server side.
    pub open spec fn spec_allows_no_password(&self) -> bool {
        self.userid_from_os && self.connection_is_local && self.validating_on_server_side
    }

    /// Whether a connection with these capabilities may authenticate without a password.
    #[verifier::when_used_as_spec(spec_allows_no_password)]
    pub fn allows_no_password(&self) -> (r: bool)
        ensures
            r == self.spec_allows_no_password(),
    {
        self.userid_from_os && self.connection_is_local && self.validating_on_server_side
    }
}

} // verus!
