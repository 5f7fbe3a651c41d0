use vstd::prelude::*;

use crate::codes::{Db2rc, DB2SEC_USERID_PASSWORD_SERVER_AUTH_FUNCTIONS_VERSION_1};
use crate::message::{error_text, ErrorMessage};
use crate::session::{error_view, handed, PluginError, Rejection};
use crate::store::{seed_credentials, CredentialStore};

verus! {

/// What the engine offers when it loads the plugin: the requested function
/// table version, and which of the mandatory pointers and callbacks it
/// supplied.
pub struct InitRequest {
    pub version: i32,
    pub has_log_message_callback: bool,
    pub has_function_table: bool,
    pub has_error_message_out: bool,
    pub has_con_details_callback: bool,
}

pub open spec fn init_caller() -> Seq<char> {
    "db2secServerAuthPluginInit"@
}

/// The outcome of initialization: `Ok` where the plugin may fill the
/// function table and serve, else the rejection.
pub open spec fn initialization(req: InitRequest) -> Result<(), Rejection> {
    if !req.has_log_message_callback {
        Err((Db2rc::DB2SEC_PLUGIN_UNKNOWNERROR, None))
    } else if !req.has_function_table || !req.has_error_message_out {
        Err((Db2rc::DB2SEC_PLUGIN_UNKNOWNERROR, None))
    } else if !req.has_con_details_callback {
        Err((Db2rc::DB2SEC_PLUGIN_UNKNOWNERROR, None))
    } else if req.version < DB2SEC_USERID_PASSWORD_SERVER_AUTH_FUNCTIONS_VERSION_1 {
        Err(
            (
                Db2rc::DB2SEC_PLUGIN_INCOMPATIBLE_VER,
                handed(error_text(init_caller(), "Invalidate function version"@)),
            ),
        )
    } else {
        Ok(())
    }
}

/// Decides whether the plugin can start, and on success builds the
/// credential store that every later call reads.
pub fn initialize(req: &InitRequest) -> (r: Result<CredentialStore, PluginError>)
    ensures
        initialization(*req) is Ok <==> r is Ok,
        r matches Ok(store) ==> store.wf() && store@ == seed_credentials(),
        r matches Err(e) ==> initialization(*req) == Err::<(), Rejection>(error_view(e)),
{
    if !req.has_log_message_callback {
        return Err(PluginError { code: Db2rc::DB2SEC_PLUGIN_UNKNOWNERROR, message: None });
    }
    if !req.has_function_table || !req.has_error_message_out {
        return Err(PluginError { code: Db2rc::DB2SEC_PLUGIN_UNKNOWNERROR, message: None });
    }
    if !req.has_con_details_callback {
        return Err(PluginError { code: Db2rc::DB2SEC_PLUGIN_UNKNOWNERROR, message: None });
    }
    if req.version < DB2SEC_USERID_PASSWORD_SERVER_AUTH_FUNCTIONS_VERSION_1 {
        return Err(
            PluginError {
                code: Db2rc::DB2SEC_PLUGIN_INCOMPATIBLE_VER,
                message: ErrorMessage::allocate(
                    "db2secServerAuthPluginInit",
                    "Invalidate function version",
                ),
            },
        );
    }
    Ok(CredentialStore::seeded())
}

} // verus!
