//! The authorization guard for privileged operations.

use vstd::prelude::*;
use crate::address::Address;
use crate::errors::Error;
use crate::state::Config;

verus! {

/// Whether a caller identity passes the guard for a given config record.
pub open spec fn authorized(config: Config, caller: Seq<u8>) -> bool {
    caller == config.admin@
}

/// The guard itself: succeeds iff the caller's identity equals the recorded
/// admin.  The caller's signature over the request was already verified by
/// the execution environment; only identities are compared here, and an
/// identity mismatch is reported as `Unauthorized` regardless of anything
/// else.  No side effects: the guard only decides.
pub fn authorize(config: &Config, caller: &Address) -> (r: Result<(), Error>)
    ensures
        r is Ok <==> authorized(*config, caller@),
        r is Err ==> r->Err_0 == Error::Unauthorized,
{
    if caller.equals(&config.admin) {
        Ok(())
    } else {
        Err(Error::Unauthorized)
    }
}

} // verus!
