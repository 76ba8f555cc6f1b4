//! The persistent config record and its singleton store.

use vstd::prelude::*;
use crate::address::Address;
use crate::errors::Error;

verus! {

/// The singleton config record: the single admin identity, set exactly once
/// at creation and immutable thereafter.
#[derive(Clone, Copy, Debug)]
pub struct Config {
    pub admin: Address,
}

/// The storage slot at the config record's derived address.  The backing
/// store rejects creation at an occupied address, so the record is written
/// at most once and never overwritten.
pub struct ConfigStore {
    pub record: Option<Config>,
}

impl ConfigStore {
    /// A deployment where no config record has been created yet.
    pub fn new() -> (s: ConfigStore)
        ensures
            s.record is None,
    {
        ConfigStore { record: None }
    }

    /// Create the config record, fixing the admin identity.  Fails with
    /// `AlreadyInitialized`, and leaves the record untouched, if a record
    /// already occupies the address.
    pub fn initialize(&mut self, admin: Address) -> (r: Result<(), Error>)
        ensures
            old(self).record is Some ==> r == Err::<(), Error>(Error::AlreadyInitialized)
                && final(self).record == old(self).record,
            old(self).record is None ==> r == Ok::<(), Error>(())
                && final(self).record == Some(Config { admin }),
    {
        match self.record {
            Some(_) => Err(Error::AlreadyInitialized),
            None => {
                self.record = Some(Config { admin });
                Ok(())
            },
        }
    }

    /// Read the config record.  Fails with `NotInitialized` if absent.
    pub fn get(&self) -> (r: Result<&Config, Error>)
        ensures
            r is Ok <==> self.record is Some,
            r is Ok ==> *r->Ok_0 == self.record->0,
            r is Err ==> r->Err_0 == Error::NotInitialized,
    {
        match &self.record {
            Some(config) => Ok(config),
            None => Err(Error::NotInitialized),
        }
    }
}

} // verus!
