//! Model of the device-held configuration store of one TDI.
//!
//! The store carries a non-confidential section, whose lock bit gates
//! whether the host may modify device configuration, and a confidential
//! section (key material bound to the TDI) of which only erasure is
//! observable.  The platform backend that performs the real lock, unlock
//! and scrub is an external collaborator with synchronous, deterministic
//! success/failure outcomes; the `*_backend_ok` fields model those
//! outcomes, so every handler is verified on both the succeeding and the
//! failing backend.
//!
//! Confidential secrets are never serialized into any message: nothing
//! here ever reaches the codec except through the erased/locked flags.

use vstd::prelude::*;

verus! {

/// Failure reported by the configuration backend for a lock, unlock,
/// erase or validate call.
#[derive(Clone, Copy, PartialEq, Eq, Structural, Debug)]
pub enum ConfigError {
    /// The backend refused or failed the operation.
    BackendFailure,
}

/// Device configuration bound to one TDI.
#[derive(Clone, Copy, PartialEq, Eq, Structural, Debug)]
pub struct ConfigurationStore {
    /// Whether the host may currently modify device configuration.
    pub unlocked: bool,
    /// Whether no confidential secret bound to the TDI is resident.
    pub confidential_erased: bool,
    /// Whether the non-confidential configuration passes validation.
    pub config_valid: bool,
    /// Deterministic outcome the backend gives a lock call.
    pub lock_backend_ok: bool,
    /// Deterministic outcome the backend gives an unlock call.
    pub unlock_backend_ok: bool,
    /// Deterministic outcome the backend gives an erase call.
    pub erase_backend_ok: bool,
}

impl ConfigurationStore {
    /// A freshly associated TDI: configuration unlocked, no secrets
    /// resident, configuration valid, backend healthy.
    pub fn new() -> (c: ConfigurationStore)
        ensures
            c == (ConfigurationStore {
                unlocked: true,
                confidential_erased: true,
                config_valid: true,
                lock_backend_ok: true,
                unlock_backend_ok: true,
                erase_backend_ok: true,
            }),
    {
        ConfigurationStore {
            unlocked: true,
            confidential_erased: true,
            config_valid: true,
            lock_backend_ok: true,
            unlock_backend_ok: true,
            erase_backend_ok: true,
        }
    }

    /// Checks the non-confidential configuration, mutating nothing:
    /// `Ok` exactly when it is valid.
    pub fn validate(&self) -> (r: Result<(), ConfigError>)
        ensures
            r is Ok <==> self.config_valid,
    {
        if self.config_valid {
            Ok(())
        } else {
            Err(ConfigError::BackendFailure)
        }
    }

    /// Locks the configuration.  On backend success the store is the old
    /// one with the lock set; on backend failure it is untouched.
    pub fn lock_config(&mut self) -> (r: Result<(), ConfigError>)
        ensures
            r is Ok <==> old(self).lock_backend_ok,
            old(self).lock_backend_ok ==> *final(self) == (ConfigurationStore {
                unlocked: false,
                ..*old(self)
            }),
            !old(self).lock_backend_ok ==> *final(self) == *old(self),
    {
        if self.lock_backend_ok {
            self.unlocked = false;
            Ok(())
        } else {
            Err(ConfigError::BackendFailure)
        }
    }

    /// Unlocks the configuration.  Scrub-before-unlock is mandatory:
    /// configuration must never become modifiable while secrets bound to
    /// the TDI are still resident, so erasure is a precondition here.  On
    /// backend success the store is the old one with the lock cleared; on
    /// backend failure it is untouched.
    pub fn unlock_config(&mut self) -> (r: Result<(), ConfigError>)
        requires
            old(self).confidential_erased,
        ensures
            r is Ok <==> old(self).unlock_backend_ok,
            old(self).unlock_backend_ok ==> *final(self) == (ConfigurationStore {
                unlocked: true,
                ..*old(self)
            }),
            !old(self).unlock_backend_ok ==> *final(self) == *old(self),
    {
        if self.unlock_backend_ok {
            self.unlocked = true;
            Ok(())
        } else {
            Err(ConfigError::BackendFailure)
        }
    }

    /// Irrecoverably scrubs the confidential secrets bound to the TDI.  On
    /// backend success the store is the old one with the secrets marked
    /// erased; on backend failure it is untouched.
    pub fn erase_confidential_config(&mut self) -> (r: Result<(), ConfigError>)
        ensures
            r is Ok <==> old(self).erase_backend_ok,
            old(self).erase_backend_ok ==> *final(self) == (ConfigurationStore {
                confidential_erased: true,
                ..*old(self)
            }),
            !old(self).erase_backend_ok ==> *final(self) == *old(self),
    {
        if self.erase_backend_ok {
            self.confidential_erased = true;
            Ok(())
        } else {
            Err(ConfigError::BackendFailure)
        }
    }

    /// Binds fresh confidential material to the TDI, as Start Interface
    /// provisions it.  Only a locked configuration may hold secrets, so
    /// the lock is a precondition here.
    pub fn provision_confidential_config(&mut self)
        requires
            !old(self).unlocked,
        ensures
            *final(self) == (ConfigurationStore { confidential_erased: false, ..*old(self) }),
    {
        self.confidential_erased = false;
    }
}

} // verus!
