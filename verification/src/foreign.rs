//! The decisions of a node state store whose storage the host provides
//! through callbacks: which callbacks must be present, and what each
//! status a callback returns means for the store.
use vstd::prelude::*;

use crate::errors::{StorageError, WispersStatus};

verus! {

/// The size of the first buffer handed to the host when loading a
/// registration.
pub const INITIAL_REGISTRATION_BUFFER: usize = 256;

/// Which of the host's storage callbacks are present.
#[derive(Debug, Clone, Copy, PartialEq, Eq, Structural)]
pub struct CallbackSet {
    pub load_root_key: bool,
    pub save_root_key: bool,
    pub delete_root_key: bool,
    pub load_registration: bool,
    pub save_registration: bool,
    pub delete_registration: bool,
}

/// The first missing callback, in the order the store needs them.
pub open spec fn first_missing_callback(c: CallbackSet) -> Option<Seq<char>> {
    if !c.load_root_key {
        Some("load_root_key"@)
    } else if !c.save_root_key {
        Some("save_root_key"@)
    } else if !c.delete_root_key {
        Some("delete_root_key"@)
    } else if !c.load_registration {
        Some("load_registration"@)
    } else if !c.save_registration {
        Some("save_registration"@)
    } else if !c.delete_registration {
        Some("delete_registration"@)
    } else {
        None
    }
}

/// A store is built only when every callback is present; otherwise the
/// first missing one is named.
pub fn check_callbacks(c: &CallbackSet) -> (r: Result<(), StorageError>)
    ensures
        match first_missing_callback(*c) {
            None => r is Ok,
            Some(name) => r matches Err(StorageError::MissingCallback(n)) && n@ == name,
        },
{
    if !c.load_root_key {
        return Err(StorageError::MissingCallback("load_root_key"));
    }
    if !c.save_root_key {
        return Err(StorageError::MissingCallback("save_root_key"));
    }
    if !c.delete_root_key {
        return Err(StorageError::MissingCallback("delete_root_key"));
    }
    if !c.load_registration {
        return Err(StorageError::MissingCallback("load_registration"));
    }
    if !c.save_registration {
        return Err(StorageError::MissingCallback("save_registration"));
    }
    if !c.delete_registration {
        return Err(StorageError::MissingCallback("delete_registration"));
    }
    Ok(())
}

/// Loading the root key: success means the buffer holds the key, not
/// found means there is no stored state, anything else fails.
pub fn root_key_load_outcome(status: WispersStatus) -> (r: Result<bool, StorageError>)
    ensures
        status is Success ==> r == Ok::<bool, StorageError>(true),
        status is NotFound ==> r == Ok::<bool, StorageError>(false),
        !(status is Success) && !(status is NotFound) ==> (r matches Err(
            StorageError::ForeignStatus(s),
        ) && s == status),
{
    match status {
        WispersStatus::Success => Ok(true),
        WispersStatus::NotFound => Ok(false),
        other => Err(StorageError::ForeignStatus(other)),
    }
}

/// Saving: only success succeeds.
pub fn save_outcome(status: WispersStatus) -> (r: Result<(), StorageError>)
    ensures
        status is Success ==> r is Ok,
        !(status is Success) ==> (r matches Err(StorageError::ForeignStatus(s)) && s == status),
{
    match status {
        WispersStatus::Success => Ok(()),
        other => Err(StorageError::ForeignStatus(other)),
    }
}

/// Deleting: deleting what is not there succeeds too.
pub fn delete_outcome(status: WispersStatus) -> (r: Result<(), StorageError>)
    ensures
        status is Success || status is NotFound ==> r is Ok,
        !(status is Success || status is NotFound) ==> (r matches Err(
            StorageError::ForeignStatus(s),
        ) && s == status),
{
    match status {
        WispersStatus::Success | WispersStatus::NotFound => Ok(()),
        other => Err(StorageError::ForeignStatus(other)),
    }
}

/// What to do after one call of the host's registration loader.
#[derive(Debug, Clone)]
pub enum RegistrationLoadStep {
    /// The first `len` bytes of the buffer hold the encoded registration.
    Decode(usize),
    /// No registration is stored.
    Missing,
    /// Call again with a buffer of this many bytes.
    Grow(usize),
    /// Give up with this error.
    Fail(StorageError),
}

/// The step after the loader returned `status` and asked for `required`
/// bytes. A too-small buffer with no size asked for is an error, so the
/// loader cannot keep the store calling it with the same buffer.
pub open spec fn load_step(status: WispersStatus, required: usize) -> RegistrationLoadStep {
    match status {
        WispersStatus::Success => RegistrationLoadStep::Decode(required),
        WispersStatus::NotFound => RegistrationLoadStep::Missing,
        WispersStatus::BufferTooSmall => if required == 0 {
            RegistrationLoadStep::Fail(StorageError::ForeignStatus(WispersStatus::BufferTooSmall))
        } else {
            RegistrationLoadStep::Grow(required)
        },
        _ => RegistrationLoadStep::Fail(StorageError::ForeignStatus(status)),
    }
}

/// The step after the loader returned `status` and asked for `required`
/// bytes.
pub fn registration_load_step(status: WispersStatus, required: usize) -> (r:
    RegistrationLoadStep)
    ensures
        r == load_step(status, required),
{
    match status {
        WispersStatus::Success => RegistrationLoadStep::Decode(required),
        WispersStatus::NotFound => RegistrationLoadStep::Missing,
        WispersStatus::BufferTooSmall => {
            if required == 0 {
                RegistrationLoadStep::Fail(StorageError::ForeignStatus(WispersStatus::BufferTooSmall))
            } else {
                RegistrationLoadStep::Grow(required)
            }
        },
        other => RegistrationLoadStep::Fail(StorageError::ForeignStatus(other)),
    }
}

/// Loading a registration from the host: the size of the buffer to hand
/// to the loader's next call.
pub struct RegistrationLoader {
    pub buffer_len: usize,
}

impl RegistrationLoader {
    /// The first call gets a buffer of `INITIAL_REGISTRATION_BUFFER` bytes.
    pub fn new() -> (r: Self)
        ensures
            r.buffer_len == INITIAL_REGISTRATION_BUFFER,
    {
        RegistrationLoader { buffer_len: INITIAL_REGISTRATION_BUFFER }
    }

    /// The step after a call of the loader; when the loader asks for a
    /// larger buffer, the next call gets a buffer of the size it asked for.
    pub fn next(&mut self, status: WispersStatus, required: usize) -> (r: RegistrationLoadStep)
        ensures
            r == load_step(status, required),
            r matches RegistrationLoadStep::Grow(n) ==> final(self).buffer_len == n,
            !(r is Grow) ==> final(self).buffer_len == old(self).buffer_len,
    {
        let step = registration_load_step(status, required);
        if let RegistrationLoadStep::Grow(n) = step {
            self.buffer_len = n;
        }
        step
    }
}

} // verus!
