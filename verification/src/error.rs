//! The reasons for which a poller turns a waiter down.
use vstd::prelude::*;

verus! {

/// A different waiter is registered already.
#[derive(Debug)]
pub struct SetWaiterError;

impl SetWaiterError {
    /// The error in words.
    pub fn to_string(&self) -> (text: String)
        ensures
            text@ == "Failed to set waiter: conflict"@,
    {
        "Failed to set waiter: conflict".to_string()
    }
}

/// Why a local waiter was turned down.
#[derive(Debug)]
pub enum SetLocalWaiterError {
    /// A different waiter is registered already.
    Conflict,
    /// The poller takes no local waiters.
    Unsupported,
}

impl SetLocalWaiterError {
    /// The error in words.
    pub fn to_string(&self) -> (text: String)
        ensures
            text@ == match *self {
                SetLocalWaiterError::Conflict => "Failed to set local waiter: conflict"@,
                SetLocalWaiterError::Unsupported => "Failed to set local waiter: unsupported"@,
            },
    {
        match self {
            SetLocalWaiterError::Conflict => "Failed to set local waiter: conflict".to_string(),
            SetLocalWaiterError::Unsupported => "Failed to set local waiter: unsupported".to_string(),
        }
    }
}

} // verus!
