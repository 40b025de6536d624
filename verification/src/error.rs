//! Why a registry operation was refused.

use vstd::prelude::*;

verus! {

/// Every failure is local to one connection; none leaves the registry in a
/// broken state.
#[derive(Debug, Clone, Copy, PartialEq, Eq, Structural)]
pub enum RegistryError {
    /// No live session has the given identity.
    NotFound,
    /// The identity already belongs to a live session.
    IdentityInUse,
    /// Some session holds the requested display name.
    NameTaken,
    /// The session has not claimed a display name yet.
    Unauthenticated,
    /// The session's outbound endpoint is closed and took nothing.
    DeliveryFailure,
}

impl RegistryError {
    /// A short description for logs.
    pub fn describe(&self) -> (text: &'static str)
        ensures
            text@ == match *self {
                RegistryError::NotFound => "peer should be in list"@,
                RegistryError::IdentityInUse => "peer is already in list"@,
                RegistryError::NameTaken => "username is not available"@,
                RegistryError::Unauthenticated => "username should exist"@,
                RegistryError::DeliveryFailure => "could not send message to rx"@,
            },
    {
        match self {
            RegistryError::NotFound => "peer should be in list",
            RegistryError::IdentityInUse => "peer is already in list",
            RegistryError::NameTaken => "username is not available",
            RegistryError::Unauthenticated => "username should exist",
            RegistryError::DeliveryFailure => "could not send message to rx",
        }
    }
}

} // verus!
