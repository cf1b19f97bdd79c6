//! The biometric proof at the core's boundary: an opaque platform capability
//! resolves to one of four outcomes, and only `Verified` ever authorizes a
//! destructive action.  Platform-specific capabilities live in the
//! surrounding application; the core never branches on platform identity.

use vstd::prelude::*;

verus! {

/// The closed set of outcomes a platform biometric capability resolves to.
#[derive(Clone, Copy, PartialEq, Eq, Structural, Debug)]
pub enum BiometricOutcome {
    /// The platform verified the user's presence and identity.
    Verified,
    /// The platform offers no biometric capability.
    Unsupported,
    /// The user failed the biometric check.
    AuthFailed,
    /// The biometric hardware failed.
    HardwareError,
}

/// Why a biometric proof was not obtained; fatal only to the request it
/// gated, never to any other state.
#[derive(Clone, Copy, PartialEq, Eq, Structural, Debug)]
pub enum BiometricError {
    UnsupportedPlatform,
    AuthenticationFailed,
    HardwareError,
}

impl BiometricError {
    /// The fixed description of each failure.
    pub fn message(&self) -> (r: &'static str)
        ensures
            r@ == (match self {
                BiometricError::UnsupportedPlatform => {
                    "Biometric authentication not supported on this platform"@
                },
                BiometricError::AuthenticationFailed => "Biometric authentication failed"@,
                BiometricError::HardwareError => "Biometric hardware error"@,
            }),
    {
        match self {
            BiometricError::UnsupportedPlatform => {
                "Biometric authentication not supported on this platform"
            },
            BiometricError::AuthenticationFailed => "Biometric authentication failed",
            BiometricError::HardwareError => "Biometric hardware error",
        }
    }
}

/// The result the authenticate capability reports for each outcome: only
/// `Verified` succeeds, and each negative outcome keeps its identity.
pub fn outcome_to_result(o: &BiometricOutcome) -> (r: Result<(), BiometricError>)
    ensures
        r == (match o {
            BiometricOutcome::Verified => Ok::<(), BiometricError>(()),
            BiometricOutcome::Unsupported => Err::<(), BiometricError>(
                BiometricError::UnsupportedPlatform,
            ),
            BiometricOutcome::AuthFailed => Err::<(), BiometricError>(
                BiometricError::AuthenticationFailed,
            ),
            BiometricOutcome::HardwareError => Err::<(), BiometricError>(
                BiometricError::HardwareError,
            ),
        }),
{
    match o {
        BiometricOutcome::Verified => Ok(()),
        BiometricOutcome::Unsupported => Err(BiometricError::UnsupportedPlatform),
        BiometricOutcome::AuthFailed => Err(BiometricError::AuthenticationFailed),
        BiometricOutcome::HardwareError => Err(BiometricError::HardwareError),
    }
}

/// Biometric proof on a platform without a biometric capability: always
/// refused as unsupported, so nothing destructive can ever be authorized
/// here.
pub fn authenticate() -> (r: Result<(), BiometricError>)
    ensures
        r == Err::<(), BiometricError>(BiometricError::UnsupportedPlatform),
{
    Err(BiometricError::UnsupportedPlatform)
}

} // verus!
