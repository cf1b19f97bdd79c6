//! The wipe authority: a biometric proof gates destructive cleanup.  Only a
//! `Verified` outcome ever rotates the vault's keys or directs removal of the
//! two persisted-state locations; every other outcome leaves all state
//! untouched and reports failure.

use vstd::prelude::*;
use crate::biometric::BiometricOutcome;
use crate::vault::CryptoError;
use crate::vault::CryptoVault;
use crate::vault::zero_seq;

verus! {

/// The outcome of one wipe invocation; produced per invocation, never
/// persisted.
#[derive(Clone, Copy, PartialEq, Eq, Structural, Debug)]
pub struct WipeOutcome {
    pub success: bool,
}

/// How the best-effort removal of one persisted-state location ended.
/// Absence of the location is not an error: removal is idempotent.
#[derive(Clone, Copy, PartialEq, Eq, Structural, Debug)]
pub enum CleanupStatus {
    /// The location existed and was removed.
    Removed,
    /// The location was already absent.
    AlreadyAbsent,
    /// The location could not be removed; the other location is still
    /// attempted independently.
    Failed,
}

/// What one invocation of the authority decides: whether the vault was
/// rotated, and whether each persisted-state location must be removed.
#[derive(Clone, Copy, PartialEq, Eq, Structural, Debug)]
pub struct WipeDecision {
    pub wiped: bool,
    pub remove_config_dir: bool,
    pub remove_temp_dir: bool,
}

/// The destructive half of an authorized emergency wipe: rotates the vault's
/// keys and directs removal of both well-known persisted-state locations.
/// When the random source refuses the rotation, nothing changes and no
/// removal is directed.
pub fn secure_wipe(vault: &mut CryptoVault) -> (r: Result<WipeDecision, CryptoError>)
    ensures
        r is Ok ==> final(vault).wf(),
        r is Ok ==> final(vault).spec_aes_nonces() == seq![zero_seq(12)],
        r is Ok ==> final(vault).spec_chacha_nonces() == seq![zero_seq(24)],
        r is Ok ==> r.unwrap() == (WipeDecision {
            wiped: true,
            remove_config_dir: true,
            remove_temp_dir: true,
        }),
        r is Err ==> *final(vault) == *old(vault) && r == Err::<WipeDecision, CryptoError>(
            CryptoError::RandomSourceFailure,
        ),
{
    match vault.wipe_keys() {
        Ok(()) => Ok(
            WipeDecision { wiped: true, remove_config_dir: true, remove_temp_dir: true },
        ),
        Err(e) => Err(e),
    }
}

/// Why one invocation of the wipe authority performed nothing.  The two
/// causes are kept apart so that a vault rotation failure is surfaced for
/// audit, never folded silently into a biometric refusal.
#[derive(Clone, Copy, PartialEq, Eq, Structural, Debug)]
pub enum WipeRefusal {
    /// The biometric outcome was not `Verified`: nothing may change.
    NotAuthorized,
    /// The proof was accepted, but the random source refused the key
    /// rotation; the vault is unchanged rather than half-wiped.
    RotationFailed,
}

/// One invocation of the wipe authority, gated on the caller-supplied
/// biometric outcome.
///
/// A non-`Verified` outcome performs no mutation whatsoever: the vault is
/// byte-for-byte unchanged, no removal is directed, and the refusal says so.
/// A `Verified` outcome rotates the vault's keys and directs removal of both
/// locations; only when the random source refuses the rotation does a
/// `Verified` invocation leave the vault unchanged — and that failure is
/// reported as its own cause.
pub fn process_wipe(vault: &mut CryptoVault, outcome: &BiometricOutcome) -> (r: Result<
    WipeDecision,
    WipeRefusal,
>)
    ensures
        !(outcome is Verified) ==> *final(vault) == *old(vault) && r == Err::<
            WipeDecision,
            WipeRefusal,
        >(WipeRefusal::NotAuthorized),
        outcome is Verified && r is Err ==> *final(vault) == *old(vault) && r == Err::<
            WipeDecision,
            WipeRefusal,
        >(WipeRefusal::RotationFailed),
        r is Ok ==> outcome is Verified,
        r is Ok ==> final(vault).wf() && final(vault).spec_aes_nonces() == seq![zero_seq(12)]
            && final(vault).spec_chacha_nonces() == seq![zero_seq(24)],
        r is Ok ==> r.unwrap() == (WipeDecision {
            wiped: true,
            remove_config_dir: true,
            remove_temp_dir: true,
        }),
{
    match outcome {
        BiometricOutcome::Verified => {
            match secure_wipe(vault) {
                Ok(d) => Ok(d),
                Err(_) => Err(WipeRefusal::RotationFailed),
            }
        },
        _ => Err(WipeRefusal::NotAuthorized),
    }
}

/// Whether a cleanup location ended acceptably: removed, or already absent.
pub open spec fn cleanup_ok(s: CleanupStatus) -> bool {
    s is Removed || s is AlreadyAbsent
}

/// Folds the two independently attempted removals into one answer for the
/// audit log: clean exactly when each location was removed or already
/// absent.  A failure on one location never hides the other's status.
pub fn cleanup_clean(config_dir: &CleanupStatus, temp_dir: &CleanupStatus) -> (r: bool)
    ensures
        r == (cleanup_ok(*config_dir) && cleanup_ok(*temp_dir)),
{
    let a = match config_dir {
        CleanupStatus::Failed => false,
        _ => true,
    };
    let b = match temp_dir {
        CleanupStatus::Failed => false,
        _ => true,
    };
    a && b
}

/// The outcome reported for one invocation: success exactly when the proof
/// was accepted and the vault rotated — the directories' prior existence
/// never affects it.
pub fn wipe_outcome(result: &Result<WipeDecision, WipeRefusal>) -> (r: WipeOutcome)
    ensures
        r.success == (result is Ok),
{
    WipeOutcome { success: result.is_ok() }
}

} // verus!
