use escape_core::biometric::BiometricOutcome;
use escape_core::vault::CryptoError;
use escape_core::vault::CryptoVault;
use escape_core::wipe::process_wipe;
use escape_core::wipe::secure_wipe;
use escape_core::wipe::wipe_outcome;
use escape_core::wipe::cleanup_clean;
use escape_core::wipe::CleanupStatus;
use escape_core::wipe::WipeRefusal;

#[test]
fn encryption_appends_tag_and_transforms_data() {
    let mut vault = CryptoVault::new().unwrap();
    let data = b"attack at dawn";
    let ct = vault.encrypt_aes(data, vec![1u8; 12]).unwrap();
    assert_eq!(ct.len(), data.len() + 16);
    assert_ne!(&ct[..data.len()], &data[..]);
    let ct2 = vault.encrypt_chacha(data, vec![1u8; 24]).unwrap();
    assert_eq!(ct2.len(), data.len() + 16);
    assert_ne!(&ct2[..data.len()], &data[..]);
}

#[test]
fn distinct_nonces_give_distinct_ciphertexts() {
    let mut vault = CryptoVault::new().unwrap();
    let data = b"the same plaintext";
    let c1 = vault.encrypt_aes(data, vec![1u8; 12]).unwrap();
    let c2 = vault.encrypt_aes(data, vec![2u8; 12]).unwrap();
    assert_ne!(c1, c2);
    let d1 = vault.encrypt_chacha(data, vec![1u8; 24]).unwrap();
    let d2 = vault.encrypt_chacha(data, vec![2u8; 24]).unwrap();
    assert_ne!(d1, d2);
}

#[test]
fn nonce_reuse_is_rejected() {
    let mut vault = CryptoVault::new().unwrap();
    vault.encrypt_aes(b"first", vec![7u8; 12]).unwrap();
    let again = vault.encrypt_aes(b"second", vec![7u8; 12]);
    assert_eq!(again, Err(CryptoError::NonceReused));
    vault.encrypt_chacha(b"first", vec![7u8; 24]).unwrap();
    let again2 = vault.encrypt_chacha(b"second", vec![7u8; 24]);
    assert_eq!(again2, Err(CryptoError::NonceReused));
}

#[test]
fn reserved_zero_nonce_is_never_accepted() {
    let mut vault = CryptoVault::new().unwrap();
    assert_eq!(vault.encrypt_aes(b"x", vec![0u8; 12]), Err(CryptoError::NonceReused));
    assert_eq!(vault.encrypt_chacha(b"x", vec![0u8; 24]), Err(CryptoError::NonceReused));
}

#[test]
fn wrong_nonce_length_is_rejected() {
    let mut vault = CryptoVault::new().unwrap();
    assert_eq!(vault.encrypt_aes(b"x", vec![1u8; 11]), Err(CryptoError::InvalidNonceLength));
    assert_eq!(vault.encrypt_aes(b"x", vec![1u8; 24]), Err(CryptoError::InvalidNonceLength));
    assert_eq!(vault.encrypt_chacha(b"x", vec![1u8; 12]), Err(CryptoError::InvalidNonceLength));
}

#[test]
fn key_check_value_is_stable_between_wipes() {
    let vault = CryptoVault::new().unwrap();
    assert_eq!(vault.key_check_value(), vault.key_check_value());
    assert_eq!(vault.key_check_value().len(), 32);
}

#[test]
fn wipe_replaces_both_keys_and_keeps_the_vault_usable() {
    let mut vault = CryptoVault::new().unwrap();
    let before = vault.key_check_value();
    vault.wipe_keys().unwrap();
    let after = vault.key_check_value();
    assert_ne!(before, after);
    vault.wipe_keys().unwrap();
    let later = vault.key_check_value();
    assert_ne!(after, later);
    assert_ne!(before, later);
    // Still two usable keys after a wipe, and spent nonces are forgotten.
    vault.encrypt_aes(b"still alive", vec![9u8; 12]).unwrap();
    vault.encrypt_chacha(b"still alive", vec![9u8; 24]).unwrap();
}

#[test]
fn wipe_forgets_previously_spent_nonces() {
    let mut vault = CryptoVault::new().unwrap();
    vault.encrypt_aes(b"first", vec![5u8; 12]).unwrap();
    assert_eq!(vault.encrypt_aes(b"second", vec![5u8; 12]), Err(CryptoError::NonceReused));
    vault.wipe_keys().unwrap();
    assert!(vault.encrypt_aes(b"third", vec![5u8; 12]).is_ok());
}

#[test]
fn unverified_outcome_leaves_vault_unchanged_and_fails() {
    for outcome in [
        BiometricOutcome::Unsupported,
        BiometricOutcome::AuthFailed,
        BiometricOutcome::HardwareError,
    ] {
        let mut vault = CryptoVault::new().unwrap();
        let before = vault.key_check_value();
        let result = process_wipe(&mut vault, &outcome);
        assert_eq!(result, Err(WipeRefusal::NotAuthorized));
        assert!(!wipe_outcome(&result).success);
        assert_eq!(vault.key_check_value(), before);
    }
}

#[test]
fn verified_outcome_rotates_keys_and_directs_both_removals() {
    let mut vault = CryptoVault::new().unwrap();
    let before = vault.key_check_value();
    let result = process_wipe(&mut vault, &BiometricOutcome::Verified);
    let decision = result.unwrap();
    assert!(decision.wiped);
    assert!(decision.remove_config_dir);
    assert!(decision.remove_temp_dir);
    assert!(wipe_outcome(&Ok(decision)).success);
    assert_ne!(vault.key_check_value(), before);
}

#[test]
fn secure_wipe_directs_full_cleanup() {
    let mut vault = CryptoVault::new().unwrap();
    let decision = secure_wipe(&mut vault).unwrap();
    assert!(decision.wiped && decision.remove_config_dir && decision.remove_temp_dir);
}

#[test]
fn cleanup_tolerates_absent_locations_but_not_failures() {
    assert!(cleanup_clean(&CleanupStatus::Removed, &CleanupStatus::AlreadyAbsent));
    assert!(cleanup_clean(&CleanupStatus::AlreadyAbsent, &CleanupStatus::AlreadyAbsent));
    assert!(!cleanup_clean(&CleanupStatus::Failed, &CleanupStatus::Removed));
    assert!(!cleanup_clean(&CleanupStatus::Removed, &CleanupStatus::Failed));
}
