use escape_core::biometric::authenticate;
use escape_core::biometric::outcome_to_result;
use escape_core::biometric::BiometricError;
use escape_core::biometric::BiometricOutcome;
use escape_core::codes::check_code;
use escape_core::codes::format_code;
use escape_core::codes::generate_one_time_code;
use escape_core::codes::handle_auth;
use escape_core::codes::AuthRequest;
use escape_core::config::validate_tunnel_key;
use escape_core::config::validate_wireguard_config;
use escape_core::config::AddressRange;
use escape_core::config::Endpoint;
use escape_core::config::WireGuardConfig;

#[test]
fn codes_are_six_zero_padded_digits() {
    assert_eq!(format_code(0), "000000");
    assert_eq!(format_code(7), "000007");
    assert_eq!(format_code(42), "000042");
    assert_eq!(format_code(123456), "123456");
    assert_eq!(format_code(999999), "999999");
}

#[test]
fn generated_codes_stay_in_range() {
    for _ in 0..32 {
        let code = generate_one_time_code().unwrap();
        assert_eq!(code.len(), 6);
        assert!(code.chars().all(|c| c.is_ascii_digit()));
        assert!(code.parse::<u32>().unwrap() < 1_000_000);
    }
}

#[test]
fn known_code_is_accepted_and_codes_are_unchanged() {
    let codes = vec!["123456".to_string(), "000042".to_string()];
    assert!(check_code(&codes, &"123456".to_string()));
    assert!(check_code(&codes, &"000042".to_string()));
    assert!(!check_code(&codes, &"654321".to_string()));
    assert_eq!(codes, vec!["123456".to_string(), "000042".to_string()]);
}

#[test]
fn auth_request_is_decided_by_membership() {
    let codes = vec!["271828".to_string()];
    let accepted = handle_auth(&codes, &AuthRequest { code: "271828".to_string() });
    assert!(accepted.success);
    let refused = handle_auth(&codes, &AuthRequest { code: "314159".to_string() });
    assert!(!refused.success);
}

#[test]
fn fallback_authenticate_is_always_unsupported() {
    assert_eq!(authenticate(), Err(BiometricError::UnsupportedPlatform));
}

#[test]
fn outcomes_map_to_their_results() {
    assert_eq!(outcome_to_result(&BiometricOutcome::Verified), Ok(()));
    assert_eq!(
        outcome_to_result(&BiometricOutcome::Unsupported),
        Err(BiometricError::UnsupportedPlatform)
    );
    assert_eq!(
        outcome_to_result(&BiometricOutcome::AuthFailed),
        Err(BiometricError::AuthenticationFailed)
    );
    assert_eq!(
        outcome_to_result(&BiometricOutcome::HardwareError),
        Err(BiometricError::HardwareError)
    );
}

#[test]
fn biometric_errors_describe_themselves() {
    assert_eq!(
        BiometricError::UnsupportedPlatform.message(),
        "Biometric authentication not supported on this platform"
    );
    assert_eq!(BiometricError::AuthenticationFailed.message(), "Biometric authentication failed");
    assert_eq!(BiometricError::HardwareError.message(), "Biometric hardware error");
}

#[test]
fn endpoints_and_ranges_render_in_dotted_decimal() {
    let e = Endpoint { a: 203, b: 0, c: 113, d: 5, port: 443 };
    assert_eq!(e.to_display(), "203.0.113.5:443");
    let r = AddressRange { a: 10, b: 0, c: 0, d: 0, prefix: 8 };
    assert_eq!(r.to_display(), "10.0.0.0/8");
    assert!(r.is_valid());
    assert!(!AddressRange { a: 10, b: 0, c: 0, d: 0, prefix: 33 }.is_valid());
}

#[test]
fn tunnel_keys_must_be_base64_of_a_256_bit_key() {
    let good = format!("{}=", "A".repeat(43));
    assert!(validate_tunnel_key(&good));
    assert!(!validate_tunnel_key("short="));
    assert!(!validate_tunnel_key(&"A".repeat(44)));
    let bad_char = format!("{}!{}=", "A".repeat(21), "A".repeat(21));
    assert!(!validate_tunnel_key(&bad_char));
}

#[test]
fn wireguard_config_validation_checks_keys_and_ranges() {
    let good_key = format!("{}=", "A".repeat(43));
    let endpoint = Endpoint { a: 192, b: 0, c: 2, d: 1, port: 51820 };
    let good = WireGuardConfig {
        private_key: good_key.clone(),
        public_key: good_key.clone(),
        endpoint,
        allowed_ips: vec![AddressRange { a: 0, b: 0, c: 0, d: 0, prefix: 0 }],
    };
    assert!(validate_wireguard_config(&good));
    let bad_range = WireGuardConfig {
        private_key: good_key.clone(),
        public_key: good_key.clone(),
        endpoint,
        allowed_ips: vec![AddressRange { a: 0, b: 0, c: 0, d: 0, prefix: 40 }],
    };
    assert!(!validate_wireguard_config(&bad_range));
    let bad_key = WireGuardConfig {
        private_key: "nope".to_string(),
        public_key: good_key,
        endpoint,
        allowed_ips: Vec::new(),
    };
    assert!(!validate_wireguard_config(&bad_key));
}
