//! Bitmain compatibility checks: constants, detection and extranonce
//! sizing, exercised through the library's public functions.

use std::time::Duration;

use stratum_service::compat::{
    bitmain_keywords, is_bitmain_miner, required_extranonce_size,
};
use stratum_service::constants::{
    BALANCE_DELAY_SECS, BITMAIN_EXTRANONCE2_SIZE, CLIENT_TIMEOUT_SECS, EXTRANONCE_SIZE_BITMAIN,
    EXTRANONCE_SIZE_NON_BITMAIN, IMMEDIATE_JOB_DELAY_MS, MAX_EXTRANONCE_VALUE, MAX_JOBS,
    READ_BUFFER_SIZE,
};
use stratum_service::compat::extranonce2_size_from_hex_len;

/// Verify that constants used by Bitmain code have correct values
#[test]
fn test_bitmain_related_constants() {
    // Bitmain uses extranonce_size = 0
    assert_eq!(EXTRANONCE_SIZE_BITMAIN, 0, "Bitmain should have extranonce_size = 0");

    // Bitmain extranonce2_size should be 8 (8 - (0 / 2) = 8)
    assert_eq!(BITMAIN_EXTRANONCE2_SIZE, 8, "Bitmain should have extranonce2_size = 8");

    // Other miners (IceRiver/BzMiner/Goldshell) use extranonce_size = 2
    assert_eq!(EXTRANONCE_SIZE_NON_BITMAIN, 2, "Non-Bitmain miners should have extranonce_size = 2");

    // Verify Bitmain detection keywords are correct
    let keywords = bitmain_keywords();
    assert!(keywords.contains(&"godminer"), "Bitmain keywords should include 'godminer'");
    assert!(keywords.contains(&"bitmain"), "Bitmain keywords should include 'bitmain'");
    assert!(keywords.contains(&"antminer"), "Bitmain keywords should include 'antminer'");
    assert_eq!(keywords.len(), 3, "Should have exactly 3 Bitmain keywords");
}

/// Test Bitmain miner detection logic
#[test]
fn test_bitmain_detection_logic() {
    // Test positive cases (should be detected as Bitmain)
    assert!(is_bitmain_miner("GodMiner v1.0"), "GodMiner should be detected");
    assert!(is_bitmain_miner("BITMAIN-ASIC"), "BITMAIN should be detected (case-insensitive)");
    assert!(is_bitmain_miner("antminer-ks"), "antminer should be detected (case-insensitive)");
    assert!(is_bitmain_miner("SomePrefixBitmainSuffix"), "Should match substring");

    // Test negative cases (should NOT be detected as Bitmain)
    assert!(!is_bitmain_miner("IceRiver KS2L"), "IceRiver should NOT be detected as Bitmain");
    assert!(!is_bitmain_miner("BzMiner"), "BzMiner should NOT be detected as Bitmain");
    assert!(!is_bitmain_miner("Goldshell"), "Goldshell should NOT be detected as Bitmain");
    assert!(!is_bitmain_miner(""), "Empty string should NOT be detected as Bitmain");
}

/// Test extranonce size assignment for Bitmain
#[test]
fn test_bitmain_extranonce_size_assignment() {
    assert_eq!(required_extranonce_size("GodMiner"), 0, "Bitmain should get extranonce_size = 0");
    assert_eq!(required_extranonce_size("bitmain"), 0, "Bitmain should get extranonce_size = 0");
    assert_eq!(required_extranonce_size("IceRiver"), 2, "IceRiver should get extranonce_size = 2");
    assert_eq!(required_extranonce_size("BzMiner"), 2, "BzMiner should get extranonce_size = 2");
}

/// Test extranonce2_size calculation for Bitmain
#[test]
fn test_bitmain_extranonce2_size_calculation() {
    // Simulate the calculation: extranonce2_size = 8 - (extranonce.len() / 2)
    // For Bitmain: extranonce is empty (length 0), so extranonce2_size = 8 - 0 = 8
    let bitmain_extranonce = ""; // Empty string for Bitmain
    let extranonce2_size = extranonce2_size_from_hex_len(bitmain_extranonce.len());

    assert_eq!(extranonce2_size, 8, "Bitmain extranonce2_size should be 8");
    assert_eq!(extranonce2_size, BITMAIN_EXTRANONCE2_SIZE, "Should match constant");

    // For non-Bitmain: extranonce is 4 hex chars (2 bytes), so extranonce2_size = 8 - 2 = 6
    let non_bitmain_extranonce = "0001"; // 2 bytes = 4 hex chars
    let extranonce2_size_non_bitmain = extranonce2_size_from_hex_len(non_bitmain_extranonce.len());
    assert_eq!(
        extranonce2_size_non_bitmain, 6,
        "Non-Bitmain with 2-byte extranonce should have extranonce2_size = 6"
    );
}

/// Verify that constants match expected protocol values
#[test]
fn test_constants_match_protocol_expectations() {
    // Timing constants should be reasonable
    assert!(Duration::from_millis(IMMEDIATE_JOB_DELAY_MS).as_millis() > 0, "Immediate job delay should be positive");
    assert!(Duration::from_secs(CLIENT_TIMEOUT_SECS).as_secs() > 0, "Client timeout should be positive");
    assert!(Duration::from_secs(BALANCE_DELAY_SECS).as_secs() > 0, "Balance delay should be positive");

    // Buffer sizes should be reasonable
    assert!(READ_BUFFER_SIZE > 0, "Read buffer size should be positive");
    assert!(MAX_JOBS > 0, "Max jobs should be positive");

    // Extranonce limits should be correct
    assert_eq!(MAX_EXTRANONCE_VALUE, 65535, "Max extranonce value should be 2^16 - 1");
    assert!(MAX_EXTRANONCE_VALUE > 0, "Max extranonce value should be positive");
}
