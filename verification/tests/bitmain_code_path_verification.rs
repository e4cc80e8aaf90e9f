//! Bitmain code-path checks: the profile-specific wire shapes of the
//! subscribe response, the extranonce-change message, the job format
//! and the notification envelope.

use stratum_service::compat::{
    classify_miner, uses_legacy_job_format, uses_minimal_notification, MinerProfile,
};
use stratum_service::protocol::{set_extranonce_params, subscribe_response};

/// Verify Bitmain subscribe response format structure
#[test]
fn test_bitmain_subscribe_response_format() {
    // Bitmain subscribe response format: [null, extranonce, extranonce2_size]
    let extranonce = ""; // Empty for Bitmain
    let response_array = subscribe_response(MinerProfile::Bitmain, extranonce);

    // Verify structure
    assert_eq!(response_array.len(), 3, "Bitmain subscribe response should have 3 elements");
    assert!(response_array[0].is_null(), "First element should be null");
    assert!(response_array[1].is_string(), "Second element should be string");
    assert!(response_array[2].is_number(), "Third element should be number");

    // Verify values
    assert_eq!(response_array[1].as_str(), Some(""), "Extranonce should be empty string");
    assert_eq!(response_array[2].as_u64(), Some(8), "extranonce2_size should be 8");
}

/// Verify non-Bitmain subscribe response format (for comparison)
#[test]
fn test_non_bitmain_subscribe_response_format() {
    // Format: [true, "EthereumStratum/1.0.0"]
    let response_array = subscribe_response(MinerProfile::IceRiver, "0001");

    assert_eq!(response_array.len(), 2, "Non-Bitmain subscribe response should have 2 elements");
    assert_eq!(response_array[0].as_bool(), Some(true), "First element should be true");
    assert_eq!(
        response_array[1].as_str(),
        Some("EthereumStratum/1.0.0"),
        "Second element should be protocol string"
    );
}

/// Verify Bitmain extranonce message format
#[test]
fn test_bitmain_extranonce_message_format() {
    // Bitmain format: [extranonce, extranonce2_size]
    let extranonce = "";
    let params = set_extranonce_params(MinerProfile::Bitmain, extranonce);

    assert_eq!(params.len(), 2, "Bitmain extranonce message should have 2 parameters");
    assert!(params[0].is_string(), "First parameter should be string");
    assert!(params[1].is_number(), "Second parameter should be number");
    assert_eq!(params[0].as_str(), Some(""), "Extranonce should be empty");
    assert_eq!(params[1].as_u64(), Some(8), "extranonce2_size should be 8");
}

/// Verify non-Bitmain extranonce message format (for comparison)
#[test]
fn test_non_bitmain_extranonce_message_format() {
    // Format: [extranonce] (single parameter)
    let extranonce = "0001";
    let params = set_extranonce_params(MinerProfile::Standard, extranonce);

    assert_eq!(params.len(), 1, "Non-Bitmain extranonce message should have 1 parameter");
    assert_eq!(params[0].as_str(), Some("0001"), "Extranonce should be provided");
}

/// Verify that job format selection logic distinguishes Bitmain
#[test]
fn test_job_format_selection_logic() {
    // Bitmain uses Legacy format (array + number)
    // IceRiver uses single hex string
    // BzMiner uses single hex string (big-endian)

    // Bitmain should use legacy format
    assert!(
        uses_legacy_job_format(classify_miner("GodMiner", false)),
        "Bitmain should use legacy format"
    );
    assert!(
        uses_legacy_job_format(classify_miner("bitmain", false)),
        "Bitmain should use legacy format"
    );

    // IceRiver should NOT use legacy format
    assert!(
        !uses_legacy_job_format(classify_miner("IceRiver", false)),
        "IceRiver should NOT use legacy format"
    );

    // BzMiner with big_job should NOT use legacy format
    assert!(
        !uses_legacy_job_format(classify_miner("BzMiner", true)),
        "BzMiner with big_job should NOT use legacy format"
    );
}

/// Verify notification format selection
#[test]
fn test_notification_format_selection() {
    // IceRiver uses minimal format (no id/jsonrpc)
    // Bitmain uses standard JSON-RPC format

    assert!(
        !uses_minimal_notification(classify_miner("GodMiner", false)),
        "Bitmain should NOT use minimal notification"
    );
    assert!(
        !uses_minimal_notification(classify_miner("bitmain", false)),
        "Bitmain should NOT use minimal notification"
    );
    assert!(
        uses_minimal_notification(classify_miner("IceRiver KS2L", false)),
        "IceRiver SHOULD use minimal notification"
    );
}
