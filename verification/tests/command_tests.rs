//! Command-layer constants, persisted-file naming and diagnostic texts.
use aoe4_overlay::store::{build_orders_changed_event, config_changed_event, MAX_IMPORT_SIZE};
use std::path::PathBuf;

#[test]
fn commands_test_max_import_size_constant() {
    assert_eq!(MAX_IMPORT_SIZE, 1024 * 1024);
    assert_eq!(MAX_IMPORT_SIZE, 1_048_576);
}

#[test]
fn commands_test_config_changed_event_name() {
    assert_eq!(config_changed_event(), "config-changed");
}

#[test]
fn commands_test_build_orders_changed_event_name() {
    assert_eq!(build_orders_changed_event(), "build-orders-changed");
}

#[test]
fn commands_test_max_import_size_is_reasonable() {
    assert!(MAX_IMPORT_SIZE >= 1024);
    assert!(MAX_IMPORT_SIZE <= 10 * 1024 * 1024);
}

#[test]
fn commands_test_format_build_order_filename() {
    let id = "english-rush-v1";
    let filename = format!("{}.json", id);
    assert_eq!(filename, "english-rush-v1.json");
    assert_eq!(
        aoe4_overlay::store::build_order_file_name(id),
        "english-rush-v1.json"
    );
}

#[test]
fn commands_test_format_file_size_error_message() {
    let file_size = 2_000_000u64;
    let error_msg = format!(
        "File too large: {} bytes (max {} bytes)",
        file_size, MAX_IMPORT_SIZE
    );
    assert!(error_msg.contains("2000000"));
    assert!(error_msg.contains("1048576"));
}

#[test]
fn commands_test_format_build_order_filename_with_special_chars() {
    let id = "english_rush-v1_pro";
    let filename = format!("{}.json", id);
    assert_eq!(filename, "english_rush-v1_pro.json");
}

#[test]
fn commands_test_format_build_order_filename_edge_cases() {
    let id = "a";
    assert_eq!(format!("{}.json", id), "a.json");

    let id = "a".repeat(100);
    let filename = format!("{}.json", id);
    assert_eq!(filename.len(), 105);
}

#[test]
fn commands_test_file_size_boundary_values() {
    let under_limit = MAX_IMPORT_SIZE - 1;
    assert!(under_limit < MAX_IMPORT_SIZE);

    let at_limit = MAX_IMPORT_SIZE;
    assert!(at_limit <= MAX_IMPORT_SIZE);

    let over_limit = MAX_IMPORT_SIZE + 1;
    assert!(over_limit > MAX_IMPORT_SIZE);
}

#[test]
fn commands_test_error_message_duplicate_build_order() {
    let id = "my-build";
    let error = format!(
        "A build order with id \"{}\" already exists. Delete or rename it before importing.",
        id
    );
    assert!(error.contains("my-build"));
    assert!(error.contains("already exists"));
}

#[test]
fn commands_test_error_message_cannot_access_file() {
    let error = format!("Cannot access file: {}", "No such file or directory");
    assert!(error.contains("Cannot access file"));
}

#[test]
fn commands_test_error_message_not_regular_file() {
    let error = "Path must be a regular file".to_string();
    assert_eq!(error, "Path must be a regular file");
}

#[test]
fn commands_test_error_message_invalid_format() {
    let json_error = "missing field `id`";
    let error = format!("Invalid build order format: {}", json_error);
    assert!(error.contains("Invalid build order format"));
    assert!(error.contains("missing field"));
}

#[test]
fn commands_test_error_message_failed_to_read() {
    let error = format!("Failed to read file: {}", "permission denied");
    assert!(error.contains("Failed to read file"));
}

#[test]
fn commands_test_error_message_failed_to_write() {
    let error = format!("Failed to write file: {}", "disk full");
    assert!(error.contains("Failed to write file"));
}

#[test]
fn commands_test_error_message_failed_to_delete() {
    let error = format!("Failed to delete build order file: {}", "permission denied");
    assert!(error.contains("Failed to delete"));
}

#[test]
fn commands_test_max_import_size_megabyte_conversion() {
    let bytes = MAX_IMPORT_SIZE;
    let kb = bytes / 1024;
    let mb = kb / 1024;
    assert_eq!(mb, 1);
    assert_eq!(kb, 1024);
}

#[test]
fn build_order_test_max_import_size_constant() {
    assert_eq!(MAX_IMPORT_SIZE, 1024 * 1024);
    assert_eq!(MAX_IMPORT_SIZE, 1_048_576);
}

#[test]
fn build_order_test_build_orders_changed_event_name() {
    assert_eq!(build_orders_changed_event(), "build-orders-changed");
}

#[test]
fn build_order_test_max_import_size_is_reasonable() {
    assert!(MAX_IMPORT_SIZE >= 1024);
    assert!(MAX_IMPORT_SIZE <= 10 * 1024 * 1024);
}

#[test]
fn build_order_test_pathbuf_from_string() {
    let path_str = "/some/path/to/file.json";
    let path = PathBuf::from(path_str);
    assert_eq!(path.to_str().unwrap(), path_str);
}

#[test]
fn build_order_test_format_build_order_filename() {
    let id = "english-rush-v1";
    let filename = format!("{}.json", id);
    assert_eq!(filename, "english-rush-v1.json");
    assert_eq!(
        aoe4_overlay::store::build_order_file_name(id),
        "english-rush-v1.json"
    );
}

#[test]
fn build_order_test_format_file_size_error_message() {
    let file_size = 2_000_000u64;
    let error_msg = format!(
        "File too large: {} bytes (max {} bytes)",
        file_size, MAX_IMPORT_SIZE
    );
    assert!(error_msg.contains("2000000"));
    assert!(error_msg.contains("1048576"));
}

#[test]
fn build_order_test_file_size_boundary_values() {
    let under_limit = MAX_IMPORT_SIZE - 1;
    assert!(under_limit < MAX_IMPORT_SIZE);

    let at_limit = MAX_IMPORT_SIZE;
    assert!(at_limit <= MAX_IMPORT_SIZE);

    let over_limit = MAX_IMPORT_SIZE + 1;
    assert!(over_limit > MAX_IMPORT_SIZE);
}

#[test]
fn build_order_test_error_message_duplicate_build_order() {
    let id = "my-build";
    let error = format!(
        "A build order with id \"{}\" already exists. Delete or rename it before importing.",
        id
    );
    assert!(error.contains("my-build"));
    assert!(error.contains("already exists"));
}

#[test]
fn build_order_test_error_message_cannot_access_file() {
    let error = format!("Cannot access file: {}", "No such file or directory");
    assert!(error.contains("Cannot access file"));
}

#[test]
fn build_order_test_error_message_not_regular_file() {
    let error = "Path must be a regular file".to_string();
    assert_eq!(error, "Path must be a regular file");
}

#[test]
fn build_order_test_error_message_invalid_format() {
    let json_error = "missing field `id`";
    let error = format!("Invalid build order format: {}", json_error);
    assert!(error.contains("Invalid build order format"));
    assert!(error.contains("missing field"));
}

#[test]
fn build_order_test_error_message_failed_to_read() {
    let error = format!("Failed to read file: {}", "permission denied");
    assert!(error.contains("Failed to read file"));
}

#[test]
fn build_order_test_error_message_failed_to_write() {
    let error = format!("Failed to write file: {}", "disk full");
    assert!(error.contains("Failed to write file"));
}

#[test]
fn build_order_test_error_message_failed_to_delete() {
    let error = format!("Failed to delete build order file: {}", "permission denied");
    assert!(error.contains("Failed to delete"));
}

#[test]
fn build_order_test_max_import_size_megabyte_conversion() {
    let bytes = MAX_IMPORT_SIZE;
    let kb = bytes / 1024;
    let mb = kb / 1024;
    assert_eq!(mb, 1);
    assert_eq!(kb, 1024);
}

#[test]
fn mod_test_format_build_order_filename_with_special_chars() {
    let id = "english_rush-v1_pro";
    let filename = format!("{}.json", id);
    assert_eq!(filename, "english_rush-v1_pro.json");
}

#[test]
fn mod_test_format_build_order_filename_edge_cases() {
    let id = "a";
    assert_eq!(format!("{}.json", id), "a.json");

    let id = "a".repeat(100);
    let filename = format!("{}.json", id);
    assert_eq!(filename.len(), 105);
}

#[test]
fn config_commands_test_config_changed_event_name() {
    assert_eq!(config_changed_event(), "config-changed");
}
