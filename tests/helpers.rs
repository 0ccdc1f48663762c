use quantum_exegol::utils::{
    container_name_char_allowed, format_timestamp, get_app_data_dir, get_logs_dir, get_workspace_dir,
    validate_container_name, validate_image_name,
};

#[test]
fn timestamp_display() {
    assert_eq!(format_timestamp("2026-02-20T10:00:00Z"), "2026-02-20 10:00:00");
    assert_eq!(format_timestamp(""), "");
    assert_eq!(format_timestamp("TZTZ"), "  ");
    assert_eq!(format_timestamp("été"), "été");
}

#[test]
fn directories() {
    assert!(get_app_data_dir().ends_with("quantum-exegol"));
    assert!(get_logs_dir().ends_with("quantum-exegol/logs"));
    assert!(get_workspace_dir().ends_with("quantum-workspace"));
}

#[test]
fn container_names() {
    assert_eq!(validate_container_name(""), Err("Container name cannot be empty".to_string()));
    assert_eq!(validate_container_name(&"a".repeat(65)), Err("Container name too long (max 64 characters)".to_string()));
    assert_eq!(validate_container_name(&"a".repeat(64)), Ok(()));
    assert_eq!(validate_container_name(&"é".repeat(33)), Err("Container name too long (max 64 characters)".to_string()));
    assert_eq!(validate_container_name(&"é".repeat(32)), Ok(()));
    assert_eq!(validate_container_name("quantum_box-1"), Ok(()));
    assert_eq!(validate_container_name("bad name"), Err("Container name contains invalid characters".to_string()));
    assert_eq!(validate_container_name("a.b"), Err("Container name contains invalid characters".to_string()));
    assert!(container_name_char_allowed('-', false));
    assert!(container_name_char_allowed('x', true));
    assert!(!container_name_char_allowed('.', false));
}

#[test]
fn image_names() {
    assert_eq!(validate_image_name(""), Err("Image name cannot be empty".to_string()));
    assert_eq!(validate_image_name("ubuntu"), Err("Invalid image name format".to_string()));
    assert_eq!(validate_image_name("ubuntu:22.04"), Ok(()));
    assert_eq!(validate_image_name("quantum/security"), Ok(()));
}
