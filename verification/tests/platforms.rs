use gpmcp_layer::platforms::{has_process_groups, platform_name, Platform};

#[test]
fn test_platform_detection() {
    for p in [Platform::Unix, Platform::Windows, Platform::Other] {
        let platform = platform_name(p);
        println!("Running on platform: {}", platform);
        assert!(["Unix", "Windows", "Unknown"].contains(&platform));
    }
}

#[test]
fn platform_names() {
    assert_eq!(platform_name(Platform::Unix), "Unix");
    assert_eq!(platform_name(Platform::Windows), "Windows");
    assert_eq!(platform_name(Platform::Other), "Unknown");
    assert!(has_process_groups(Platform::Unix));
    assert!(!has_process_groups(Platform::Windows));
    assert!(!has_process_groups(Platform::Other));
}
