use blocklist::request_computer_use::{
    computer_use_result, should_autoexecute_computer_use, ComputerUsePermission,
    RequestComputerUseResult,
};

#[test]
fn a_screenshot_on_a_known_platform_approves() {
    assert_eq!(
        computer_use_result(Ok(Some("png")), Some("macos")),
        RequestComputerUseResult::Approved { screenshot: "png", platform: "macos" }
    );
}

#[test]
fn anything_else_is_an_error() {
    assert_eq!(
        computer_use_result::<&str, &str>(Ok(Some("png")), None),
        RequestComputerUseResult::Error("Unknown platform".to_string())
    );
    assert_eq!(
        computer_use_result::<&str, &str>(Ok(None), Some("linux")),
        RequestComputerUseResult::Error("Failed to capture initial screenshot".to_string())
    );
    assert_eq!(
        computer_use_result::<&str, &str>(Err("no display".to_string()), Some("linux")),
        RequestComputerUseResult::Error("no display".to_string())
    );
}

#[test]
fn computer_use_runs_alone_only_when_always_allowed() {
    assert!(should_autoexecute_computer_use(ComputerUsePermission::AlwaysAllow));
    assert!(!should_autoexecute_computer_use(ComputerUsePermission::AlwaysAsk));
    assert!(!should_autoexecute_computer_use(ComputerUsePermission::Never));
}
