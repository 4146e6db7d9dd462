use dsh_desktop::bootstrap::DSH_URL;
use dsh_desktop::desktop::{
    auth_retry_for_target, auth_retry_matches_session, centered_origin, close_action, icon_rgba,
    install_failure_message, install_timeout_secs, is_dsh_page, main_ipc_command, menu_action,
    navigation_script, on_auth_page_probe, page_navigation_target, set_status_script,
    should_hide_startup_overlay, should_retry_auth_page, splash_ipc_command, tray_click_action,
    update_action, update_available, update_failure_script, webview_data_directory,
    AppSettings, AuthRetryState, DesktopAction, IpcCommand, MouseButton, MouseButtonState,
    UpdateAction,
};
use dsh_desktop::env_check::EnvCheckResult;

#[test]
fn menu_action_recognizes_show_and_quit() {
    assert_eq!(menu_action("show"), Some(DesktopAction::Show));
    assert_eq!(menu_action("quit"), Some(DesktopAction::Exit));
    assert_eq!(menu_action("unknown"), None);
}

#[test]
fn webview_data_directory_uses_local_app_data() {
    assert_eq!(
        webview_data_directory(r"C:\Users\test\AppData\Local"),
        r"C:\Users\test\AppData\Local\DSH Desktop\WebView2"
    );
}

#[test]
fn tray_click_opens_only_on_left_button_release() {
    assert_eq!(
        tray_click_action(MouseButton::Left, MouseButtonState::Up),
        Some(DesktopAction::Show)
    );
    assert_eq!(tray_click_action(MouseButton::Left, MouseButtonState::Down), None);
    assert_eq!(tray_click_action(MouseButton::Right, MouseButtonState::Up), None);
}

#[test]
fn tray_show_and_close_window_use_the_same_desktop_state() {
    assert_eq!(
        tray_click_action(MouseButton::Left, MouseButtonState::Up),
        Some(DesktopAction::Show)
    );
    assert_eq!(menu_action("show"), Some(DesktopAction::Show));
    assert_eq!(menu_action("quit"), Some(DesktopAction::Exit));
    assert_eq!(menu_action("unknown"), None);
    assert_eq!(tray_click_action(MouseButton::Right, MouseButtonState::Up), None);
    assert_eq!(tray_click_action(MouseButton::Left, MouseButtonState::Down), None);
}

#[test]
fn refresh_reuses_the_authenticated_dsh_url() {
    assert_eq!(
        page_navigation_target(Some("http://127.0.0.1:3080/?token=abc")),
        "http://127.0.0.1:3080/?token=abc"
    );
    assert_eq!(page_navigation_target(None), DSH_URL);
}

#[test]
fn authentication_failure_is_retried_once() {
    assert!(should_retry_auth_page("dsh web authentication required", 0));
    assert!(!should_retry_auth_page("dsh web authentication required", 1));
    assert!(!should_retry_auth_page("DeepSeek web app", 0));
}

#[test]
fn auth_retry_events_match_only_their_session() {
    let state = AuthRetryState {
        session: 2,
        url: "http://127.0.0.1:3080/?token=abc".into(),
        attempts: 0,
    };
    assert!(auth_retry_matches_session(Some(&state), 2));
    assert!(!auth_retry_matches_session(Some(&state), 1));
    assert!(!auth_retry_matches_session(None, 2));
}

#[test]
fn dsh_update_restarts_only_after_install_and_validation() {
    assert_eq!(update_action(true, true), UpdateAction::Restart);
    assert_eq!(update_action(false, true), UpdateAction::FailInstall);
    assert_eq!(update_action(true, false), UpdateAction::FailValidation);
}

#[test]
fn startup_overlay_hides_only_after_authenticated_page_load() {
    assert!(!should_hide_startup_overlay("dsh web authentication required"));
    assert!(!should_hide_startup_overlay(""));
    assert!(should_hide_startup_overlay("DeepSeek Harness"));
}

#[test]
fn an_auth_session_retries_at_most_once() {
    let mut state = auth_retry_for_target(7, "http://127.0.0.1:3080/?token=abc");
    assert!(state.is_some());
    assert!(!on_auth_page_probe(&mut state, 6, "Authentication Required"));
    assert!(on_auth_page_probe(&mut state, 7, "Authentication Required"));
    assert_eq!(state.as_ref().map(|s| s.attempts), Some(1));
    assert!(!on_auth_page_probe(&mut state, 7, "authentication required"));
    assert!(state.is_some());
    assert!(!on_auth_page_probe(&mut state, 7, "DeepSeek Harness"));
    assert!(state.is_none());
    assert!(auth_retry_for_target(1, DSH_URL).is_none());
}

#[test]
fn settings_never_exit_and_stay_in_tray_together() {
    let mut s = AppSettings::new();
    assert!(!s.exit_on_close && s.tray_enabled);
    let scripts = s.toggle_exit_on_close();
    assert!(s.exit_on_close && !s.tray_enabled);
    assert_eq!(scripts.len(), 2);
    assert!(scripts[0].contains("dsh-btn-tray") && scripts[0].contains("不驻任务栏"));
    assert!(scripts[1].contains("dsh-btn-exit") && scripts[1].contains("n-btn active"));
    let scripts = s.toggle_tray();
    assert!(!s.exit_on_close && s.tray_enabled);
    assert_eq!(scripts.len(), 2);
    let scripts = s.toggle_tray();
    assert!(!s.exit_on_close && !s.tray_enabled);
    assert_eq!(scripts.len(), 1);
    assert!(s.navbar_injection().contains("dsh-navbar-host"));
}

#[test]
fn closing_the_main_window_follows_the_exit_setting() {
    assert_eq!(close_action(true, true), Some(DesktopAction::Exit));
    assert_eq!(close_action(true, false), Some(DesktopAction::Hide));
    assert_eq!(close_action(false, true), None);
}

#[test]
fn scripts_quote_their_text() {
    assert_eq!(
        navigation_script("http://127.0.0.1:3080/?token=a\"b"),
        "location.replace(\"http://127.0.0.1:3080/?token=a\\\"b\");"
    );
    assert_eq!(set_status_script("x\ny"), "setStatus(\"x\\ny\");");
    assert_eq!(update_failure_script("e"), "showUpdateFail(\"e\");");
    assert_eq!(
        install_failure_message("node"),
        "node 安装失败，请按安装方式手动安装后重试"
    );
}

#[test]
fn ipc_messages_map_to_commands() {
    assert_eq!(main_ipc_command("toggle-tray"), Some(IpcCommand::ToggleTray));
    assert_eq!(main_ipc_command("restart"), Some(IpcCommand::Restart));
    assert_eq!(main_ipc_command("nope"), None);
    assert_eq!(splash_ipc_command("retry"), Some(IpcCommand::Retry));
    assert_eq!(splash_ipc_command("restart"), None);
    assert_eq!(splash_ipc_command("install-dsh"), Some(IpcCommand::InstallDsh));
}

#[test]
fn install_limits_and_pages() {
    assert_eq!(install_timeout_secs("winget"), 900);
    assert_eq!(install_timeout_secs("npm"), 300);
    assert!(is_dsh_page("http://127.0.0.1:3080/chat"));
    assert!(!is_dsh_page("about:blank"));
}

#[test]
fn update_is_available_for_a_different_version() {
    let local = EnvCheckResult {
        name: "dsh (@deepseek-ai/dsh)",
        version: Some("0.1.3\n".into()),
        ok: true,
        error: String::new(),
        install_hint: "",
        install_cmd: "",
    };
    assert!(!update_available(&local, " 0.1.3"));
    assert!(update_available(&local, "0.1.4"));
    assert!(!update_available(&EnvCheckResult { ok: false, ..local }, "0.1.4"));
}

const TINY_PNG: [u8; 72] = [
    137, 80, 78, 71, 13, 10, 26, 10, 0, 0, 0, 13, 73, 72, 68, 82, 0, 0, 0, 2, 0, 0, 0, 1, 8, 6, 0,
    0, 0, 244, 34, 127, 138, 0, 0, 0, 15, 73, 68, 65, 84, 120, 156, 99, 248, 207, 192, 240, 31, 8,
    27, 0, 16, 121, 3, 126, 125, 99, 206, 215, 0, 0, 0, 0, 73, 69, 78, 68, 174, 66, 96, 130,
];

#[test]
fn icon_png_decodes_to_rgba_pixels() {
    let (pixels, width, height) = icon_rgba(&TINY_PNG).expect("PNG 解码失败");
    assert_eq!((width, height), (2, 1));
    assert_eq!(pixels, vec![255, 0, 0, 255, 0, 255, 0, 128]);
    let error = icon_rgba(b"not a png").unwrap_err();
    assert!(error.starts_with("图标解码失败: "));
}

#[test]
fn window_is_centred_on_the_monitor() {
    assert_eq!(centered_origin(0, 1920, 1400), 260);
    assert_eq!(centered_origin(-1920, 1920, 1400), -1660);
    assert_eq!(centered_origin(0, 1080, 900), 90);
    // A window larger than the monitor overhangs both sides; the half is
    // rounded toward zero.
    assert_eq!(centered_origin(0, 800, 1403), -301);
    assert_eq!(centered_origin(5, 3, 6), 4);
}
