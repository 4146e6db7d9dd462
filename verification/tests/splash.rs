use dsh_desktop::bootstrap::UiMsg;
use dsh_desktop::env_check::EnvCheckResult;
use dsh_desktop::splash::{
    build_splash_html, inject_navbar_script, js_str, nav_set_exit_mode, nav_set_tray_mode,
    ui_msg_js,
};

#[test]
fn splash_html_has_required_ids() {
    let html = build_splash_html();
    assert!(html.contains(r#"id="status""#));
    assert!(html.contains(r#"id="spinner""#));
    assert!(html.starts_with("<!DOCTYPE html>"));
    assert!(html.ends_with("</html>"));
}

#[test]
fn ui_messages_produce_javascript() {
    assert!(ui_msg_js(&UiMsg::<()>::Step("检查端口".into())).contains("检查端口"));
    assert!(ui_msg_js(&UiMsg::<()>::Fail("出错了".into())).contains("出错了"));
}

#[test]
fn ui_messages_call_the_page_functions() {
    assert_eq!(ui_msg_js(&UiMsg::<()>::Step("a\"b".into())), "setStatus(\"a\\\"b\");");
    assert_eq!(ui_msg_js(&UiMsg::<()>::EnvProgress("npm")), "showEnvProgress(\"npm\");");
    assert_eq!(ui_msg_js(&UiMsg::Done(())), "showDone();");
    let results = vec![
        EnvCheckResult {
            name: "Node.js",
            version: Some("v20".into()),
            ok: true,
            error: String::new(),
            install_hint: "h",
            install_cmd: "install-node",
        },
        EnvCheckResult {
            name: "npm",
            version: None,
            ok: false,
            error: "未安装".into(),
            install_hint: "x\\y",
            install_cmd: "install-node",
        },
    ];
    assert_eq!(
        ui_msg_js(&UiMsg::<()>::EnvCheck(results)),
        "showEnvCheck([{ok:true,name:\"Node.js\",version:\"v20\",error:\"\",install_hint:\"h\",install_cmd:\"install-node\"},{ok:false,name:\"npm\",version:\"\",error:\"未安装\",install_hint:\"x\\\\y\",install_cmd:\"install-node\"}]);"
    );
    assert_eq!(ui_msg_js(&UiMsg::<()>::EnvCheck(Vec::new())), "showEnvCheck([]);");
}

#[test]
fn js_str_escapes_quotes_backslashes_and_controls() {
    assert_eq!(js_str("a\"b\\c"), "\"a\\\"b\\\\c\"");
    assert_eq!(js_str("\n\r\t"), "\"\\n\\r\\t\"");
    assert_eq!(js_str("\u{1}\u{1f}\u{7f}é"), "\"\\u0001\\u001f\u{7f}é\"");
    assert_eq!(js_str(""), "\"\"");
}

#[test]
fn navigation_buttons_show_their_state() {
    assert!(nav_set_exit_mode(true).contains("b.className='n-btn active'"));
    assert!(nav_set_exit_mode(true).contains("关闭时退出 ✓"));
    assert!(nav_set_exit_mode(false).contains("b.className='n-btn'"));
    assert!(nav_set_exit_mode(false).contains("关闭时隐藏"));
    assert!(nav_set_tray_mode(false).contains("dsh-btn-tray"));
    assert!(nav_set_tray_mode(true).contains("常驻任务栏 ✓"));
    assert!(inject_navbar_script().starts_with("(function(){"));
}

#[test]
fn exit_mode_script_matches_the_page_code() {
    assert_eq!(
        nav_set_exit_mode(true),
        "(function(){var h=document.getElementById('dsh-navbar-host');var r=h?h.shadowRoot:null;var b=r?r.getElementById('dsh-btn-exit'):null;if(b){b.className='n-btn active'};\n        var t=b?b.querySelector('.n-tip'):null;if(t)t.textContent='关闭时退出 ✓';})();"
    );
}

#[test]
fn switched_off_buttons_never_say_active() {
    for script in [nav_set_exit_mode(false), nav_set_tray_mode(false)] {
        assert!(!script.contains("active"));
        assert!(script.contains("b.className='n-btn'"));
    }
    assert!(nav_set_exit_mode(false).contains("getElementById('dsh-btn-exit')"));
    assert!(nav_set_tray_mode(true).contains("getElementById('dsh-btn-tray')"));
    assert!(nav_set_tray_mode(true).contains("b.className='n-btn active'"));
    assert!(nav_set_tray_mode(false).contains("不驻任务栏"));
}

#[test]
fn js_literals_hold_no_control_characters() {
    let text: String = (0u8..0x40).map(char::from).collect();
    let literal = js_str(&text);
    assert!(literal.chars().all(|c| c as u32 >= 0x20));
    assert!(literal.starts_with('"') && literal.ends_with('"'));
    assert_eq!(js_str("a\"b\n"), "\"a\\\"b\\n\"");
}
