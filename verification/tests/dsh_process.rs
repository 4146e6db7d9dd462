use dsh_desktop::dsh_process::{
    child_exited_before_ready, dsh_bin_path, dsh_package_json_path, dsh_web_command, join_path,
    node_launch_flags, resolve_dsh_bin, DETACHED_PROCESS,
};

#[test]
fn dsh_web_command_runs_node_bin_without_cmd() {
    let (program, args) = dsh_web_command(r"C:\Users\test\AppData\Roaming", None, false);
    assert_eq!(program, "node");
    assert_eq!(args.len(), 2, "应有两个参数: bin.js 路径和 'web'");
    assert!(args[0].ends_with("bin.js"), "第一个参数应以 bin.js 结尾: {}", args[0]);
    assert_eq!(args[1], "web");
    assert_ne!(program, "cmd");
}

#[test]
fn resolve_dsh_bin_finds_installed_package() {
    let appdata = r"C:\Users\test\AppData\Roaming";
    let bin = resolve_dsh_bin(appdata, None, false);
    assert!(bin.contains("bin.js"), "应返回 bin.js 路径: {}", bin);
}

#[test]
fn resolve_dsh_bin_prefers_the_existing_npm_root_package() {
    let appdata = r"C:\Users\test\AppData\Roaming";
    assert_eq!(
        resolve_dsh_bin(appdata, Some(r"D:\npm\node_modules"), true),
        r"D:\npm\node_modules\@deepseek-ai\dsh\lib\bin.js"
    );
    assert_eq!(
        resolve_dsh_bin(appdata, Some(r"D:\npm\node_modules"), false),
        r"C:\Users\test\AppData\Roaming\npm\node_modules\@deepseek-ai\dsh\lib\bin.js"
    );
}

#[test]
fn windows_join_adds_one_separator() {
    assert_eq!(join_path(r"C:\a\", "b"), r"C:\a\b");
    assert_eq!(join_path("C:/a/", "b"), "C:/a/b");
    assert_eq!(join_path("C:", "b"), "C:b");
    assert_eq!(join_path("", "b"), "b");
    assert_eq!(join_path(r"C:\a", "b"), r"C:\a\b");
    assert_eq!(
        dsh_package_json_path(r"C:\g"),
        r"C:\g\@deepseek-ai\dsh\package.json"
    );
}

#[test]
fn early_child_exit_is_a_user_facing_failure() {
    let failure = child_exited_before_ready("Error: address already in use");

    assert!(failure.contains("服务就绪前退出"));
    assert!(failure.contains("Error: address already in use"));
}

#[test]
fn early_child_exit_without_stderr_has_no_colon() {
    assert_eq!(child_exited_before_ready(" \n\t"), "dsh web 在服务就绪前退出");
    assert_eq!(child_exited_before_ready("\n oops \r\n"), "dsh web 在服务就绪前退出: oops");
}

#[test]
fn node_launch_detaches_from_the_console() {
    assert_eq!(node_launch_flags() & DETACHED_PROCESS, DETACHED_PROCESS);
    assert_eq!(node_launch_flags(), 0x0800_0008);
}

#[test]
fn dsh_bin_path_is_under_lib() {
    assert_eq!(dsh_bin_path("C:\\global\\node_modules"), "C:\\global\\node_modules\\@deepseek-ai\\dsh\\lib\\bin.js");
}
