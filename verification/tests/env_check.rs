use dsh_desktop::dsh_process::dsh_bin_path;
use dsh_desktop::env_check::{
    all_ok, check_dsh, check_node, check_npm, latest_dsh_version, miss, output_text,
    read_version_from_package_json, EnvCheckResult, NODE_HINT,
};

#[test]
fn missing_environment_produces_actionable_result() {
    let result = miss("Node.js", NODE_HINT, "install-node");
    assert!(!result.ok);
    assert_eq!(result.install_cmd, "install-node");
    assert!(!result.install_hint.is_empty());
}

#[test]
fn all_ok_requires_every_item() {
    let ok = EnvCheckResult {
        name: "x",
        version: None,
        ok: true,
        error: String::new(),
        install_hint: "",
        install_cmd: "",
    };
    let bad = EnvCheckResult {
        name: "y",
        version: None,
        ok: false,
        error: "未安装".into(),
        install_hint: "",
        install_cmd: "",
    };
    assert!(all_ok(&[ok.clone(), ok.clone()]));
    assert!(!all_ok(&[ok, bad]));
    assert!(all_ok(&[]));
}

#[test]
fn package_json_version_is_extracted() {
    let text = "{\n  \"name\": \"@deepseek-ai/dsh\",\n  \"version\": \"0.1.0-rc.6\",\n  \"bin\": \"lib/bin.js\"\n}";
    assert_eq!(read_version_from_package_json(text), Some("0.1.0-rc.6".into()));
}

#[test]
fn package_json_version_edge_cases() {
    assert_eq!(read_version_from_package_json("{\r\n  \"version\": \"1.2.3\",\r\n}"), Some("1.2.3".into()));
    assert_eq!(read_version_from_package_json("{ \"version\" }\n\"version\": \"2\""), None);
    assert_eq!(read_version_from_package_json("\"version\": \"\","), None);
    assert_eq!(read_version_from_package_json("{}"), None);
}

#[test]
fn dsh_bin_is_under_lib_dir() {
    assert_eq!(
        dsh_bin_path("C:\\global\\node_modules"),
        "C:\\global\\node_modules\\@deepseek-ai\\dsh\\lib\\bin.js"
    );
}

#[test]
fn command_output_is_trimmed_and_empty_means_missing() {
    assert_eq!(output_text(true, " v20.11.0\r\n"), Some("v20.11.0".into()));
    assert_eq!(output_text(true, " \n"), None);
    assert_eq!(output_text(false, "v20"), None);
}

#[test]
fn checks_record_versions_or_misses() {
    let node = check_node(Some("v20.11.0".into()));
    assert!(node.ok);
    assert_eq!(node.version.as_deref(), Some("v20.11.0"));
    assert_eq!(node.install_cmd, "install-node");
    let npm = check_npm(None);
    assert!(!npm.ok);
    assert_eq!(npm.error, "未安装或不在 PATH 中");
    assert_eq!(npm.install_cmd, "install-node");
    let dsh = check_dsh(Some("C:\\g".into()), true, Some("{\"version\": \"0.1.3\"}".into()));
    assert!(dsh.ok);
    assert_eq!(dsh.version.as_deref(), Some("0.1.3\"}"));
    let dsh = check_dsh(Some("C:\\g".into()), true, Some("{\n\"version\": \"0.1.3\"\n}".into()));
    assert_eq!(dsh.version.as_deref(), Some("0.1.3"));
    let dsh = check_dsh(Some("C:\\g".into()), true, None);
    assert_eq!(dsh.version.as_deref(), Some("已安装"));
    let dsh = check_dsh(Some("C:\\g".into()), false, None);
    assert!(!dsh.ok);
    assert_eq!(dsh.install_cmd, "install-dsh");
    assert!(!check_dsh(None, true, None).ok);
}

#[test]
fn latest_version_is_trimmed() {
    assert_eq!(latest_dsh_version(Some(" 0.2.0 \n".into())), Some("0.2.0".into()));
    assert_eq!(latest_dsh_version(Some("  ".into())), None);
    assert_eq!(latest_dsh_version(None), None);
}
