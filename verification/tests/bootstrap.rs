use dsh_desktop::bootstrap::{
    direct_launch_event_order, local_dsh_version, update_needed, validate_dsh_update,
    BootstrapCommand, BootstrapControl, BootstrapEvent, BootstrapOutput, BootstrapPhase,
    BootstrapState, UiMsg,
};
use dsh_desktop::env_check::EnvCheckResult;

#[test]
fn cancellation_signal_is_visible_to_bootstrap() {
    let mut control = BootstrapControl::new();
    assert!(!control.is_cancelled());
    control.cancel();
    assert!(control.is_cancelled());
}

#[test]
fn direct_bootstrap_orders_env_check_close_spawn_then_http_wait() {
    assert_eq!(
        direct_launch_event_order(),
        [
            "正在检查运行环境...",
            "正在关闭 3080 端口上的服务...",
            "正在启动 dsh web 服务...",
            "等待服务就绪...",
        ]
    );
}

#[test]
fn worker_state_rejects_retry_while_bootstrap_is_active() {
    let mut state = BootstrapState::default();
    let first = state.start().expect("first bootstrap should start");
    assert!(state.start().is_none());
    state.finish(first);
    assert!(state.start().is_some());
}

#[test]
fn worker_state_rejects_stale_generation_events() {
    let mut state = BootstrapState::default();
    let first = state.start().unwrap();
    state.finish(first);
    let second = state.start().unwrap();
    assert!(!state.is_current(first));
    assert!(state.is_current(second));
}

#[test]
fn dsh_update_requires_matching_healthy_version() {
    let result = EnvCheckResult {
        name: "dsh (@deepseek-ai/dsh)",
        version: Some("0.1.3".into()),
        ok: true,
        error: String::new(),
        install_hint: "",
        install_cmd: "",
    };
    assert!(validate_dsh_update(&result, "0.1.3").is_ok());
    assert!(validate_dsh_update(&result, "0.1.4").is_err());
    assert!(validate_dsh_update(&EnvCheckResult { ok: false, ..result }, "0.1.3").is_err());
}

#[test]
fn failed_update_validation_names_the_expected_version() {
    let result = EnvCheckResult {
        name: "dsh (@deepseek-ai/dsh)",
        version: None,
        ok: true,
        error: String::new(),
        install_hint: "",
        install_cmd: "",
    };
    assert_eq!(
        validate_dsh_update(&result, "0.2.0"),
        Err("dsh 更新后校验失败，期望版本 0.2.0".to_string())
    );
}

#[test]
fn a_stale_finish_leaves_the_current_run_active() {
    let mut state = BootstrapState::new();
    let first = state.start().unwrap();
    state.finish(first);
    let second = state.start().unwrap();
    assert_eq!(second, first + 1);
    state.finish(first);
    assert!(state.start().is_none());
    state.finish(second);
    assert_eq!(state.start(), Some(second + 1));
}

#[test]
fn a_cancelled_control_refuses_the_spawn_permit() {
    let mut control = BootstrapControl::default();
    assert!(control.try_begin_spawn().is_some());
    control.cancel();
    assert!(control.try_begin_spawn().is_none());
    control.cancel();
    assert!(control.is_cancelled());
}

fn result(name: &'static str, version: Option<&str>, ok: bool) -> EnvCheckResult {
    EnvCheckResult {
        name,
        version: version.map(|v| v.to_string()),
        ok,
        error: String::new(),
        install_hint: "",
        install_cmd: "",
    }
}

#[test]
fn local_dsh_version_comes_from_the_first_dsh_result() {
    let results = vec![
        result("Node.js", Some("v20"), true),
        result("dsh (@deepseek-ai/dsh)", Some("0.1.3"), true),
        result("dsh-other", Some("9.9.9"), true),
    ];
    assert_eq!(local_dsh_version(&results), Some("0.1.3".to_string()));
    let results = vec![result("dsh", None, true), result("dsh2", Some("1"), true)];
    assert_eq!(local_dsh_version(&results), None);
    assert_eq!(local_dsh_version(&[result("npm", Some("10"), true)]), None);
}

#[test]
fn update_is_needed_only_for_a_different_trimmed_version() {
    assert!(!update_needed(" 0.1.3\n", "0.1.3"));
    assert!(update_needed("0.1.3", "0.1.4"));
}

fn step(
    phase: BootstrapPhase,
    event: BootstrapEvent,
    cancelled: bool,
) -> (BootstrapPhase, BootstrapOutput<u32>) {
    assert!(phase.accepts_event(&event));
    phase.step(event, cancelled)
}

fn step_texts(out: &BootstrapOutput<u32>) -> Vec<String> {
    out.messages
        .iter()
        .map(|m| match m {
            UiMsg::Step(t) => format!("step:{t}"),
            UiMsg::EnvProgress(n) => format!("progress:{n}"),
            UiMsg::EnvCheck(rs) => format!("check:{}", rs.len()),
            UiMsg::Fail(t) => format!("fail:{t}"),
            UiMsg::Done(p) => format!("done:{p}"),
        })
        .collect()
}

#[test]
fn bootstrap_runs_checks_update_spawn_and_wait_in_order() {
    let mut phase = BootstrapPhase::new();
    let mut log: Vec<String> = Vec::new();
    let (p, out) = step(phase, BootstrapEvent::Begin, false);
    log.extend(step_texts(&out));
    assert!(matches!(out.command, BootstrapCommand::Proceed));
    phase = p;
    let checks = [
        result("Node.js", Some("v20.1.0"), true),
        result("npm", Some("10.2.0"), true),
        result("dsh (@deepseek-ai/dsh)", Some("0.1.3"), true),
    ];
    for (i, check) in checks.into_iter().enumerate() {
        let (p, out) = step(phase, BootstrapEvent::Proceeded, false);
        log.extend(step_texts(&out));
        assert!(matches!(out.command, BootstrapCommand::RunEnvCheck(n) if n == i));
        let (p, out) = step(p, BootstrapEvent::EnvChecked(check), false);
        log.extend(step_texts(&out));
        assert!(matches!(out.command, BootstrapCommand::Proceed));
        phase = p;
    }
    let (p, out) = step(phase, BootstrapEvent::Proceeded, false);
    log.extend(step_texts(&out));
    assert!(matches!(out.command, BootstrapCommand::ClosePort));
    let (p, out) = step(p, BootstrapEvent::PortClosed(Ok(())), false);
    assert!(matches!(out.command, BootstrapCommand::FetchLatestVersion));
    let (p, out) = step(p, BootstrapEvent::LatestVersion(Some("0.1.4".into())), false);
    log.extend(step_texts(&out));
    assert!(matches!(out.command, BootstrapCommand::InstallUpdate));
    let (p, out) = step(p, BootstrapEvent::UpdateInstalled(true), false);
    assert!(matches!(out.command, BootstrapCommand::RecheckDsh));
    let (p, out) = step(
        p,
        BootstrapEvent::DshRechecked(result("dsh (@deepseek-ai/dsh)", Some("0.1.4"), true)),
        false,
    );
    log.extend(step_texts(&out));
    assert!(matches!(out.command, BootstrapCommand::Spawn));
    let (p, out) = step(p, BootstrapEvent::Spawned, false);
    log.extend(step_texts(&out));
    assert!(matches!(out.command, BootstrapCommand::ProbeReady));
    let (p, out) = step(p, BootstrapEvent::Ready(false), false);
    assert!(matches!(out.command, BootstrapCommand::CheckExited));
    let (p, out) = step(p, BootstrapEvent::Exited(None), false);
    assert!(matches!(out.command, BootstrapCommand::Sleep));
    let (p, out) = step(p, BootstrapEvent::Slept, false);
    assert!(matches!(out.command, BootstrapCommand::ProbeReady));
    let (p, out) = step(p, BootstrapEvent::Ready(true), false);
    assert!(matches!(out.command, BootstrapCommand::Deliver));
    assert!(matches!(p, BootstrapPhase::Finished));
    assert_eq!(
        log,
        vec![
            "step:正在检查运行环境...",
            "progress:Node.js",
            "progress:npm",
            "progress:dsh (@deepseek-ai/dsh)",
            "check:3",
            "step:正在关闭 3080 端口上的服务...",
            "step:发现 dsh 新版本 0.1.4，正在自动更新...",
            "step:正在启动 dsh web 服务...",
            "step:等待服务就绪...",
        ]
    );
}

#[test]
fn bootstrap_stops_at_a_failed_environment_check() {
    let (mut phase, _) = step(BootstrapPhase::new(), BootstrapEvent::Begin, false);
    let checks = [
        result("Node.js", None, false),
        result("npm", None, false),
        result("dsh (@deepseek-ai/dsh)", None, false),
    ];
    let mut last = None;
    for check in checks {
        let (p, _) = step(phase, BootstrapEvent::Proceeded, false);
        let (p, out) = step(p, BootstrapEvent::EnvChecked(check), false);
        phase = p;
        last = Some(out);
    }
    let out = last.unwrap();
    assert!(matches!(out.command, BootstrapCommand::Finish));
    assert_eq!(step_texts(&out), vec!["check:3"]);
    assert!(matches!(phase, BootstrapPhase::Finished));
}

#[test]
fn bootstrap_times_out_after_sixty_seconds_of_probing() {
    let mut phase = BootstrapPhase::Spawning;
    let (p, _) = step(phase, BootstrapEvent::Spawned, false);
    phase = p;
    let mut sleeps = 0;
    loop {
        let (p, out) = step(phase, BootstrapEvent::Ready(false), false);
        let (p, out2) = step(p, BootstrapEvent::Exited(None), false);
        assert!(matches!(out.command, BootstrapCommand::CheckExited));
        assert!(matches!(out2.command, BootstrapCommand::Sleep));
        let (p, out3) = step(p, BootstrapEvent::Slept, false);
        sleeps += 1;
        phase = p;
        match out3.command {
            BootstrapCommand::ProbeReady => continue,
            BootstrapCommand::StopThenFail(msg) => {
                assert_eq!(msg, "等待 dsh 服务就绪超时 (60s)");
                break;
            }
            _ => panic!("unexpected command"),
        }
    }
    assert_eq!(sleeps, 120);
}

#[test]
fn cancelled_bootstrap_stops_the_started_process() {
    let (p, out) = step(BootstrapPhase::Spawning, BootstrapEvent::Spawned, true);
    assert!(matches!(out.command, BootstrapCommand::Stop));
    assert!(matches!(p, BootstrapPhase::Finished));
    let (_, out) = step(BootstrapPhase::new(), BootstrapEvent::Begin, true);
    assert!(matches!(out.command, BootstrapCommand::Finish));
    assert!(out.messages.is_empty());
}

#[test]
fn bootstrap_reports_failures() {
    let (_, out) = step(
        BootstrapPhase::ClosingPort { local: None },
        BootstrapEvent::PortClosed(Err("读取 TCP 监听端口失败".into())),
        false,
    );
    assert_eq!(step_texts(&out), vec!["fail:读取 TCP 监听端口失败"]);
    let (_, out) = step(
        BootstrapPhase::ClosingPort { local: None },
        BootstrapEvent::PortClosed(Err("x".into())),
        true,
    );
    assert!(out.messages.is_empty());
    let (_, out) = step(
        BootstrapPhase::Spawning,
        BootstrapEvent::SpawnFailed("not found".into()),
        false,
    );
    assert_eq!(step_texts(&out), vec!["fail:启动 dsh web 失败: not found"]);
    let (_, out) = step(
        BootstrapPhase::Installing { latest: "0.2.0".into() },
        BootstrapEvent::UpdateInstalled(false),
        false,
    );
    assert_eq!(step_texts(&out), vec!["fail:dsh 自动更新到 0.2.0 失败"]);
    let (_, out) = step(
        BootstrapPhase::CheckingExit { elapsed_ms: 500 },
        BootstrapEvent::Exited(Some("boom".into())),
        true,
    );
    assert_eq!(step_texts(&out), vec!["fail:boom"]);
}

#[test]
fn bootstrap_skips_the_update_when_versions_match_or_latest_is_unknown() {
    let (p, out) = step(
        BootstrapPhase::FetchingLatest { local: "0.1.3".into() },
        BootstrapEvent::LatestVersion(Some(" 0.1.3 ".into())),
        false,
    );
    assert!(matches!(out.command, BootstrapCommand::Spawn));
    assert!(matches!(p, BootstrapPhase::Spawning));
    let (_, out) = step(
        BootstrapPhase::FetchingLatest { local: "0.1.3".into() },
        BootstrapEvent::LatestVersion(None),
        false,
    );
    assert!(matches!(out.command, BootstrapCommand::Spawn));
    let (_, out) = step(
        BootstrapPhase::ClosingPort { local: None },
        BootstrapEvent::PortClosed(Ok(())),
        false,
    );
    assert!(matches!(out.command, BootstrapCommand::Spawn));
}

#[test]
fn finished_bootstrap_accepts_nothing() {
    assert!(!BootstrapPhase::Finished.accepts_event(&BootstrapEvent::Begin));
    assert!(!BootstrapPhase::new().accepts_event(&BootstrapEvent::Slept));
}

#[test]
fn cancellation_stays_set_whatever_follows() {
    let mut control = BootstrapControl::new();
    assert!(!control.is_cancelled());
    assert!(control.try_begin_spawn().is_some());
    assert!(!control.is_cancelled());
    control.cancel();
    for _ in 0..3 {
        assert!(control.is_cancelled());
        assert!(control.try_begin_spawn().is_none());
    }
    control.cancel();
    assert!(control.is_cancelled());
}
