use dsh_desktop::checker::{
    close_step_after, first_close_step, kill_failure, read_listeners_failure, CloseStep,
    KillOutcome, http_get_request, listening_pids_from_netstat, looks_like_http, parse_local_http_url,
    parse_session_cookie, session_cookie_from_response, socket_addr_text, SessionCookie,
};

#[test]
fn listening_pids_selects_only_valid_non_self_3080_listeners() {
    let output = "\
  TCP    127.0.0.1:3080       0.0.0.0:0              LISTENING       4123\n\
  TCP    [::1]:3080           [::]:0                 LISTENING       5678\n\
  TCP    0.0.0.0:3080         0.0.0.0:0              LISTENING       9000\n\
  TCP    127.0.0.1:3081       0.0.0.0:0              LISTENING       6789\n\
  TCP    127.0.0.1:3080       127.0.0.1:60000        ESTABLISHED     7000\n\
  TCP    127.0.0.1:3080       0.0.0.0:0              LISTENING       9000\n\
  TCP    127.0.0.1:3080       0.0.0.0:0              LISTENING       0\n\
  TCP    127.0.0.1:3080       0.0.0.0:0              LISTENING       invalid\n";

    assert_eq!(listening_pids_from_netstat(output, 3080, 5678), vec![4123, 9000]);
}

#[test]
fn listening_pids_accept_crlf_lowercase_tcp_and_plus_signs() {
    let output = "Active Connections\r\n\r\n  Proto  Local Address          Foreign Address        State           PID\r\n  tcp    127.0.0.1:+3080   0.0.0.0:0   LISTENING   +77\r\n  UDP    0.0.0.0:3080   *:*   LISTENING   88\r\n  TCP    127.0.0.1:3080   0.0.0.0:0   listening   99\r\n  TCP    127.0.0.1:99999   0.0.0.0:0   LISTENING   11\r\n";
    assert_eq!(listening_pids_from_netstat(output, 3080, 1), vec![77]);
    assert_eq!(listening_pids_from_netstat("", 3080, 1), Vec::<u32>::new());
}

#[test]
fn parse_local_http_url_keeps_token_query() {
    assert_eq!(
        parse_local_http_url("http://127.0.0.1:3080/?token=abc"),
        Some(("127.0.0.1".into(), 3080, "/?token=abc".into()))
    );
}

#[test]
fn parse_local_http_url_defaults_and_rejections() {
    assert_eq!(
        parse_local_http_url("http://localhost"),
        Some(("localhost".into(), 80, "/".into()))
    );
    assert_eq!(parse_local_http_url("https://127.0.0.1:3080/"), None);
    assert_eq!(parse_local_http_url("http://:3080/"), None);
    assert_eq!(parse_local_http_url("http://127.0.0.1:70000/"), None);
    assert_eq!(parse_local_http_url("http://127.0.0.1:/"), None);
}

#[test]
fn parse_session_cookie_requires_303_and_set_cookie() {
    let response = "HTTP/1.1 303 See Other
set-cookie: dsh.abc=v1.payload.sig; Max-Age=86400; Path=/; HttpOnly; SameSite=Strict
location: /

";
    assert_eq!(
        parse_session_cookie(response),
        Some(SessionCookie { name: "dsh.abc".into(), value: "v1.payload.sig".into() })
    );
    assert!(parse_session_cookie("HTTP/1.1 401 Unauthorized

").is_none());
}

#[test]
fn session_cookie_headers_are_read_until_the_blank_line() {
    let response = "HTTP/1.0 303 See Other\nX-Other: 1\nSet-Cookie: =empty\nSET-COOKIE:  sid=42 ; Path=/\n";
    assert_eq!(
        parse_session_cookie(response),
        Some(SessionCookie { name: "sid".into(), value: "42".into() })
    );
    assert!(parse_session_cookie("HTTP/1.1 303 See Other\n\nSet-Cookie: a=b\n").is_none());
    assert!(parse_session_cookie("HTTP/1.1 303 See Other\nbroken header\nSet-Cookie: a=b\n")
        .is_none());
    assert!(parse_session_cookie("HTTP/1.1 303 See Other\nSet-Cookie: novalue\nSet-Cookie: a=b\n")
        .is_none());
    assert_eq!(
        session_cookie_from_response(b"HTTP/1.1 303 See Other\nset-cookie: a=b\n"),
        Some(SessionCookie { name: "a".into(), value: "b".into() })
    );
    assert!(session_cookie_from_response(&[0xff, 0xfe]).is_none());
}

#[test]
fn readiness_needs_utf8_http_status() {
    assert!(looks_like_http(b"HTTP/1.1 200 OK\r\n\r\n"));
    assert!(!looks_like_http(b""));
    assert!(!looks_like_http(b"SSH-2.0-OpenSSH\r\n"));
    assert!(!looks_like_http(&[b'H', b'T', b'T', b'P', b'/', 0xe4, 0xb8]));
}

#[test]
fn request_text_names_path_host_and_port() {
    assert_eq!(
        http_get_request("127.0.0.1", 3080, "/?token=abc"),
        "GET /?token=abc HTTP/1.1\r\nHost: 127.0.0.1:3080\r\nConnection: close\r\n\r\n"
    );
    assert_eq!(socket_addr_text("127.0.0.1", 0), "127.0.0.1:0");
    assert_eq!(socket_addr_text("::1", 65535), "::1:65535");
}

#[test]
fn formatted_local_urls_parse_back() {
    assert_eq!(
        parse_local_http_url("http://localhost:8080/a/b?token=x"),
        Some(("localhost".into(), 8080, "/a/b?token=x".into()))
    );
    assert_eq!(
        parse_local_http_url("http://127.0.0.1:0/"),
        Some(("127.0.0.1".into(), 0, "/".into()))
    );
    assert_eq!(
        parse_local_http_url("http://127.0.0.1"),
        Some(("127.0.0.1".into(), 80, "/".into()))
    );
    assert_eq!(parse_local_http_url("http://:3080/"), None);
    assert_eq!(parse_local_http_url("https://127.0.0.1:3080/"), None);
    assert_eq!(parse_local_http_url("http://127.0.0.1:65536/"), None);
}

#[test]
fn closing_listeners_stops_at_the_first_failed_kill() {
    let pids = [4123, 9000, 77];
    assert!(matches!(first_close_step(&pids), CloseStep::Kill(4123)));
    assert!(matches!(first_close_step(&[]), CloseStep::Finish(Ok(()))));
    assert!(matches!(
        close_step_after(3080, &pids, 0, KillOutcome::Killed),
        CloseStep::Kill(9000)
    ));
    assert!(matches!(
        close_step_after(3080, &pids, 2, KillOutcome::Killed),
        CloseStep::Finish(Ok(()))
    ));
    match close_step_after(3080, &pids, 1, KillOutcome::Refused) {
        CloseStep::Finish(Err(message)) => assert_eq!(message, "关闭占用端口 3080 的进程 9000 失败"),
        _ => panic!("a refused kill ends closing"),
    }
    match close_step_after(3080, &pids, 0, KillOutcome::NotRun("not found".into())) {
        CloseStep::Finish(Err(message)) => {
            assert_eq!(message, "关闭占用端口 3080 的进程 4123 失败: not found")
        }
        _ => panic!("a kill that cannot run ends closing"),
    }
}

#[test]
fn listener_failures_name_what_went_wrong() {
    assert_eq!(read_listeners_failure(None), "读取 TCP 监听端口失败");
    assert_eq!(read_listeners_failure(Some("denied")), "读取 TCP 监听端口失败: denied");
    assert_eq!(kill_failure(80, 1, None), "关闭占用端口 80 的进程 1 失败");
}
