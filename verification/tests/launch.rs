use freebuff_shell::launch::{
    attached_status, choose_layout, choose_node, exited_message, is_console_page,
    missing_server_message, ready_status, spawn_failure_message, timeout_message, LayoutChoice,
    NodeChoice, PortWait, PortWaitStep, Probe, ReadinessWatch, WatchStep, HEALTHZ_MAX_TRIES,
    PORT_RELEASE_CHECKS,
};
use freebuff_shell::tail::StderrTail;

#[test]
fn watch_times_out_after_budget() {
    assert_eq!(HEALTHZ_MAX_TRIES, 150);
    let mut watch = ReadinessWatch::new();
    let mut probes = 0;
    loop {
        probes += 1;
        match watch.step(Probe::Silent) {
            WatchStep::Waiting(w) => watch = w,
            WatchStep::TimedOut => break,
            _ => panic!("unexpected outcome"),
        }
    }
    assert_eq!(probes, 150);
}

#[test]
fn watch_ends_on_exit_or_health() {
    let mut watch = ReadinessWatch::new();
    for _ in 0..10 {
        match watch.step(Probe::Silent) {
            WatchStep::Waiting(w) => watch = w,
            _ => panic!("ended too soon"),
        }
    }
    assert!(matches!(watch.step(Probe::Healthy), WatchStep::Ready));
    assert!(matches!(ReadinessWatch::new().step(Probe::Exited), WatchStep::Exited));
}

#[test]
fn port_wait_gives_up_after_budget() {
    assert_eq!(PORT_RELEASE_CHECKS, 25);
    assert!(matches!(PortWait::new().step(false), PortWaitStep::Start));
    let mut wait = PortWait::new();
    let mut checks = 0;
    loop {
        checks += 1;
        match wait.step(true) {
            PortWaitStep::SleepThenCheck(w) => wait = w,
            PortWaitStep::SleepThenStart => break,
            PortWaitStep::Start => panic!("port was in use"),
        }
    }
    assert_eq!(checks, 25);
}

#[test]
fn status_and_failure_texts() {
    assert_eq!(attached_status(8787), "运行中（外部实例）: 8787");
    assert_eq!(ready_status(9000), "运行中: 9000");
    assert_eq!(timeout_message(8787), "等待服务就绪超时（30s），端口 8787 一直无响应。");
    assert_eq!(
        spawn_failure_message("No such file or directory (os error 2)", "/opt/app/node"),
        "无法启动 node（No such file or directory (os error 2)）。\n查找路径: /opt/app/node\n请确认本机已安装 Node.js ≥ 20。"
    );
    let mut tail = StderrTail::new();
    tail.push("Error: boom".to_string());
    tail.push("    at main".to_string());
    assert_eq!(exited_message(&tail), "本地服务进程已退出。\n\nError: boom\n    at main");
    assert_eq!(exited_message(&StderrTail::new()), "本地服务进程已退出。\n\n");
    assert_eq!(missing_server_message(), "找不到服务端文件（bin/serve.js），安装可能不完整。");
}

#[test]
fn console_page_detection() {
    assert!(is_console_page("http://127.0.0.1:8787/", 8787));
    assert!(is_console_page("http://127.0.0.1:8787", 8787));
    assert!(!is_console_page("http://localhost:8787/", 8787));
    assert!(!is_console_page("tauri://localhost/index.html", 8787));
    assert!(!is_console_page("http://127.0.0.1:878/", 8787));
}

#[test]
fn layout_and_node_choices() {
    assert_eq!(choose_layout(true, true, true), LayoutChoice::Installed);
    assert_eq!(choose_layout(true, false, true), LayoutChoice::InstalledWithoutDataDir);
    assert_eq!(choose_layout(false, true, true), LayoutChoice::Development);
    assert_eq!(choose_layout(false, false, false), LayoutChoice::Missing);
    assert_eq!(choose_node(true, true), NodeChoice::BundledExe);
    assert_eq!(choose_node(false, true), NodeChoice::BundledUnix);
    assert_eq!(choose_node(false, false), NodeChoice::SystemPath);
}
