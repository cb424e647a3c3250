use freebuff_shell::autofill::autofill_js;
use freebuff_shell::http::LoginCheck;
use freebuff_shell::shell::{
    first_start_dialog, login_follow_up, menu_command, session_password_dialog, LoginFollowUp,
    MenuCommand, ShellSettings, ShellState,
};

#[test]
fn default_settings() {
    let s = ShellSettings::default();
    assert!(s.autofill);
    assert_eq!(s.admin_password, None);
    let d = ShellSettings::loaded_or_default(None);
    assert!(d.autofill && d.admin_password.is_none());
    let l = ShellSettings::loaded_or_default(Some(ShellSettings {
        autofill: false,
        admin_password: Some("x".to_string()),
    }));
    assert!(!l.autofill);
    assert_eq!(l.admin_password.as_deref(), Some("x"));
}

#[test]
fn switching_autofill_off_forgets() {
    let mut s = ShellSettings { autofill: true, admin_password: Some("abc123".to_string()) };
    s.set_autofill(true);
    assert_eq!(s.admin_password.as_deref(), Some("abc123"));
    s.set_autofill(false);
    assert!(!s.autofill);
    assert_eq!(s.admin_password, None);
    assert_eq!(s.password_to_verify(), None);
}

#[test]
fn captured_password_is_remembered_only_with_autofill() {
    let mut st = ShellState::new(8787, ShellSettings::default());
    assert!(st.observe_stdout_line("server listening").is_none());
    let c = st.observe_stdout_line("  密码:     IT3Z9abc").unwrap();
    assert_eq!(c.password, "IT3Z9abc");
    assert!(c.remembered);
    assert_eq!(st.admin_password.as_deref(), Some("IT3Z9abc"));
    assert_eq!(st.settings.admin_password.as_deref(), Some("IT3Z9abc"));
    assert_eq!(st.settings.password_to_verify().as_deref(), Some("IT3Z9abc"));

    let mut off = ShellState::new(8787, ShellSettings { autofill: false, admin_password: None });
    let c = off.observe_stdout_line("密码: Secret99").unwrap();
    assert!(!c.remembered);
    assert_eq!(off.admin_password.as_deref(), Some("Secret99"));
    assert_eq!(off.settings.admin_password, None);
    assert_eq!(off.session_password().as_deref(), Some("Secret99"));
}

#[test]
fn server_state_follows_lifecycle() {
    let mut st = ShellState::new(9000, ShellSettings::default());
    let s = st.server_state();
    assert!(!s.ready && !s.attached && !s.failed && s.port == 9000 && s.password.is_none());
    assert_eq!(st.attach_to_running(), "运行中（外部实例）: 9000");
    assert!(st.server_state().ready && st.server_state().attached);
    st.begin_restart();
    assert!(!st.ready);
    st.child_started();
    assert!(!st.attached && !st.ready);
    assert_eq!(st.mark_ready(), "运行中: 9000");
    assert!(st.ready);
    st.mark_failed();
    assert!(st.server_state().failed);
    st.observe_stderr_line("oops".to_string());
    assert_eq!(st.stderr_tail.joined(), "oops");
}

#[test]
fn follow_up_of_login_checks() {
    match login_follow_up(LoginCheck::Valid, false, "abc123") {
        LoginFollowUp::FillIn(js) => assert_eq!(js, autofill_js("abc123")),
        _ => panic!("expected the autofill script"),
    }
    assert!(matches!(login_follow_up(LoginCheck::Invalid, false, "abc123"), LoginFollowUp::Forget));
    assert!(matches!(login_follow_up(LoginCheck::Invalid, true, "abc123"), LoginFollowUp::Nothing));
    assert!(matches!(login_follow_up(LoginCheck::Unreachable, false, "abc123"), LoginFollowUp::Nothing));
}

#[test]
fn menu_ids() {
    assert_eq!(menu_command("open"), MenuCommand::Open);
    assert_eq!(menu_command("restart"), MenuCommand::Restart);
    assert_eq!(menu_command("show_password"), MenuCommand::ShowPassword);
    assert_eq!(menu_command("autofill"), MenuCommand::Autofill);
    assert_eq!(menu_command("quit"), MenuCommand::Quit);
    assert_eq!(menu_command("status"), MenuCommand::Ignore);
    assert_eq!(menu_command("Quit"), MenuCommand::Ignore);
}

#[test]
fn password_dialogs() {
    assert_eq!(
        first_start_dialog("IT3Z"),
        "首次启动已创建管理员账号：\n\n用户名  admin\n密码    IT3Z\n\n密码已复制到剪贴板，登录后请立即修改。"
    );
    assert_eq!(
        session_password_dialog("IT3Z"),
        "本次进程捕获到的首次启动密码：\n\n用户名  admin\n密码    IT3Z\n\n若你已登录并改过密码，以改后为准。"
    );
}
