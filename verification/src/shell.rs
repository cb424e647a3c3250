use vstd::prelude::*;

use crate::autofill::{autofill_js, autofill_script};
use crate::http::LoginCheck;
use crate::json::json_string_literal;
use crate::launch::{attached_status, attached_status_text, ready_status, ready_status_text};
use crate::password::{announced_password, extract_password};
use crate::tail::{last_lines, StderrTail};
use crate::text::same_text;

verus! {

/// The text of an optional string.
pub open spec fn text_of(s: Option<String>) -> Option<Seq<char>> {
    match s {
        Some(t) => Some(t@),
        None => None,
    }
}

fn copy_text(s: &Option<String>) -> (r: Option<String>)
    ensures
        r == *s,
{
    match s {
        Some(t) => Some(t.clone()),
        None => None,
    }
}

/// The shell's own settings, kept apart from the server's data: whether to
/// remember the admin password and fill it in, and the remembered password.
pub struct ShellSettings {
    pub autofill: bool,
    pub admin_password: Option<String>,
}

impl Default for ShellSettings {
    /// Autofill on, nothing remembered.
    fn default() -> (s: Self)
        ensures
            s.autofill,
            s.admin_password is None,
    {
        ShellSettings { autofill: true, admin_password: None }
    }
}

impl ShellSettings {
    /// The settings as loaded from disk, or the defaults when there were none
    /// or they could not be read.
    pub fn loaded_or_default(loaded: Option<ShellSettings>) -> (s: ShellSettings)
        ensures
            match loaded {
                Some(l) => s == l,
                None => s.autofill && s.admin_password is None,
            },
    {
        match loaded {
            Some(l) => l,
            None => ShellSettings::default(),
        }
    }

    /// Switches autofill on or off; switching it off forgets the remembered
    /// password.
    pub fn set_autofill(&mut self, enabled: bool)
        ensures
            final(self).autofill == enabled,
            final(self).admin_password == (if enabled {
                old(self).admin_password
            } else {
                None
            }),
    {
        self.autofill = enabled;
        if !enabled {
            self.admin_password = None;
        }
    }

    /// Remembers `password` when autofill is on; says whether it did, that is
    /// whether the settings changed and must be saved.
    pub fn remember_password(&mut self, password: String) -> (remembered: bool)
        ensures
            remembered == old(self).autofill,
            final(self).autofill == old(self).autofill,
            final(self).admin_password == (if old(self).autofill {
                Some(password)
            } else {
                old(self).admin_password
            }),
    {
        if self.autofill {
            self.admin_password = Some(password);
            true
        } else {
            false
        }
    }

    /// Forgets the remembered password.
    pub fn forget_password(&mut self)
        ensures
            final(self).autofill == old(self).autofill,
            final(self).admin_password is None,
    {
        self.admin_password = None;
    }

    /// The remembered password to try on the console once it has loaded:
    /// there is one only when autofill is on and a password is remembered.
    pub fn password_to_verify(&self) -> (p: Option<String>)
        ensures
            p == (if self.autofill {
                self.admin_password
            } else {
                None
            }),
    {
        if self.autofill {
            copy_text(&self.admin_password)
        } else {
            None
        }
    }
}

/// A password read from the server's output.
pub struct CapturedPassword {
    /// The password.
    pub password: String,
    /// Whether it was also remembered in the settings, which must then be
    /// saved.
    pub remembered: bool,
}

/// What the console's UI is told about the server.
pub struct ServerState {
    pub ready: bool,
    pub attached: bool,
    pub failed: bool,
    pub port: u16,
    pub password: Option<String>,
}

/// What the shell knows about the server it manages.
pub struct ShellState {
    /// The port of the server.
    pub port: u16,
    /// The server was already running when the shell started; the shell did
    /// not start it.
    pub attached: bool,
    /// The server answers.
    pub ready: bool,
    /// Starting the server failed.
    pub failed: bool,
    /// The admin password that this run of the server announced, if any.
    pub admin_password: Option<String>,
    /// The last lines of the server's standard error.
    pub stderr_tail: StderrTail,
    /// The shell's settings.
    pub settings: ShellSettings,
}

impl ShellState {
    /// The state before any server was looked for.
    pub fn new(port: u16, settings: ShellSettings) -> (s: Self)
        ensures
            s.port == port,
            !s.attached,
            !s.ready,
            !s.failed,
            s.admin_password is None,
            s.stderr_tail@ == Seq::<Seq<char>>::empty(),
            s.settings == settings,
    {
        ShellState {
            port,
            attached: false,
            ready: false,
            failed: false,
            admin_password: None,
            stderr_tail: StderrTail::new(),
            settings,
        }
    }

    /// A healthy server already runs on the port: the shell attaches to it,
    /// which is ready at once. Gives the tray status.
    pub fn attach_to_running(&mut self) -> (status: String)
        ensures
            final(self).attached,
            final(self).ready,
            final(self).port == old(self).port,
            final(self).failed == old(self).failed,
            final(self).admin_password == old(self).admin_password,
            final(self).stderr_tail == old(self).stderr_tail,
            final(self).settings == old(self).settings,
            status@ == attached_status_text(old(self).port),
    {
        self.attached = true;
        self.ready = true;
        attached_status(self.port)
    }

    /// The shell has started its own server, which is not ready yet.
    pub fn child_started(&mut self)
        ensures
            !final(self).attached,
            !final(self).ready,
            final(self).port == old(self).port,
            final(self).failed == old(self).failed,
            final(self).admin_password == old(self).admin_password,
            final(self).stderr_tail == old(self).stderr_tail,
            final(self).settings == old(self).settings,
    {
        self.attached = false;
        self.ready = false;
    }

    /// The started server answers. Gives the tray status.
    pub fn mark_ready(&mut self) -> (status: String)
        ensures
            final(self).ready,
            final(self).attached == old(self).attached,
            final(self).port == old(self).port,
            final(self).failed == old(self).failed,
            final(self).admin_password == old(self).admin_password,
            final(self).stderr_tail == old(self).stderr_tail,
            final(self).settings == old(self).settings,
            status@ == ready_status_text(old(self).port),
    {
        self.ready = true;
        ready_status(self.port)
    }

    /// Starting the server failed.
    pub fn mark_failed(&mut self)
        ensures
            final(self).failed,
            final(self).ready == old(self).ready,
            final(self).attached == old(self).attached,
            final(self).port == old(self).port,
            final(self).admin_password == old(self).admin_password,
            final(self).stderr_tail == old(self).stderr_tail,
            final(self).settings == old(self).settings,
    {
        self.failed = true;
    }

    /// A restart begins: the server is not ready until it answers again.
    pub fn begin_restart(&mut self)
        ensures
            !final(self).ready,
            final(self).attached == old(self).attached,
            final(self).failed == old(self).failed,
            final(self).port == old(self).port,
            final(self).admin_password == old(self).admin_password,
            final(self).stderr_tail == old(self).stderr_tail,
            final(self).settings == old(self).settings,
    {
        self.ready = false;
    }

    /// Takes in one line of the server's standard output. A line that
    /// announces the admin password makes it this run's password, and the
    /// remembered one too when autofill is on; other lines change nothing.
    pub fn observe_stdout_line(&mut self, line: &str) -> (c: Option<CapturedPassword>)
        ensures
            match announced_password(line@) {
                None => c is None && *final(self) == *old(self),
                Some(p) => c matches Some(captured) && captured.password@ == p
                    && captured.remembered == old(self).settings.autofill && text_of(
                    final(self).admin_password,
                ) == Some(p) && final(self).settings.autofill == old(self).settings.autofill
                    && text_of(final(self).settings.admin_password) == (if old(
                    self,
                ).settings.autofill {
                    Some(p)
                } else {
                    text_of(old(self).settings.admin_password)
                }) && final(self).port == old(self).port && final(self).attached == old(
                    self,
                ).attached && final(self).ready == old(self).ready && final(self).failed == old(
                    self,
                ).failed && final(self).stderr_tail == old(self).stderr_tail,
            },
    {
        match extract_password(line) {
            None => None,
            Some(password) => {
                self.admin_password = Some(password.clone());
                let remembered = self.settings.remember_password(password.clone());
                Some(CapturedPassword { password, remembered })
            },
        }
    }

    /// Takes in one line of the server's standard error, keeping only the
    /// last lines.
    pub fn observe_stderr_line(&mut self, line: String)
        ensures
            final(self).stderr_tail@ == last_lines(old(self).stderr_tail@.push(line@)),
            final(self).port == old(self).port,
            final(self).attached == old(self).attached,
            final(self).ready == old(self).ready,
            final(self).failed == old(self).failed,
            final(self).admin_password == old(self).admin_password,
            final(self).settings == old(self).settings,
    {
        self.stderr_tail.push(line);
    }

    /// What the console's UI is told about the server.
    pub fn server_state(&self) -> (s: ServerState)
        ensures
            s.ready == self.ready,
            s.attached == self.attached,
            s.failed == self.failed,
            s.port == self.port,
            s.password == self.admin_password,
    {
        ServerState {
            ready: self.ready,
            attached: self.attached,
            failed: self.failed,
            port: self.port,
            password: copy_text(&self.admin_password),
        }
    }

    /// This run's admin password, to show or to copy.
    pub fn session_password(&self) -> (p: Option<String>)
        ensures
            p == self.admin_password,
    {
        copy_text(&self.admin_password)
    }
}

/// What to do once a remembered password has been checked against the
/// server.
pub enum LoginFollowUp {
    /// The password still works: run this script in the console page.
    FillIn(String),
    /// The password was changed: forget it.
    Forget,
    /// Leave everything as it is.
    Nothing,
}

/// Decides what follows a check of `password`. A refused password is
/// forgotten, except when the shell is attached to a server that it did not
/// start (the password may belong to another installation); without an answer
/// nothing changes.
pub fn login_follow_up(check: LoginCheck, attached: bool, password: &str) -> (f: LoginFollowUp)
    ensures
        match check {
            LoginCheck::Valid => f matches LoginFollowUp::FillIn(js) && js@ == autofill_script(
                json_string_literal(password@),
            ),
            LoginCheck::Invalid => if attached {
                f is Nothing
            } else {
                f is Forget
            },
            LoginCheck::Unreachable => f is Nothing,
        },
{
    match check {
        LoginCheck::Valid => LoginFollowUp::FillIn(autofill_js(password)),
        LoginCheck::Invalid => if attached {
            LoginFollowUp::Nothing
        } else {
            LoginFollowUp::Forget
        },
        LoginCheck::Unreachable => LoginFollowUp::Nothing,
    }
}

/// The dialog that announces the password of a server's first start.
pub fn first_start_dialog(password: &str) -> (m: String)
    ensures
        m@ == "首次启动已创建管理员账号：\n\n用户名  admin\n密码    "@ + password@
            + "\n\n密码已复制到剪贴板，登录后请立即修改。"@,
{
    "首次启动已创建管理员账号：\n\n用户名  admin\n密码    ".to_string().concat(password).concat(
        "\n\n密码已复制到剪贴板，登录后请立即修改。",
    )
}

/// The dialog that shows this run's password on request.
pub fn session_password_dialog(password: &str) -> (m: String)
    ensures
        m@ == "本次进程捕获到的首次启动密码：\n\n用户名  admin\n密码    "@ + password@
            + "\n\n若你已登录并改过密码，以改后为准。"@,
{
    "本次进程捕获到的首次启动密码：\n\n用户名  admin\n密码    ".to_string().concat(password).concat(
        "\n\n若你已登录并改过密码，以改后为准。",
    )
}

/// An entry of the tray menu.
#[derive(Clone, Copy, Debug, PartialEq, Eq)]
pub enum MenuCommand {
    Open,
    Restart,
    ShowPassword,
    Autofill,
    Quit,
    Ignore,
}

/// The tray entry that a menu event's id names; unknown ids are ignored.
pub fn menu_command(id: &str) -> (c: MenuCommand)
    ensures
        c == (if id@ == "open"@ {
            MenuCommand::Open
        } else if id@ == "restart"@ {
            MenuCommand::Restart
        } else if id@ == "show_password"@ {
            MenuCommand::ShowPassword
        } else if id@ == "autofill"@ {
            MenuCommand::Autofill
        } else if id@ == "quit"@ {
            MenuCommand::Quit
        } else {
            MenuCommand::Ignore
        }),
{
    if same_text(id, "open") {
        MenuCommand::Open
    } else if same_text(id, "restart") {
        MenuCommand::Restart
    } else if same_text(id, "show_password") {
        MenuCommand::ShowPassword
    } else if same_text(id, "autofill") {
        MenuCommand::Autofill
    } else if same_text(id, "quit") {
        MenuCommand::Quit
    } else {
        MenuCommand::Ignore
    }
}

} // verus!
