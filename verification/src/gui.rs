//! What the status window shows: the text of each cell of its status grid,
//! which buttons are enabled, and the feedback line and configuration-change
//! warning that follow the buttons' actions.

use vstd::prelude::*;
use crate::status::DaemonStatus;
use crate::text::{chars_eq, chars_of, decimal, decimal_string, push_decimal};

verus! {

/// A value in the status grid: its text, and whether it is drawn dimmed
/// (a placeholder rather than a value).
pub struct Cell {
    pub text: String,
    pub weak: bool,
}

pub open spec fn opt_status(status: Option<&DaemonStatus>) -> Option<DaemonStatus> {
    match status {
        Some(s) => Some(*s),
        None => None,
    }
}

/// The `Keyboard:` cell.
pub open spec fn keyboard_text(status: Option<DaemonStatus>) -> (Seq<char>, bool) {
    match status {
        None => ("(daemon not running)"@, true),
        Some(s) => if s.keyboard_connected {
            ("Connected"@, false)
        } else {
            ("Not connected"@, false)
        },
    }
}

pub fn keyboard_cell(status: Option<&DaemonStatus>) -> (c: Cell)
    ensures
        (c.text@, c.weak) == keyboard_text(opt_status(status)),
{
    match status {
        None => Cell { text: String::from_str("(daemon not running)"), weak: true },
        Some(s) => if s.keyboard_connected {
            Cell { text: String::from_str("Connected"), weak: false }
        } else {
            Cell { text: String::from_str("Not connected"), weak: false }
        },
    }
}

/// The `Profile:` cell: the profile the daemon reports, or a dimmed `-`.
pub open spec fn profile_cell_text(status: Option<DaemonStatus>) -> (Seq<char>, bool) {
    match status {
        Some(s) => match s.profile {
            Some(p) => (decimal(p as nat), false),
            None => ("-"@, true),
        },
        None => ("-"@, true),
    }
}

pub fn profile_cell(status: Option<&DaemonStatus>) -> (c: Cell)
    ensures
        (c.text@, c.weak) == profile_cell_text(opt_status(status)),
{
    let profile = match status {
        Some(s) => s.profile,
        None => None,
    };
    match profile {
        Some(p) => Cell { text: decimal_string(p as u64), weak: false },
        None => Cell { text: String::from_str("-"), weak: true },
    }
}

/// The `Chat:` and `Game:` cells: `Yes`, `No`, or a dimmed `-`.
pub open spec fn flag_text(flag: Option<bool>) -> (Seq<char>, bool) {
    match flag {
        Some(true) => ("Yes"@, false),
        Some(false) => ("No"@, false),
        None => ("-"@, true),
    }
}

pub open spec fn chat_flag(status: Option<DaemonStatus>) -> Option<bool> {
    match status {
        Some(s) => s.chat,
        None => None,
    }
}

pub open spec fn game_flag(status: Option<DaemonStatus>) -> Option<bool> {
    match status {
        Some(s) => s.game,
        None => None,
    }
}

pub fn flag_cell(flag: Option<bool>) -> (c: Cell)
    ensures
        (c.text@, c.weak) == flag_text(flag),
{
    match flag {
        Some(true) => Cell { text: String::from_str("Yes"), weak: false },
        Some(false) => Cell { text: String::from_str("No"), weak: false },
        None => Cell { text: String::from_str("-"), weak: true },
    }
}

pub fn chat_cell(status: Option<&DaemonStatus>) -> (c: Cell)
    ensures
        (c.text@, c.weak) == flag_text(chat_flag(opt_status(status))),
{
    match status {
        Some(s) => flag_cell(s.chat),
        None => flag_cell(None),
    }
}

pub fn game_cell(status: Option<&DaemonStatus>) -> (c: Cell)
    ensures
        (c.text@, c.weak) == flag_text(game_flag(opt_status(status))),
{
    match status {
        Some(s) => flag_cell(s.game),
        None => flag_cell(None),
    }
}

/// The `Executable Path:` cell: the installed program, or a dimmed note
/// before installation.
pub open spec fn executable_text(installed: bool, exe_path: Seq<char>) -> (Seq<char>, bool) {
    if installed {
        (exe_path, false)
    } else {
        ("(Will be set upon installation)"@, true)
    }
}

pub fn executable_cell(installed: bool, exe_path: &str) -> (c: Cell)
    ensures
        (c.text@, c.weak) == executable_text(installed, exe_path@),
{
    if installed {
        Cell { text: String::from_str(exe_path), weak: false }
    } else {
        Cell { text: String::from_str("(Will be set upon installation)"), weak: true }
    }
}

/// A configured profile as the grid shows it, e.g. `profile 2`.
pub fn profile_setting_text(profile: u8) -> (r: String)
    ensures
        r@ == "profile "@ + decimal(profile as nat),
{
    let mut r = String::from_str("profile ");
    push_decimal(&mut r, profile as u64);
    r
}

/// Which of the window's buttons are enabled. The buttons are all disabled
/// only for a copy running from the install folder that is not installed,
/// i.e. one left behind by an uninstall.
pub struct Buttons {
    pub install: bool,
    pub uninstall: bool,
    pub open_folder: bool,
    /// Whether the start/stop row is shown at all: only once installed.
    pub daemon_row: bool,
    pub start: bool,
    pub stop: bool,
}

pub open spec fn buttons_enabled(installed: bool, running_from_install_dir: bool) -> bool {
    !(running_from_install_dir && !installed)
}

pub fn button_states(installed: bool, running: bool, running_from_install_dir: bool) -> (b:
    Buttons)
    ensures
        b.install == buttons_enabled(installed, running_from_install_dir),
        b.uninstall == (buttons_enabled(installed, running_from_install_dir) && installed),
        b.open_folder == buttons_enabled(installed, running_from_install_dir),
        b.daemon_row == installed,
        b.start == (buttons_enabled(installed, running_from_install_dir) && !running),
        b.stop == (buttons_enabled(installed, running_from_install_dir) && running),
{
    let enabled = !(running_from_install_dir && !installed);
    Buttons {
        install: enabled,
        uninstall: enabled && installed,
        open_folder: enabled,
        daemon_row: installed,
        start: enabled && !running,
        stop: enabled && running,
    }
}

pub open spec fn install_label_text(installed: bool) -> Seq<char> {
    if installed {
        "Reinstall / Update"@
    } else {
        "Install Service"@
    }
}

/// The install button's caption.
pub fn install_label(installed: bool) -> (r: &'static str)
    ensures
        r@ == install_label_text(installed),
{
    if installed {
        "Reinstall / Update"
    } else {
        "Install Service"
    }
}

/// What a button asks the installer to do.
#[derive(Debug, Clone, Copy, PartialEq, Eq, Structural)]
pub enum Action {
    Install,
    Uninstall,
    StartDaemon,
    StopDaemon,
}

pub open spec fn progress_text(a: Action) -> Seq<char> {
    match a {
        Action::Install => "Installing service..."@,
        Action::Uninstall => "Uninstalling service..."@,
        Action::StartDaemon => "Starting daemon..."@,
        Action::StopDaemon => "Stopping daemon..."@,
    }
}

pub open spec fn success_text(a: Action) -> Seq<char> {
    match a {
        Action::Install => "Service successfully installed and started!"@,
        Action::Uninstall => "Service successfully uninstalled!"@,
        Action::StartDaemon => "Daemon successfully started!"@,
        Action::StopDaemon => "Daemon successfully stopped!"@,
    }
}

pub open spec fn failure_prefix(a: Action) -> Seq<char> {
    match a {
        Action::Install => "Installation failed: "@,
        Action::Uninstall => "Uninstallation failed: "@,
        Action::StartDaemon => "Failed to start daemon: "@,
        Action::StopDaemon => "Failed to stop daemon: "@,
    }
}

impl Action {
    /// Whether, after the action succeeds, the window waits for the daemon's
    /// status port to answer before going on.
    pub fn waits_for_daemon(self) -> (r: bool)
        ensures
            r == (self == Action::Install || self == Action::StartDaemon),
    {
        matches!(self, Action::Install | Action::StartDaemon)
    }

    /// Whether, after the action succeeds, the configuration is read again
    /// as the one the daemon now runs with (after an uninstall there is
    /// none).
    pub fn rereads_config(self) -> (r: bool)
        ensures
            r == (self != Action::Uninstall),
    {
        !matches!(self, Action::Uninstall)
    }

    /// The feedback line while the action runs.
    pub fn progress(self) -> (r: &'static str)
        ensures
            r@ == progress_text(self),
    {
        match self {
            Action::Install => "Installing service...",
            Action::Uninstall => "Uninstalling service...",
            Action::StartDaemon => "Starting daemon...",
            Action::StopDaemon => "Stopping daemon...",
        }
    }

    /// The feedback line when the action succeeded.
    pub fn success(self) -> (r: &'static str)
        ensures
            r@ == success_text(self),
    {
        match self {
            Action::Install => "Service successfully installed and started!",
            Action::Uninstall => "Service successfully uninstalled!",
            Action::StartDaemon => "Daemon successfully started!",
            Action::StopDaemon => "Daemon successfully stopped!",
        }
    }

    /// What the feedback line starts with when the action failed; the
    /// error follows.
    pub fn failure(self) -> (r: &'static str)
        ensures
            r@ == failure_prefix(self),
    {
        match self {
            Action::Install => "Installation failed: ",
            Action::Uninstall => "Uninstallation failed: ",
            Action::StartDaemon => "Failed to start daemon: ",
            Action::StopDaemon => "Failed to stop daemon: ",
        }
    }
}

/// The window's feedback state: the last message and whether it reports an
/// error, the configuration the running daemon was started with, and
/// whether the configuration file has changed since.
pub struct Feedback {
    pub message: Option<String>,
    pub is_error: bool,
    pub active_env: String,
    pub env_changed: bool,
}

pub open spec fn message_view(m: Option<String>) -> Option<Seq<char>> {
    match m {
        Some(s) => Some(s@),
        None => None,
    }
}

impl Feedback {
    /// A window that has shown nothing yet; `active_env` is the configuration
    /// file's text when it opened.
    pub fn new(active_env: String) -> (r: Self)
        ensures
            r.message is None,
            !r.is_error,
            r.active_env@ == active_env@,
            !r.env_changed,
    {
        Feedback { message: None, is_error: false, active_env, env_changed: false }
    }

    /// The once-a-second refresh: while the daemon runs, whether the
    /// configuration file (`current_env`) differs from what it was started
    /// with; when it is stopped there is nothing to restart.
    pub fn refresh(&mut self, is_running: bool, current_env: &str)
        ensures
            final(self).env_changed == (is_running && current_env@ != old(self).active_env@),
            final(self).message == old(self).message,
            final(self).is_error == old(self).is_error,
            final(self).active_env == old(self).active_env,
    {
        if is_running {
            let current = chars_of(current_env);
            let active = chars_of(self.active_env.as_str());
            self.env_changed = !chars_eq(&current, active.as_slice());
        } else {
            self.env_changed = false;
        }
    }

    /// A button was pressed: show that its action is under way.
    pub fn begin(&mut self, action: Action)
        ensures
            message_view(final(self).message) == Some(progress_text(action)),
            !final(self).is_error,
            final(self).active_env == old(self).active_env,
            final(self).env_changed == old(self).env_changed,
    {
        self.message = Some(String::from_str(action.progress()));
        self.is_error = false;
    }

    /// The action succeeded. `env_now` is the configuration file's text now;
    /// it becomes the configuration the daemon runs with, except after an
    /// uninstall, when there is none.
    pub fn succeeded(&mut self, action: Action, env_now: String)
        ensures
            message_view(final(self).message) == Some(success_text(action)),
            !final(self).is_error,
            final(self).active_env@ == (if action == Action::Uninstall {
                Seq::<char>::empty()
            } else {
                env_now@
            }),
            !final(self).env_changed,
    {
        self.message = Some(String::from_str(action.success()));
        self.is_error = false;
        if action.rereads_config() {
            self.active_env = env_now;
        } else {
            self.active_env = String::new();
        }
        self.env_changed = false;
    }

    /// The action failed with `error`.
    pub fn failed(&mut self, action: Action, error: &str)
        ensures
            message_view(final(self).message) == Some(failure_prefix(action) + error@),
            final(self).is_error,
            final(self).active_env == old(self).active_env,
            final(self).env_changed == old(self).env_changed,
    {
        let mut m = String::from_str(action.failure());
        m.append(error);
        self.message = Some(m);
        self.is_error = true;
    }

    /// The settings folder could not be opened.
    pub fn folder_failed(&mut self, error: &str)
        ensures
            message_view(final(self).message) == Some("Could not open folder: "@ + error@),
            final(self).is_error,
            final(self).active_env == old(self).active_env,
            final(self).env_changed == old(self).env_changed,
    {
        let mut m = String::from_str("Could not open folder: ");
        m.append(error);
        self.message = Some(m);
        self.is_error = true;
    }

    /// Whether to show the "restart the daemon" warning: the configuration
    /// changed under an installed, running daemon.
    pub fn shows_restart_warning(&self, installed: bool) -> (r: bool)
        ensures
            r == (installed && self.env_changed),
    {
        installed && self.env_changed
    }
}

} // verus!
