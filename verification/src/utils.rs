//! Decisions about the process's console: whether the program was started
//! by double-clicking, and which standard handles to bind once a
//! GUI-subsystem process has attached to its parent's console.

use vstd::prelude::*;
use crate::config::Platform;

verus! {

/// Whether a console-subsystem process was started from a file manager
/// rather than a terminal: on macOS, standard output is not a terminal; on
/// Linux, that and a graphical display being available.
pub fn is_double_clicked(platform: Platform, has_display: bool, stdout_is_terminal: bool) -> (r:
    bool)
    requires
        platform == Platform::MacOs || platform == Platform::Linux,
    ensures
        platform == Platform::MacOs ==> r == !stdout_is_terminal,
        platform == Platform::Linux ==> r == (has_display && !stdout_is_terminal),
{
    match platform {
        Platform::MacOs => !stdout_is_terminal,
        _ => has_display && !stdout_is_terminal,
    }
}

/// What to do with the standard handles after attaching to the parent
/// console. A handle the process already had came from the shell (a
/// redirection or a pipe) and is put back; only missing ones are bound to
/// the console.
#[derive(Debug, Clone, Copy, PartialEq, Eq, Structural)]
pub struct ConsolePlan {
    /// Put the inherited standard output back.
    pub restore_out: bool,
    /// Put the inherited standard error back.
    pub restore_err: bool,
    /// Open `CONOUT$`.
    pub open_conout: bool,
    /// Bind standard output to `CONOUT$` if it opened.
    pub conout_to_out: bool,
    /// Bind standard error to `CONOUT$` if it opened.
    pub conout_to_err: bool,
    /// Put the inherited standard input back.
    pub restore_in: bool,
    /// Open `CONIN$` and bind standard input to it if it opened.
    pub open_conin: bool,
}

/// The plan for the inherited handles, given which of them were valid
/// before attaching.
pub fn console_plan(out_valid: bool, err_valid: bool, in_valid: bool) -> (p: ConsolePlan)
    ensures
        p.restore_out == out_valid,
        p.restore_err == err_valid,
        p.open_conout == (!out_valid || !err_valid),
        p.conout_to_out == !out_valid,
        p.conout_to_err == !err_valid,
        p.restore_in == in_valid,
        p.open_conin == !in_valid,
{
    ConsolePlan {
        restore_out: out_valid,
        restore_err: err_valid,
        open_conout: !out_valid || !err_valid,
        conout_to_out: !out_valid,
        conout_to_err: !err_valid,
        restore_in: in_valid,
        open_conin: !in_valid,
    }
}

} // verus!
