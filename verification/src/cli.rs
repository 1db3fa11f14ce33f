//! The command line: which command the arguments name, the profile the
//! `--stress switch` run sends at each tick, and the status report printed
//! when the program runs without a command.

use vstd::prelude::*;
use crate::config::SwitcherConfig;
use crate::text::{
    chars_of, decimal, parse_unsigned, parse_unsigned_chars, push_decimal, text_is, trim,
    trim_chars,
};

verus! {

/// One part of what the daemon does, run on its own at the daemon's rate.
#[derive(Debug, Clone, Copy, PartialEq, Eq, Structural)]
pub enum StressMode {
    /// Re-enumerate the HID devices and look for the keyboard; sends nothing.
    Hid,
    /// Open the keyboard's config interface and drop the handle.
    Open,
    /// Re-send the profile the keyboard is already on.
    Send,
    /// Alternate between two profiles once a second.
    Switch,
}

impl StressMode {
    /// Whether each tick opens the device without writing.
    pub fn opens(self) -> (r: bool)
        ensures
            r == (self == StressMode::Open),
    {
        matches!(self, StressMode::Open)
    }

    /// Whether each tick sends a profile (and the initial one is restored at
    /// the end).
    pub fn writes(self) -> (r: bool)
        ensures
            r == (self == StressMode::Send || self == StressMode::Switch),
    {
        matches!(self, StressMode::Send | StressMode::Switch)
    }
}

pub open spec fn stress_mode_of(what: Seq<char>) -> Option<StressMode> {
    if what == "hid"@ {
        Some(StressMode::Hid)
    } else if what == "open"@ {
        Some(StressMode::Open)
    } else if what == "send"@ {
        Some(StressMode::Send)
    } else if what == "switch"@ {
        Some(StressMode::Switch)
    } else {
        None
    }
}

/// The mode `--stress` names: `hid`, `open`, `send` or `switch`.
pub fn parse_stress_mode(what: &str) -> (r: Option<StressMode>)
    ensures
        r == stress_mode_of(what@),
{
    let v = chars_of(what);
    if text_is(&v, "hid") {
        Some(StressMode::Hid)
    } else if text_is(&v, "open") {
        Some(StressMode::Open)
    } else if text_is(&v, "send") {
        Some(StressMode::Send)
    } else if text_is(&v, "switch") {
        Some(StressMode::Switch)
    } else {
        None
    }
}

/// The length of a stress run: the argument when it is a `u64`, else 30 s.
pub open spec fn stress_seconds_of(arg: Option<Seq<char>>) -> u64 {
    match arg {
        Some(s) => match parse_unsigned(s, u64::MAX as nat) {
            Some(n) => n as u64,
            None => 30,
        },
        None => 30,
    }
}

pub fn stress_seconds(arg: Option<&str>) -> (r: u64)
    ensures
        r == stress_seconds_of(
            match arg {
                Some(s) => Some(s@),
                None => None,
            },
        ),
{
    match arg {
        Some(s) => {
            let v = chars_of(s);
            match parse_unsigned_chars(&v, u64::MAX) {
                Some(n) => n,
                None => 30,
            }
        },
        None => 30,
    }
}

/// A stress run lasts the number of seconds given in decimal, when that
/// fits in a `u64`, and 30 s otherwise or when none is given.
pub proof fn lemma_stress_seconds_given(n: nat)
    ensures
        stress_seconds_of(Some(decimal(n))) == (if n <= u64::MAX {
            n as u64
        } else {
            30u64
        }),
        stress_seconds_of(None) == 30,
{
    crate::text::lemma_decimal_parses(n, u64::MAX as nat);
}

/// The profile `--set-profile` names: the argument, trimmed, when it is a
/// number 1..=4.
pub open spec fn profile_arg_of(arg: Option<Seq<char>>) -> Option<u8> {
    match arg {
        Some(s) => match parse_unsigned(trim(s), 255) {
            Some(n) => if 1 <= n <= 4 {
                Some(n as u8)
            } else {
                None
            },
            None => None,
        },
        None => None,
    }
}

pub fn parse_profile_arg(arg: Option<&str>) -> (r: Option<u8>)
    ensures
        r == profile_arg_of(
            match arg {
                Some(s) => Some(s@),
                None => None,
            },
        ),
{
    match arg {
        Some(s) => {
            let v = chars_of(s);
            let t = trim_chars(&v);
            match parse_unsigned_chars(&t, 255) {
                Some(n) => if 1 <= n && n <= 4 {
                    Some(n as u8)
                } else {
                    None
                },
                None => None,
            }
        },
        None => None,
    }
}

/// `--set-profile` takes exactly the profiles 1..=4, written in decimal with
/// or without surrounding whitespace; any other number is refused.
pub proof fn lemma_profile_arg_range(n: nat, pad: Seq<char>)
    requires
        forall|i: int| 0 <= i < pad.len() ==> crate::text::is_ws(#[trigger] pad[i]),
    ensures
        profile_arg_of(Some(decimal(n))) == (if 1 <= n <= 4 {
            Some(n as u8)
        } else {
            None::<u8>
        }),
        profile_arg_of(Some(pad + decimal(n) + pad)) == profile_arg_of(Some(decimal(n))),
        forall|a: Seq<char>| #[trigger] profile_arg_of(Some(a)) matches Some(p) ==> 1 <= p <= 4,
{
    crate::text::lemma_decimal_parses(n, 255);
    crate::text::lemma_decimal_digits(n);
    let d = decimal(n);
    assert(crate::text::is_ascii_digit(d[d.len() - 1]));
    crate::text::lemma_trim_padded(pad, d);
}

/// The command line `<program> --set-profile N` sets profile N for each N in
/// 1..=4 and asks for the usage for every other number.
pub proof fn lemma_set_profile_command(program: Seq<char>, n: nat)
    ensures
        command_of(seq![program, "--set-profile"@, decimal(n)]) == (if 1 <= n <= 4 {
            Command::SetProfile(n as u8)
        } else {
            Command::SetProfileUsage
        }),
{
    reveal_strlit("--set-profile");
    reveal_strlit("--help");
    reveal_strlit("-h");
    reveal_strlit("--stress");
    reveal_strlit("--list-hid");
    reveal_strlit("--get-profile");
    crate::text::lemma_decimal_parses(n, 255);
    let args = seq![program, "--set-profile"@, decimal(n)];
    let cmd = args[1];
    assert(cmd == "--set-profile"@);
    assert(cmd != "--help"@ && cmd != "-h"@ && cmd != "--stress"@ && cmd != "--list-hid"@);
    assert(cmd != "--get-profile"@) by {
        assert(cmd[2] != "--get-profile"@[2]);
    }
    assert(arg_at(args, 2) == Some(decimal(n)));
    lemma_profile_arg_range(n, Seq::empty());
}

/// What the program is asked to do.
#[derive(Debug, Clone, Copy, PartialEq, Eq, Structural)]
pub enum Command {
    /// `--help` or `-h`.
    Help,
    /// `--stress <mode> [seconds]`.
    Stress { mode: StressMode, seconds: u64 },
    /// `--stress` without a known mode: print its usage and fail.
    StressUsage,
    /// `--list-hid`.
    ListHid,
    /// `--get-profile`.
    GetProfile,
    /// `--set-profile N` with N in 1..=4.
    SetProfile(u8),
    /// `--set-profile` without a profile 1..=4: print its usage and fail.
    SetProfileUsage,
    /// No command: show the status.
    Status,
    /// `--daemon`.
    Daemon,
    /// Anything else: one of the installer's commands, or else the status.
    Other,
}

pub open spec fn arg_at(args: Seq<Seq<char>>, i: int) -> Option<Seq<char>> {
    if 0 <= i < args.len() {
        Some(args[i])
    } else {
        None
    }
}

pub open spec fn args_view(args: Seq<String>) -> Seq<Seq<char>> {
    args.map_values(|s: String| s@)
}

/// The command the program's arguments (the program's own name first) name.
pub open spec fn command_of(args: Seq<Seq<char>>) -> Command {
    if args.len() < 2 {
        Command::Status
    } else {
        let cmd = args[1];
        if cmd == "--help"@ || cmd == "-h"@ {
            Command::Help
        } else if cmd == "--stress"@ {
            let what = match arg_at(args, 2) {
                Some(w) => w,
                None => Seq::empty(),
            };
            match stress_mode_of(what) {
                Some(mode) => Command::Stress { mode, seconds: stress_seconds_of(arg_at(args, 3)) },
                None => Command::StressUsage,
            }
        } else if cmd == "--list-hid"@ {
            Command::ListHid
        } else if cmd == "--get-profile"@ {
            Command::GetProfile
        } else if cmd == "--set-profile"@ {
            match profile_arg_of(arg_at(args, 2)) {
                Some(n) => Command::SetProfile(n),
                None => Command::SetProfileUsage,
            }
        } else if cmd == "--daemon"@ {
            Command::Daemon
        } else {
            Command::Other
        }
    }
}

/// Reads the command line.
pub fn parse_command(args: &Vec<String>) -> (c: Command)
    ensures
        c == command_of(args_view(args@)),
{
    let ghost a = args_view(args@);
    if args.len() < 2 {
        return Command::Status;
    }
    assert(a[1] == args@[1]@);
    let cmd = chars_of(args[1].as_str());
    if text_is(&cmd, "--help") || text_is(&cmd, "-h") {
        Command::Help
    } else if text_is(&cmd, "--stress") {
        let mode = if args.len() > 2 {
            assert(arg_at(a, 2) == Some(args@[2]@));
            parse_stress_mode(args[2].as_str())
        } else {
            proof {
                reveal_strlit("");
            }
            assert(""@ =~= Seq::<char>::empty());
            parse_stress_mode("")
        };
        match mode {
            Some(m) => {
                let seconds = if args.len() > 3 {
                    assert(arg_at(a, 3) == Some(args@[3]@));
                    stress_seconds(Some(args[3].as_str()))
                } else {
                    stress_seconds(None)
                };
                Command::Stress { mode: m, seconds }
            },
            None => Command::StressUsage,
        }
    } else if text_is(&cmd, "--list-hid") {
        Command::ListHid
    } else if text_is(&cmd, "--get-profile") {
        Command::GetProfile
    } else if text_is(&cmd, "--set-profile") {
        let n = if args.len() > 2 {
            assert(arg_at(a, 2) == Some(args@[2]@));
            parse_profile_arg(Some(args[2].as_str()))
        } else {
            parse_profile_arg(None)
        };
        match n {
            Some(p) => Command::SetProfile(p),
            None => Command::SetProfileUsage,
        }
    } else if text_is(&cmd, "--daemon") {
        Command::Daemon
    } else {
        Command::Other
    }
}

/// The profile a `--stress` run sends at tick `ticks` (one tick per 250 ms):
/// `switch` holds the initial profile for four ticks, then for four ticks
/// profile 2 if the initial one is 1 and profile 1 otherwise, and so on;
/// `send` always re-sends the initial profile.
pub open spec fn stress_profile_at(mode: StressMode, initial: u8, ticks: u64) -> u8 {
    if mode == StressMode::Switch {
        if (ticks / 4) % 2 == 0 {
            initial
        } else if initial == 1 {
            2
        } else {
            1
        }
    } else {
        initial
    }
}

pub fn stress_profile(mode: StressMode, initial: u8, ticks: u64) -> (p: u8)
    ensures
        p == stress_profile_at(mode, initial, ticks),
{
    if matches!(mode, StressMode::Switch) {
        let other: u8 = if initial == 1 {
            2
        } else {
            1
        };
        if (ticks / 4) % 2 == 0 {
            initial
        } else {
            other
        }
    } else {
        initial
    }
}

pub open spec fn yes_no(b: bool) -> Seq<char> {
    if b {
        "Yes"@
    } else {
        "No"@
    }
}

/// The status report: whether the daemon is installed and running, what it
/// has the keyboard on (`current`), where the program and its configuration
/// live, and the configured profiles and port.
pub open spec fn status_report_text(
    installed: bool,
    running: bool,
    current: Seq<char>,
    exe_path: Seq<char>,
    config_path: Seq<char>,
    config: SwitcherConfig,
) -> Seq<char> {
    "MonsGeek Profile Switcher Status\n\n[Status]\n- Installed:      "@ + yes_no(installed)
        + "\n- Running:        "@ + yes_no(running) + "\n- Current:        "@ + current
        + "\n- Executable:     "@ + (if installed {
        exe_path
    } else {
        "(Will be set upon installation)"@
    }) + "\n- Configuration:  "@ + config_path + "\n- On connect:     profile "@ + decimal(
        config.on_connect_profile as nat,
    ) + "\n- Chat:           profile "@ + decimal(config.profile_chat as nat)
        + "\n- Game:           profile "@ + decimal(config.profile_game as nat)
        + "\n- Status port:    127.0.0.1:"@ + decimal(config.status_port as nat)
}

pub fn status_report(
    installed: bool,
    running: bool,
    current: &str,
    exe_path: &str,
    config_path: &str,
    config: &SwitcherConfig,
) -> (r: String)
    ensures
        r@ == status_report_text(installed, running, current@, exe_path@, config_path@, *config),
{
    let mut r = String::from_str("MonsGeek Profile Switcher Status\n\n[Status]\n- Installed:      ");
    r.append(
        if installed {
            "Yes"
        } else {
            "No"
        },
    );
    r.append("\n- Running:        ");
    r.append(
        if running {
            "Yes"
        } else {
            "No"
        },
    );
    r.append("\n- Current:        ");
    r.append(current);
    r.append("\n- Executable:     ");
    if installed {
        r.append(exe_path);
    } else {
        r.append("(Will be set upon installation)");
    }
    r.append("\n- Configuration:  ");
    r.append(config_path);
    r.append("\n- On connect:     profile ");
    push_decimal(&mut r, config.on_connect_profile as u64);
    r.append("\n- Chat:           profile ");
    push_decimal(&mut r, config.profile_chat as u64);
    r.append("\n- Game:           profile ");
    push_decimal(&mut r, config.profile_game as u64);
    r.append("\n- Status port:    127.0.0.1:");
    push_decimal(&mut r, config.status_port as u64);
    r
}

} // verus!
