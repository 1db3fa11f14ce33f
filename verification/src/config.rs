//! Configuration: the switcher's settings as read from the environment,
//! where the configuration lives on each platform, which `.env` files are
//! loaded and in what order, and how a folder is opened for the user.
//!
//! Reading the environment and the file system is the caller's business:
//! these functions take what was read (a variable's value, whether a file
//! exists) and decide.

use vstd::prelude::*;
use crate::text::{
    chars_of, decimal, find, find_chars, parse_unsigned, parse_unsigned_chars, trim, trim_chars,
};

verus! {

/// The operating system the program runs on.
#[derive(Debug, Clone, Copy, PartialEq, Eq, Structural)]
pub enum Platform {
    Windows,
    MacOs,
    Linux,
    Other,
}

/// The environment variables the configuration folder depends on; `None`
/// when a variable is unset (or not valid Unicode).
pub struct DirVars {
    pub appdata: Option<String>,
    pub userprofile: Option<String>,
    pub home: Option<String>,
    pub xdg_config_home: Option<String>,
}

pub open spec fn opt_view(o: Option<String>) -> Option<Seq<char>> {
    match o {
        Some(s) => Some(s@),
        None => None,
    }
}

pub open spec fn or_empty(o: Option<String>) -> Seq<char> {
    match o {
        Some(s) => s@,
        None => Seq::empty(),
    }
}

pub open spec fn app_dir_name() -> Seq<char> {
    "monsgeek-profile-switcher"@
}

/// The path components, joined in order, of the folder that holds the
/// configuration for `app_type`.
pub open spec fn config_dir_parts(app_type: Seq<char>, platform: Platform, vars: DirVars) -> Seq<
    Seq<char>,
> {
    match platform {
        Platform::Windows => match vars.appdata {
            Some(a) => seq![a@, app_dir_name(), app_type],
            None => seq![
                or_empty(vars.userprofile),
                "AppData"@,
                "Roaming"@,
                app_dir_name(),
                app_type,
            ],
        },
        Platform::MacOs => seq![
            or_empty(vars.home),
            "Library"@,
            "Application Support"@,
            app_dir_name(),
            app_type,
        ],
        Platform::Linux => match vars.xdg_config_home {
            Some(x) => seq![x@, app_dir_name(), app_type],
            None => seq![or_empty(vars.home), ".config"@, app_dir_name(), app_type],
        },
        Platform::Other => seq!["."@, app_type],
    }
}

fn some_or_empty(o: &Option<String>) -> (r: String)
    ensures
        r@ == or_empty(*o),
{
    match o {
        Some(s) => s.clone(),
        None => String::new(),
    }
}

/// The folder that holds the configuration for `app_type`, as path
/// components to be joined in order: `%APPDATA%` on Windows (falling back to
/// `%USERPROFILE%\AppData\Roaming`), `~/Library/Application Support` on
/// macOS, `$XDG_CONFIG_HOME` (falling back to `~/.config`) on Linux.
pub fn get_config_dir(app_type: &str, platform: Platform, vars: &DirVars) -> (parts: Vec<String>)
    ensures
        parts.deep_view() == config_dir_parts(app_type@, platform, *vars),
{
    let mut parts: Vec<String> = Vec::new();
    match platform {
        Platform::Windows => match &vars.appdata {
            Some(a) => {
                parts.push(a.clone());
            },
            None => {
                parts.push(some_or_empty(&vars.userprofile));
                parts.push(String::from_str("AppData"));
                parts.push(String::from_str("Roaming"));
            },
        },
        Platform::MacOs => {
            parts.push(some_or_empty(&vars.home));
            parts.push(String::from_str("Library"));
            parts.push(String::from_str("Application Support"));
        },
        Platform::Linux => match &vars.xdg_config_home {
            Some(x) => {
                parts.push(x.clone());
            },
            None => {
                parts.push(some_or_empty(&vars.home));
                parts.push(String::from_str(".config"));
            },
        },
        Platform::Other => {
            parts.push(String::from_str("."));
        },
    }
    if platform != Platform::Other {
        parts.push(String::from_str("monsgeek-profile-switcher"));
    }
    parts.push(String::from_str(app_type));
    assert(parts.deep_view() =~= config_dir_parts(app_type@, platform, *vars));
    parts
}

/// The installed `.env` file for `app_type`, as path components.
pub fn get_config_path(app_type: &str, platform: Platform, vars: &DirVars) -> (parts: Vec<
    String,
>)
    ensures
        parts.deep_view() == config_dir_parts(app_type@, platform, *vars).push(".env"@),
{
    let mut parts = get_config_dir(app_type, platform, vars);
    let ghost before = parts.deep_view();
    parts.push(String::from_str(".env"));
    assert(parts.deep_view() =~= before.push(".env"@));
    parts
}

/// The raw values of the environment variables the switcher reads.
pub struct ConfigVars {
    pub on_connect_profile: Option<String>,
    pub profile_chat: Option<String>,
    pub profile_game: Option<String>,
    pub status_port: Option<String>,
    pub profile_toggle_hotkey: Option<String>,
}

pub const DEFAULT_STATUS_PORT: u16 = 38415;

/// A profile setting: the value, trimmed, when it is a number 1..=4, else
/// `default`.
pub open spec fn profile_setting(raw: Option<Seq<char>>, default: u8) -> u8 {
    match raw {
        Some(s) => match parse_unsigned(trim(s), 255) {
            Some(n) => if 1 <= n <= 4 {
                n as u8
            } else {
                default
            },
            None => default,
        },
        None => default,
    }
}

/// The status port: the value, trimmed, when it is a nonzero `u16`, else
/// 38415.
pub open spec fn port_setting(raw: Option<Seq<char>>) -> u16 {
    match raw {
        Some(s) => match parse_unsigned(trim(s), 65535) {
            Some(n) => if n != 0 {
                n as u16
            } else {
                DEFAULT_STATUS_PORT
            },
            None => DEFAULT_STATUS_PORT,
        },
        None => DEFAULT_STATUS_PORT,
    }
}

/// The toggle hotkey: the value as given unless it is blank, else `Home`.
pub open spec fn hotkey_setting(raw: Option<Seq<char>>) -> Seq<char> {
    match raw {
        Some(s) => if trim(s).len() > 0 {
            s
        } else {
            "Home"@
        },
        None => "Home"@,
    }
}

/// A profile variable holding a number 1..=4 in decimal selects that
/// profile, whatever whitespace surrounds it; any other number leaves the
/// default. A port variable holding a nonzero `u16` in decimal selects that
/// port; zero or a larger number leaves 38415.
pub proof fn lemma_settings_from_numbers(n: nat, default: u8, pad: Seq<char>)
    requires
        forall|i: int| 0 <= i < pad.len() ==> crate::text::is_ws(#[trigger] pad[i]),
    ensures
        profile_setting(Some(pad + decimal(n) + pad), default) == (if 1 <= n <= 4 {
            n as u8
        } else {
            default
        }),
        port_setting(Some(pad + decimal(n) + pad)) == (if 1 <= n <= 65535 {
            n as u16
        } else {
            38415u16
        }),
{
    crate::text::lemma_decimal_parses(n, 255);
    crate::text::lemma_decimal_parses(n, 65535);
    crate::text::lemma_decimal_digits(n);
    let d = decimal(n);
    assert(crate::text::is_ascii_digit(d[d.len() - 1]));
    crate::text::lemma_trim_padded(pad, d);
}

/// On-keyboard profile slots are 1..=4 in the official driver UI.
#[derive(Debug, Clone)]
pub struct SwitcherConfig {
    pub on_connect_profile: u8,
    pub profile_chat: u8,
    pub profile_game: u8,
    pub status_port: u16,
    /// The key (optionally with modifiers, e.g. "Ctrl+Alt+Home") that
    /// toggles between `profile_chat` and `profile_game`.
    pub profile_toggle_hotkey: String,
}

fn opt_str(o: &Option<String>) -> (r: Option<&str>)
    ensures
        match r {
            Some(s) => opt_view(*o) == Some(s@),
            None => o is None,
        },
{
    match o {
        Some(s) => Some(s.as_str()),
        None => None,
    }
}

/// The profile a variable names, or `default` when it is unset or not a
/// number 1..=4.
pub fn parse_profile(raw: Option<&str>, default: u8) -> (r: u8)
    ensures
        r == profile_setting(
            match raw {
                Some(s) => Some(s@),
                None => None,
            },
            default,
        ),
        1 <= default <= 4 ==> 1 <= r <= 4,
{
    match raw {
        Some(s) => {
            let c = chars_of(s);
            let t = trim_chars(&c);
            match parse_unsigned_chars(&t, 255) {
                Some(n) => if 1 <= n && n <= 4 {
                    n as u8
                } else {
                    default
                },
                None => default,
            }
        },
        None => default,
    }
}

/// The status port a variable names, or 38415.
pub fn parse_port(raw: Option<&str>) -> (r: u16)
    ensures
        r == port_setting(
            match raw {
                Some(s) => Some(s@),
                None => None,
            },
        ),
        r != 0,
{
    match raw {
        Some(s) => {
            let c = chars_of(s);
            let t = trim_chars(&c);
            match parse_unsigned_chars(&t, 65535) {
                Some(n) => if n != 0 {
                    n as u16
                } else {
                    DEFAULT_STATUS_PORT
                },
                None => DEFAULT_STATUS_PORT,
            }
        },
        None => DEFAULT_STATUS_PORT,
    }
}

impl SwitcherConfig {
    /// The settings the environment gives: `ON_CONNECT_PROFILE` (default 2),
    /// `PROFILE_CHAT` (default 2), `PROFILE_GAME` (default 1),
    /// `STATUS_PORT` (default 38415), `PROFILE_TOGGLE_HOTKEY` (default
    /// `Home`).
    pub fn load(vars: &ConfigVars) -> (r: Self)
        ensures
            r.on_connect_profile == profile_setting(opt_view(vars.on_connect_profile), 2),
            r.profile_chat == profile_setting(opt_view(vars.profile_chat), 2),
            r.profile_game == profile_setting(opt_view(vars.profile_game), 1),
            r.status_port == port_setting(opt_view(vars.status_port)),
            r.profile_toggle_hotkey@ == hotkey_setting(opt_view(vars.profile_toggle_hotkey)),
            1 <= r.on_connect_profile <= 4,
            1 <= r.profile_chat <= 4,
            1 <= r.profile_game <= 4,
            r.status_port != 0,
    {
        let hotkey = match &vars.profile_toggle_hotkey {
            Some(s) => {
                let c = chars_of(s.as_str());
                let t = trim_chars(&c);
                if t.len() > 0 {
                    s.clone()
                } else {
                    String::from_str("Home")
                }
            },
            None => String::from_str("Home"),
        };
        SwitcherConfig {
            on_connect_profile: parse_profile(opt_str(&vars.on_connect_profile), 2),
            profile_chat: parse_profile(opt_str(&vars.profile_chat), 2),
            profile_game: parse_profile(opt_str(&vars.profile_game), 1),
            status_port: parse_port(opt_str(&vars.status_port)),
            profile_toggle_hotkey: hotkey,
        }
    }

    /// The `.env` written for a fresh install: every setting at its default.
    pub fn default_env_contents() -> (r: &'static str)
        ensures
            r@
                == "ON_CONNECT_PROFILE=2\nPROFILE_CHAT=2\nPROFILE_GAME=1\nSTATUS_PORT=38415\nPROFILE_TOGGLE_HOTKEY=Home\n"@,
    {
        "ON_CONNECT_PROFILE=2\nPROFILE_CHAT=2\nPROFILE_GAME=1\nSTATUS_PORT=38415\nPROFILE_TOGGLE_HOTKEY=Home\n"
    }
}

/// The port the daemon listens on for the given app type.
pub fn get_daemon_port(_app_type: &str, vars: &ConfigVars) -> (port: u16)
    ensures
        port == port_setting(opt_view(vars.status_port)),
        port != 0,
{
    SwitcherConfig::load(vars).status_port
}

/// A place where an `inactive.env` may be found.
#[derive(Debug, Clone, Copy, PartialEq, Eq, Structural)]
pub enum EnvLocation {
    /// `<exe dir>/<app_type>/inactive.env`
    ExeDirAppType,
    /// `<exe dir>/inactive.env`
    ExeDir,
    /// `<folder holding the .app>/<app_type>/inactive.env`
    BundleParentAppType,
    /// `<folder holding the .app>/inactive.env`
    BundleParent,
    /// `<cwd>/<app_type>/inactive.env`
    CwdAppType,
    /// `<cwd>/inactive.env`
    Cwd,
}

/// Where to look for `inactive.env`: the first candidate that exists wins,
/// and `fallback` stands when none does.
pub struct InactiveEnvSearch {
    pub candidates: Vec<EnvLocation>,
    pub fallback: EnvLocation,
}

pub open spec fn contains(hay: Seq<char>, needle: Seq<char>) -> bool {
    find(hay, needle) is Some
}

/// The executable runs from inside a macOS app bundle.
pub open spec fn in_app_bundle(exe_dir: Seq<char>) -> bool {
    contains(exe_dir, ".app/Contents/MacOS"@)
}

/// The executable runs from a cargo build folder.
pub open spec fn in_build_dir(exe_dir: Seq<char>) -> bool {
    ||| contains(exe_dir, "target/release"@)
    ||| contains(exe_dir, "target/debug"@)
    ||| contains(exe_dir, "target/x86_64"@)
    ||| contains(exe_dir, "target/aarch64"@)
}

/// The search order for `inactive.env`. `exe_dir` is the folder of the
/// running executable, if known; `bundle_parent_known` says whether the
/// folder holding its (de-translocated) app bundle is known.
pub open spec fn inactive_env_order(exe_dir: Option<Seq<char>>, bundle_parent_known: bool) -> (
    Seq<EnvLocation>,
    EnvLocation,
) {
    match exe_dir {
        Some(d) => if in_app_bundle(d) && bundle_parent_known {
            (
                seq![
                    EnvLocation::ExeDirAppType,
                    EnvLocation::BundleParentAppType,
                    EnvLocation::BundleParent,
                ],
                EnvLocation::BundleParentAppType,
            )
        } else if !in_build_dir(d) {
            (
                seq![
                    EnvLocation::ExeDirAppType,
                    EnvLocation::ExeDir,
                    EnvLocation::CwdAppType,
                    EnvLocation::Cwd,
                ],
                EnvLocation::Cwd,
            )
        } else {
            (
                seq![EnvLocation::ExeDirAppType, EnvLocation::CwdAppType, EnvLocation::Cwd],
                EnvLocation::Cwd,
            )
        },
        None => (seq![EnvLocation::CwdAppType, EnvLocation::Cwd], EnvLocation::Cwd),
    }
}

fn text_contains(hay: &Vec<char>, needle: &str) -> (r: bool)
    ensures
        r == contains(hay@, needle@),
{
    let n = chars_of(needle);
    find_chars(hay, n.as_slice()).is_some()
}

/// Where to look for the `inactive.env` shipped next to an uninstalled
/// copy: next to the executable (per app type first), beside the app
/// bundle when running from one, and in the working folder; the folder of
/// an executable in a build folder is skipped. Inside an app bundle the
/// per-app-type file beside the bundle is the answer even when it does not
/// exist yet.
pub fn find_inactive_env_path(exe_dir: Option<&str>, bundle_parent_known: bool) -> (r:
    InactiveEnvSearch)
    ensures
        (r.candidates@, r.fallback) == inactive_env_order(
            match exe_dir {
                Some(d) => Some(d@),
                None => None,
            },
            bundle_parent_known,
        ),
{
    let mut candidates: Vec<EnvLocation> = Vec::new();
    match exe_dir {
        Some(d) => {
            let dc = chars_of(d);
            candidates.push(EnvLocation::ExeDirAppType);
            if text_contains(&dc, ".app/Contents/MacOS") && bundle_parent_known {
                candidates.push(EnvLocation::BundleParentAppType);
                candidates.push(EnvLocation::BundleParent);
                assert(candidates@ =~= seq![
                    EnvLocation::ExeDirAppType,
                    EnvLocation::BundleParentAppType,
                    EnvLocation::BundleParent,
                ]);
                return InactiveEnvSearch { candidates, fallback: EnvLocation::BundleParentAppType };
            }
            let in_target = text_contains(&dc, "target/release") || text_contains(
                &dc,
                "target/debug",
            ) || text_contains(&dc, "target/x86_64") || text_contains(&dc, "target/aarch64");
            if !in_target {
                candidates.push(EnvLocation::ExeDir);
            }
        },
        None => {},
    }
    candidates.push(EnvLocation::CwdAppType);
    candidates.push(EnvLocation::Cwd);
    proof {
        match exe_dir {
            Some(d) => {
                if !in_build_dir(d@) {
                    assert(candidates@ =~= seq![
                        EnvLocation::ExeDirAppType,
                        EnvLocation::ExeDir,
                        EnvLocation::CwdAppType,
                        EnvLocation::Cwd,
                    ]);
                } else {
                    assert(candidates@ =~= seq![
                        EnvLocation::ExeDirAppType,
                        EnvLocation::CwdAppType,
                        EnvLocation::Cwd,
                    ]);
                }
            },
            None => {
                assert(candidates@ =~= seq![EnvLocation::CwdAppType, EnvLocation::Cwd]);
            },
        }
    }
    InactiveEnvSearch { candidates, fallback: EnvLocation::Cwd }
}

/// A `.env` file to load.
#[derive(Debug, Clone, Copy, PartialEq, Eq, Structural)]
pub enum EnvSource {
    /// The shipped `inactive.env`; never overrides variables already set.
    Inactive,
    /// The installed configuration; overrides.
    Installed,
    /// `.env` in the working folder; overrides, and is loaded last, so it
    /// wins.
    WorkingDir,
}

/// Whether the shipped `inactive.env` is wanted: only before installation,
/// when neither the installed `.env` nor a working-folder `.env` exists.
pub open spec fn wants_inactive(installed_exists: bool, cwd_env_exists: bool) -> bool {
    !installed_exists && !cwd_env_exists
}

/// The files to load, lowest priority first.
pub open spec fn env_load_order(installed_exists: bool, cwd_env_exists: bool, inactive_exists: bool) -> Seq<
    EnvSource,
> {
    (if wants_inactive(installed_exists, cwd_env_exists) && inactive_exists {
        seq![EnvSource::Inactive]
    } else {
        Seq::empty()
    }) + (if installed_exists {
        seq![EnvSource::Installed]
    } else {
        Seq::empty()
    }) + (if cwd_env_exists {
        seq![EnvSource::WorkingDir]
    } else {
        Seq::empty()
    })
}

/// Whether loading `source` overwrites variables that are already set: the
/// shipped `inactive.env` never does; the installed configuration and the
/// working folder's `.env` do.
pub open spec fn spec_overrides_existing(source: EnvSource) -> bool {
    source != EnvSource::Inactive
}

pub fn overrides_existing(source: EnvSource) -> (r: bool)
    ensures
        r == spec_overrides_existing(source),
{
    !matches!(source, EnvSource::Inactive)
}

/// The value that `source` gives one variable, among the values the three
/// files give it (`None` when a file does not set it).
pub open spec fn source_value(
    source: EnvSource,
    inactive: Option<Seq<char>>,
    installed: Option<Seq<char>>,
    working_dir: Option<Seq<char>>,
) -> Option<Seq<char>> {
    match source {
        EnvSource::Inactive => inactive,
        EnvSource::Installed => installed,
        EnvSource::WorkingDir => working_dir,
    }
}

/// One variable's value after the sources in `order` are loaded, in order,
/// on top of its value `existing` in the environment: a source that sets the
/// variable wins when the variable is still unset or the source overrides.
pub open spec fn value_after_loading(
    existing: Option<Seq<char>>,
    order: Seq<EnvSource>,
    inactive: Option<Seq<char>>,
    installed: Option<Seq<char>>,
    working_dir: Option<Seq<char>>,
) -> Option<Seq<char>>
    decreases order.len(),
{
    if order.len() == 0 {
        existing
    } else {
        let before = value_after_loading(
            existing,
            order.drop_last(),
            inactive,
            installed,
            working_dir,
        );
        let src = order.last();
        match source_value(src, inactive, installed, working_dir) {
            Some(v) => if before is None || spec_overrides_existing(src) {
                Some(v)
            } else {
                before
            },
            None => before,
        }
    }
}

/// Which value a variable ends up with: the working folder's `.env` beats
/// the installed configuration, which beats the environment as it was; the
/// shipped `inactive.env` fills in only variables still unset, and only
/// when neither other file exists. A file that does not exist sets nothing.
pub proof fn lemma_env_precedence(
    installed_exists: bool,
    cwd_env_exists: bool,
    inactive_exists: bool,
    existing: Option<Seq<char>>,
    inactive: Option<Seq<char>>,
    installed: Option<Seq<char>>,
    working_dir: Option<Seq<char>>,
)
    requires
        !installed_exists ==> installed is None,
        !cwd_env_exists ==> working_dir is None,
        !inactive_exists ==> inactive is None,
    ensures
        value_after_loading(
            existing,
            env_load_order(installed_exists, cwd_env_exists, inactive_exists),
            inactive,
            installed,
            working_dir,
        ) == (if working_dir is Some {
            working_dir
        } else if installed is Some {
            installed
        } else if existing is Some {
            existing
        } else if !installed_exists && !cwd_env_exists {
            inactive
        } else {
            None
        }),
{
    let o = env_load_order(installed_exists, cwd_env_exists, inactive_exists);
    let a: Seq<EnvSource> = if wants_inactive(installed_exists, cwd_env_exists) && inactive_exists {
        seq![EnvSource::Inactive]
    } else {
        Seq::empty()
    };
    let b: Seq<EnvSource> = if installed_exists {
        seq![EnvSource::Installed]
    } else {
        Seq::empty()
    };
    let c: Seq<EnvSource> = if cwd_env_exists {
        seq![EnvSource::WorkingDir]
    } else {
        Seq::empty()
    };
    assert(o == a + b + c);
    let v0 = value_after_loading(existing, a, inactive, installed, working_dir);
    assert(v0 == (if a.len() == 0 {
        existing
    } else {
        match inactive {
            Some(v) => if existing is None {
                Some(v)
            } else {
                existing
            },
            None => existing,
        }
    })) by {
        if a.len() > 0 {
            assert(a.drop_last() =~= Seq::<EnvSource>::empty());
        }
    }
    let ab = a + b;
    let v1 = value_after_loading(existing, ab, inactive, installed, working_dir);
    assert(v1 == (if installed_exists {
        match installed {
            Some(v) => Some(v),
            None => v0,
        }
    } else {
        v0
    })) by {
        if installed_exists {
            assert(ab.drop_last() =~= a);
            assert(ab.last() == EnvSource::Installed);
        } else {
            assert(ab =~= a);
        }
    }
    assert(value_after_loading(existing, o, inactive, installed, working_dir) == (
    if cwd_env_exists {
        match working_dir {
            Some(v) => Some(v),
            None => v1,
        }
    } else {
        v1
    })) by {
        if cwd_env_exists {
            assert(o.drop_last() =~= ab);
            assert(o.last() == EnvSource::WorkingDir);
        } else {
            assert(o =~= ab);
        }
    }
}

/// The working folder's `.env` is loaded last whenever it exists, so its
/// values win; the shipped `inactive.env` is loaded only when neither other
/// file exists, and then alone.
pub proof fn lemma_env_priority(installed_exists: bool, cwd_env_exists: bool, inactive_exists: bool)
    ensures
        cwd_env_exists ==> env_load_order(installed_exists, cwd_env_exists, inactive_exists).last()
            == EnvSource::WorkingDir,
        env_load_order(installed_exists, cwd_env_exists, inactive_exists).contains(
            EnvSource::Inactive,
        ) ==> env_load_order(installed_exists, cwd_env_exists, inactive_exists) == seq![
            EnvSource::Inactive,
        ],
{
    let o = env_load_order(installed_exists, cwd_env_exists, inactive_exists);
    if o.contains(EnvSource::Inactive) {
        let i = choose|i: int| 0 <= i < o.len() && o[i] == EnvSource::Inactive;
        assert(o[i] == EnvSource::Inactive);
        assert(!installed_exists && !cwd_env_exists);
        assert(o =~= seq![EnvSource::Inactive]);
    }
}

pub fn needs_inactive_env(installed_exists: bool, cwd_env_exists: bool) -> (r: bool)
    ensures
        r == wants_inactive(installed_exists, cwd_env_exists),
{
    !installed_exists && !cwd_env_exists
}

/// Which `.env` files `load_env` reads, in order: the shipped
/// `inactive.env` only for a pre-install preview, then the installed
/// configuration, then the working folder's `.env`, each later one
/// overriding the earlier.
pub fn load_env(installed_exists: bool, cwd_env_exists: bool, inactive_exists: bool) -> (r: Vec<
    EnvSource,
>)
    ensures
        r@ == env_load_order(installed_exists, cwd_env_exists, inactive_exists),
{
    let mut r: Vec<EnvSource> = Vec::new();
    if needs_inactive_env(installed_exists, cwd_env_exists) && inactive_exists {
        r.push(EnvSource::Inactive);
    }
    if installed_exists {
        r.push(EnvSource::Installed);
    }
    if cwd_env_exists {
        r.push(EnvSource::WorkingDir);
    }
    assert(r@ =~= env_load_order(installed_exists, cwd_env_exists, inactive_exists));
    r
}

/// How a folder is shown to the user.
#[derive(Debug, Clone, Copy, PartialEq, Eq, Structural)]
pub enum OpenAction {
    /// `explorer <path>`
    Explorer,
    /// `open <path>`
    Open,
    /// `open -R <path>/.env`: reveal the configuration inside an app bundle.
    RevealEnvInBundle,
    /// `open -R <path>`
    RevealBundle,
    /// `xdg-open <path>`
    XdgOpen,
    /// Nothing can be shown (no display, or an unknown platform).
    Nothing,
}

pub open spec fn open_action(
    platform: Platform,
    is_app_bundle: bool,
    bundle_env_exists: bool,
    has_display: bool,
) -> OpenAction {
    match platform {
        Platform::Windows => OpenAction::Explorer,
        Platform::MacOs => if is_app_bundle {
            if bundle_env_exists {
                OpenAction::RevealEnvInBundle
            } else {
                OpenAction::RevealBundle
            }
        } else {
            OpenAction::Open
        },
        Platform::Linux => if has_display {
            OpenAction::XdgOpen
        } else {
            OpenAction::Nothing
        },
        Platform::Other => OpenAction::Nothing,
    }
}

/// The file-manager command for a folder: Explorer on Windows, Finder on
/// macOS (revealing the `.env` inside an app bundle so Finder shows the
/// package contents), `xdg-open` on Linux when a display is available.
pub fn open_dir_in_file_manager(
    platform: Platform,
    is_app_bundle: bool,
    bundle_env_exists: bool,
    has_display: bool,
) -> (r: OpenAction)
    ensures
        r == open_action(platform, is_app_bundle, bundle_env_exists, has_display),
{
    match platform {
        Platform::Windows => OpenAction::Explorer,
        Platform::MacOs => {
            if is_app_bundle {
                if bundle_env_exists {
                    OpenAction::RevealEnvInBundle
                } else {
                    OpenAction::RevealBundle
                }
            } else {
                OpenAction::Open
            }
        },
        Platform::Linux => {
            if has_display {
                OpenAction::XdgOpen
            } else {
                OpenAction::Nothing
            }
        },
        Platform::Other => OpenAction::Nothing,
    }
}

} // verus!
