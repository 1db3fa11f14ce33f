# MonsGeek profile switcher

Switches a MonsGeek keyboard between its on-board profiles: once when the
keyboard is plugged in (`ON_CONNECT_PROFILE`), and on Windows each time a
user-chosen hotkey is pressed (between `PROFILE_CHAT` and `PROFILE_GAME`).
A resident daemon publishes what it has the keyboard on at a loopback status
port, which the console status and the status window read.

## Layout

- `src/` — the verified library (Verus). The program's decisions live here
  with their contracts:
  - `hid` — the vendor feature reports (layout, checksum, profile numbering),
    reading a GET_PROFILE response, choosing the vendor-config interface,
    and the `--list-hid` listing.
  - `daemon` — the status endpoint's JSON and HTTP response, when a profile
    must be sent and when a failure is reported, how connects, disconnects
    and hotkey presses change the daemon's view, and send retries.
  - `status` — reading the endpoint's answer back, and the one-line
    description of it.
  - `config` — settings from the environment, the configuration folder on
    each platform, which `.env` files load in which order and which of them
    override variables already set, where an
    `inactive.env` is looked for, and how a folder is opened.
  - `hotkey` — parsing `PROFILE_TOGGLE_HOTKEY` into Win32 modifiers and a
    virtual-key code.
  - `events` — which messages the Windows event loop acts on.
  - `overlay` — the text and placement of the on-screen notification.
  - `gui` — the status window's cells, buttons and feedback line.
  - `cli` — the command line, the `--stress` schedule, and the status report.
  - `utils` — console decisions (double-click detection, standard handles).
  - `text` — character-level helpers shared by the parsers.
- `app/` — the program around the library: HID I/O through hidapi, TCP,
  environment and files, `.env` loading through dotenvy, the egui window, and
  the Win32 and macOS system calls.
- `tests/` — tests of the library on concrete values.
