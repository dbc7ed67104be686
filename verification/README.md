# oray-tools

A command-line tool and a verified library for Oray (Sunlogin) devices: smart
plugs and other wakeup hardware, remote computers, and the account that they
belong to.

The library in `src/` holds everything that decides or computes: how requests
are built and answers judged, how tokens are kept fresh, how timer schedules
move between timezones, how a status log is searched page by page, how the
captcha page is served, what is asked at the terminal, and what is printed. Its
contracts are stated in `requires` and `ensures` clauses and proved by Verus.

- `src/text.rs`, `src/json.rs`, `src/url.rs`: text, JSON trees and query strings
- `src/error.rs`, `src/trace.rs`, `src/output.rs`: errors, captured exchanges
  with their masking, and what is shown of them
- `src/auth.rs`, `src/token.rs`, `src/auth_cmd.rs`, `src/mobile.rs`,
  `src/captcha.rs`: logging in and staying logged in
- `src/plug.rs`, `src/plug_cmd.rs`, `src/plug_call.rs`, `src/plug_report.rs`,
  `src/schedule.rs`, `src/single.rs`: smart plugs and their timers
- `src/logs.rs`, `src/logs_cmd.rs`, `src/times.rs`: status logs, time windows
  and timezones
- `src/wakeup.rs`, `src/wakeup_cmd.rs`, `src/remote.rs`, `src/remote_cmd.rs`:
  device lists, details and renaming
- `src/config.rs`, `src/prompt.rs`: the saved configuration and the questions
  that fill in missing arguments

`app/` is the program around it: the command line, HTTP, the configuration
file, the terminal, the loopback server and the JSON forms of the service's
answers. `tests/` runs the library with the crates that it calls.
