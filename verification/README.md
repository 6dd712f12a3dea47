# theater_control

Backend logic of the Theater control panel, a Tauri desktop dashboard for live streamers.

- `src/` is the library, written in Verus and proved:
  - `loopback` — reading the request target from the OAuth loopback request, the listener's address and answer;
  - `launch` — the browser command per platform, process creation flags, what a finished command reports;
  - `labels` — fixed window and event names, labels of automation webviews (proved distinct);
  - `automation` — the state machine that drives a hidden automation webview (open, wait, script, wait, close);
  - `registry` — the child webviews that follow the main window, with their recorded bounds;
  - `native_window` — Win32 style bits, show commands and positioning flags of child and automation webviews;
  - `window_policy` — OAuth navigation, service login, window lock, child options, base directory, crash reports;
  - `webview_lock` — the lock that runs hidden automation webviews one at a time;
  - `text` — decimal rendering, white space, building strings.
- `app/` is the Tauri application around it: the commands, file, process, network and window work.
- `tests/` exercise the library on concrete values.
