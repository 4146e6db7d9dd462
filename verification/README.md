# dsh_desktop

A Windows desktop launcher for the DeepSeek Harness web UI: it checks that
Node.js, npm and dsh are installed, frees TCP port 3080, updates dsh when a
newer release exists, starts `dsh web`, waits until it answers and shows it in
a web view with a tray icon.

- `src/` is the verified library (Verus). Its modules:
  - `text`: character-level helpers (trim, split, whitespace words, ASCII
    case, decimal numbers) with their specifications.
  - `env_check`: the environment checks, from what the commands printed.
  - `dsh_process`: Windows paths of the dsh entry script, launch command and
    flags, and the early-exit report.
  - `process`: what to do after each look at a child run with a time limit.
  - `bootstrap`: the start-up sequence as a state machine, cancellation and
    the run bookkeeping, with laws on termination, cancellation and order.
  - `checker`: netstat listeners and the steps that close them, HTTP
    readiness, local URLs and the session cookie.
  - `splash`: the splash page, the navigation bar and the scripts that carry
    messages to the page (with a proof that string literals round-trip).
  - `desktop`: tray, menu, window, settings, IPC, authentication retries and
    window centring and the window icon (decoded with the `image` crate).
- `tests/` runs the library on concrete values.
- `app/` is the program: processes, sockets, files, threads, the `tao`
  window, `wry` web views and the `tray-icon` tray, driving the library.
