# PhantomFTP

A terminal FTP/FTPS client. The crate `phantomftp` (in `src/`) is its core,
written in Verus and proved against its contracts; the program around it
(in `app/`) draws the terminal interface with ratatui, talks to servers with
suppaftp on tokio, and reads and writes files.

## Library modules

- `app` — the client state and its state machine: every key press and every
  result of FTP work (`AppEvent`) updates the state and may ask for one piece
  of outside work (`Action`), which the program performs and reports back.
  The transition function is stated as the spec function `after_event`.
- `dialog` — the connection dialog (server, user name, password, protocol).
- `ftp` — remote entries, the Unix and DOS directory-listing parsers, the
  stable listing order (directories first, then by lowercase name), dial
  addresses, and the FTP session state (`FtpManager`).
- `config` — saved servers, theme and settings, with their defaults.
- `import` — import of FTP/FTPS profiles from AeroFTP exports.
- `view` — what the screen shows: status bar, panel rows and titles, the
  dialog's lines, popup areas.
- `transfer` — the retry policy of transfers, the steps of the loop that
  streams a file, and the text preview.
- `order` — stable ordering by a (rank, name) key.
- `text` — whitespace words, decimal numbers, path names, joins.

## Program

`app/main.rs` parses the command line, runs the event loop and converts
crossterm keys; `app/runtime.rs` performs the library's actions;
`app/ftp_ops.rs` holds the suppaftp calls; `app/files.rs` the JSON files and
local directory reads; `app/ui.rs` draws what `view` decides.
