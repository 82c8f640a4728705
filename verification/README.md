# qingjian_windows

The decision logic of the Qingjian input method for Windows, written in Verus and proved
against its contracts.

- `src/` is the verified library:
  - `voice/`: the voice-input coordinator (one state machine for the key session, the worker's
    state and the reliable delivery of the final transcript), the link to the worker process and
    the worker's configuration, the hotwords kept by the transcript polisher, and the laws the
    coordinator keeps.
  - `dispatch/`: the router's bookkeeping for the floating status bar, the candidate window and
    the voice panel that shares it, configuration reload, and their laws.
  - `tsf/`: the text service inside applications: which keys it takes, what it does with the
    server's answer, the voice shortcut, key latency statistics, and where the server is started
    from.
  - `instance.rs`, `security.rs`: the single-instance rules and the build identity, and the
    security descriptors of the server's objects.
  - `ui.rs`, `ui/row.rs`, `settings.rs`: what the voice panel and a candidate row show, and the
    settings window's choices (microphones, drop-downs, when edits are written back).
  - `protocol.rs`, `text.rs`, `tsv.rs`, `paths.rs`: shared values, text and number formatting,
    tab-separated dictionary files, and paths.
- `tests/` runs the library on concrete values.
- `app/` reads and writes files and the clock and hands plain values to the library.
