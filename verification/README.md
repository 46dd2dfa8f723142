# hupdater

The decision logic of HUpdater, a Windows tool that keeps the Helium browser
up to date, as a Verus-verified library, with the Windows program around it.

- `src/` — the verified library: text handling (`text`, `render`), version
  labels and their ordering (`version`), what `winget` reports (`winget`), what
  the uninstall registry says (`install`), Helium's AppUserModelID (`appid`),
  GitHub release decisions (`release`), the event queue (`events`), the window
  state and controls (`ui_state`, `callbacks`), the reported status and task
  outcomes (`status`, `outcome`), settings (`config`), window geometry and theme
  (`layout`, `theme`), the Helium shortcuts and the steps of intercepting
  them (`shortcut`, `interception`) and composed texts (`messages`).
- `app/` — the Windows program: registry, processes, HTTP, shortcuts and the
  Win32 window. On other systems it only reports that it runs on Windows.
- `tests/` — tests of the library.
