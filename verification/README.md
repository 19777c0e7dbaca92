# PixelVault Desktop

The verified core of a menubar app: copy an image, and a hosted URL replaces it
on your clipboard.

- `src/` is the library, written in Verus. Every decision of the app stands here
  with its contract: the free trial, the recent list, the upload request and its
  replies, sign-in, the clipboard watcher, the hotkey capture and the tray menu.
  Where a decision needs something done outside, it hands back a list of effects.
- `app/` is the shell: clipboard (`arboard`), keychain (`keyring`), network
  (`reqwest`), files, and tray and windows (`tauri`).
- `tests/` run the library on concrete values.

| Module | What it holds |
| --- | --- |
| `state` | trial counter, recent uploads, preferences, the snapshot on disk |
| `upload` | PNG encoding (by the `image` crate), request fields, reply statuses |
| `auth` | session, keychain changes, sign-in requests and replies |
| `watcher` | which clipboard image to act on |
| `capture` | what to do with a screenshot |
| `desktop` | app state, the upload pipeline, labels and settings |
| `tray` | menu layout and clicks |
| `config`, `text` | API base; decimal numbers, trimming, cutting |

Signed links of private uploads are kept in memory only: they are not written to
disk, not shown in notifications, and forgotten when the session ends.
