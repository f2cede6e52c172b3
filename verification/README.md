# DisplayMux

DisplayMux switches one shared display between several Windows and Mac computers over DDC/CI. It
controls the display that the user chose and no other: a switch is sent only where exactly one
connected display has the complete EDID fingerprint of the shared display, serial number included.

- `src/` is the library: what DisplayMux decides and computes, with contracts proved by Verus.
- `app/` is the desktop application around it: the Tauri shell, DDC/CI through Win32 and
  `ddc-macos`, the settings file and the network.
- `tests/` are tests of the library.

| Module | What it holds |
| --- | --- |
| `domain`, `error`, `port` | displays, inputs and hosts; errors and their texts; what is asked of the outside |
| `service`, `guard`, `platform` | switching the shared display, and no other |
| `edid`, `macos`, `windows` | the identity and resolution of displays as the operating systems report them |
| `selection`, `dashboard` | which display is shared, and what the main window shows of it |
| `settings`, `stored`, `inputs` | settings, paired hosts, assigned inputs; file formats |
| `preparation`, `switching` | waking a paired host, switching to it, and falling back to it |
| `agent`, `discovery`, `network` | requests of other hosts, pairing, Wake-on-LAN |
| `locale`, `messages`, `startup`, `update` | languages, message catalogs, login item and tray, updates |
| `text`, `json` | text operations, and the JSON documents that are read |

What is trusted rather than proved: in `text` the contracts of `char::from_u32` and `String::push`,
and in `json` those of the three `serde_json` calls. A controller of displays and a source of
announcements are traits of which nothing is taken for granted.
