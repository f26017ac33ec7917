# ht32_panel

Front-panel display and LED control for mini PCs with an HT32-based LCD
(320x170 RGB565 over USB HID) and an RGB LED strip (serial line).

`src/` is a library verified with Verus:

- `protocol`, `lcd`: the LCD packets (orientation, heartbeat, partial refresh,
  the 27-chunk full redraw) and the panel's software rotation.
- `framebuffer`: the RGB565 framebuffer, colour conversion, hex colours, and
  rendering an RGBA canvas into the framebuffer in each orientation.
- `led`: LED themes and the 5-byte LED packets.
- `orientation`: orientations, their names and dimensions.
- `config`, `state`: the daemon configuration and display state, and the rules
  by which requests change it.
- `faces`: themes, complications, the per-face complication settings and the
  faces that can be selected. The settings (keyed by face, complication and
  option names) are vectors of entries in which a later entry for a name
  wins, seen through a `Map` view; `HashMap`/`HashSet` with `String` keys
  were not used, since Verus establishes little about them.
- `sensors`, `scan`: reading `/proc` and `/sys` text, clock, date and uptime
  texts, and the choice of the displayed address and of the disk.
- `web`, `bus`, `screen`: what the web UI shows, bus choice, PNG screenshots.
- `tray`: the tray applet's menu choices, what choosing one does, and what
  the daemon's answer changes.
- `listing`: the control tool's complication listing, read from the
  daemon's JSON descriptions (serde_json).

`tests/` exercises the library. `app/` is the daemon program around it: the
devices, the sensors' file reading, drawing of the faces (tiny-skia, fontdue),
the D-Bus service, the web server, the `ctl` control tool and the `applet`
tray icon (ksni).
