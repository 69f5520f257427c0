# kawaiifi

A library for Wi-Fi scan data, verified with Verus: frequency bands and channel widths, the
information elements of beacon and probe response frames (parsed from their bytes and rendered
as displayable fields), and basic service sets as scans report them.

- `src/` is the verified library. Element parsers state exactly which bytes they accept and
  what they read from them; the displayable fields and summaries are stated as text over the
  parsed values; a BSS's channel width, center frequency, channel number and SSID are stated
  over its list of elements.
- `app/` holds what stands around the library: reading nl80211 scan results from netlink
  messages and the boot clock, converting times to `chrono` values, and the data rates, which
  are computed in floating point.
- `tests/` runs the library on concrete frames.
