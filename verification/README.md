# keel

keel is an MTP (Media Transfer Protocol) engine for talking to phones and
cameras over USB, written in Verus: the protocol logic is executable Rust whose
behaviour is stated in `requires` / `ensures` contracts and proved.

## Layout

- `src/` — the verified library.
  - `codec`, `utf16`, `ptp_string`, `datetime`, `decimal`: the wire encodings
    (little-endian integers, counted arrays, PTP strings, dates), each with a
    spec of its bytes and round-trip laws.
  - `consts`, `container`, `datasets`: protocol constants, the 12-byte container
    header, and the datasets (`DeviceInfo`, `StorageInfo`, `ObjectInfo`,
    property descriptions and values).
  - `mtp`: the session engine. `MtpSession` runs transactions over a
    `Transport`; its view records every command, bulk transfer and reset, so
    the contracts say what goes on the wire, what comes back, and how the
    session recovery ladder in `configure` unfolds.
  - `usb`, `pipes`, `probe`, `probe_args`, `conformance`, `json_tree`,
    `json_diff`, `text_order`, `ffi`, `probe_ffi`: device discovery logic, the
    command-line probe's parsing and reports, and the C-ABI error and JSON
    mapping.
- `tests/` — ordinary Rust tests run against the compiled library, including a
  scripted fake transport.
- `app/` — the unverified shell: the USB transport over `nusb`, file and
  process I/O, the dynamically loaded C ABI, and `main`.
