# fuji-ptp-core

Reads and writes the custom recipes (C1-C7) of Fujifilm cameras over PTP, with the
protocol logic verified by Verus.

## Layout

- `src/transport/`: the `Transport` trait (the link to the camera, implemented per
  platform), a scripted `MockTransport`, the framing of a container that arrives in
  chunks, and the choice of the USB interface and bulk endpoints.
- `src/ptp/session.rs`: PTP containers and transactions (`PtpSession`). Each transaction is
  specified by what it sends, what it receives and what it records in a ghost history.
- `src/ptp/fuji.rs`: the Fujifilm layer (`FujiPtp`): slot selection, reading the seven
  recipes, writing recipes, settings or names. Writes are described by plans
  (`src/ptp/plan.rs`) of property writes.
- `src/ptp/wire.rs`, `name.rs`, `text.rs`, `bytes.rs`: the codes of each setting, PTP
  strings, error messages and little-endian words.
- `src/ptp/laws.rs`, `readback.rs`, `footprint.rs`: properties across functions, such as
  reading back what was written, and which properties each kind of write can touch.
- `src/recipe/`: the recipe model. Dial values are held in tenths of a step, as the camera
  stores them.
- `src/bridge.rs`, `src/client.rs`: the logic of the Android bridge and of the desktop
  client.
- `app/`: the desktop client (libusb) and the JNI bridge for Android, which do the I/O
  and call the library.
