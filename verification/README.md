# microscope

The control software of a motorised microscope, as a verified library.

- `src/` holds the logic, each function with its contract and proof:
  the text protocol between host and controller board (`command`, `text`),
  the framing of the serial link (`packet`, `uart`), the Z stage motor
  controller of the firmware (`stage`), the operator console (`console`),
  z-scans (`zscan`), the backend's routes, log, camera parameters, frames
  and assets (`routes`, `logs`, `camera`, `frames`, `backend`), and the
  compute node's filters, GPU read-back, focus stacking form, progress and
  message handling (`filters`, `gpu`, `focus`, `progress`, `node`).
- `tests/` exercises the library on concrete values.
- `app/` is the host tool around it: the serial driver, the postcard wire
  format on serde copies of the message types, z-scan storage, and the
  command line.
