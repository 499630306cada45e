# hilaw

A small web service for developing camera RAW photos and browsing the
media of a salita file-sharing mesh. The crate is split in two:

- `src/` is the verified library (Verus): recognising RAW and other file
  formats by name (`paths`, `formats`), the acceptance and naming rules of
  the image store and the newest-first listing order (`storage`), merging
  of edit parameters (`models`), device addressing on the mesh
  (`salita_client`), paging of directory listings (`browse`), media
  serving decisions (`media`), and the image codec boundary (`pipeline`),
  where the `image` and `mime_guess` crates are called behind stated
  contracts.
- `app/` is the HTTP service around it: axum routes, file-system and
  network I/O, JSON forms of the records, and RAW development with
  imagepipe (floating point).

`tests/` exercises the library on concrete values, including cross-checks
against `std::path::Path`.
