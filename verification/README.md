# metadata_cleaner

A desktop tool that scans folders for files that can carry metadata (EXIF,
XMP, IPTC, GPS, ...), strips it with ExifTool, keeps a history of scans in
SQLite, and exports reports as JSON or CSV.

## Layout

- `src/` — the verified library (Verus):
  - `models` — scans, files, statuses, preferences, and their views;
  - `codec` — the stored JSON text of statuses, with its round trip;
  - `db` — the rows of the database and how records become rows and back;
  - `scanner` — which files a scan reports, and the walk as a state machine;
  - `cleaner` — the cleaning worker as a state machine: copy, strip and
    report each file in turn, then the final report;
  - `exiftool` — ExifTool command lines and outcomes;
  - `export` — report names and formats;
  - `messages`, `app`, `transitions` — the interface's messages, its state
    machine, and what each message does;
  - `display` — labels, counts and which controls are live;
  - `platform` — WSL detection;
  - `text`, `clock` — text helpers, decimal rendering, and the calls into
    `std`, `serde_json`, `chrono` and `uuid` the library relies on.
- `app/` — the program: the iced interface, SQLite through rusqlite, the
  directory walk (walkdir) and ExifTool processes, run on tokio; it carries
  out the effects that the library's state machine asks for.
- `tests/` — tests of the library.
