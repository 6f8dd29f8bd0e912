# imgscrpr

The decision logic of an image scraper, verified with Verus: reading the
command-line options, deciding which URLs are scraped and from which image
host, building imgur API requests, reading gfycat pages, choosing the save
directory, and naming each image's file so that it is valid and not yet
taken.

- `src/` is the verified library. Calls into `regex`, `url`, `scraper` and
  `serde_json` stand behind small trusted wrappers whose contracts name
  their results.
- `tests/` holds the tests.
- `app/` is the command-line program: argument parsing with `clap`, HTTP
  with `reqwest`, and the filesystem.
