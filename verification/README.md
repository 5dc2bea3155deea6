# volta

The decisions of a Node.js toolchain manager, verified with Verus:

- `src/command.rs` — finding an executable on `PATH` or in given directories
  and describing the command that runs it;
- `src/archive.rs` — archive origins, archive errors, and the length an HTTP
  response announces in `Content-Length`;
- `src/manifest.rs` — the toolchain a `package.json` asks for;
- `src/package.rs` — fetching a package: checksum of the cached archive,
  `npm pack`, unpacking into the image directory, as a step machine;
- `src/migrate.rs` — migrating a Volta home to the V1 layout, as a plan of
  steps carried out one at a time;
- `src/text.rs`, `src/listing.rs`, `src/error.rs` — shared pieces.

`app/` carries out what the library asks for: it reads files, runs
processes and parses JSON, and passes on the platform that
`command::host_platform` reads from the path separator: a command confined
to given directories runs the bare name on Unix and the path found on
Windows, and a V0 install is cleaned up on Unix only.

Paths and names are handled as UTF-8 text. The search wrappers state what
the `which` crate does where paths use `/`; on Windows they state nothing
of the path found.
