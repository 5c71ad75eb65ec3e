# kuren

Command-line client for the Kuren agent platform (identity, email,
messaging, payments), with its core formally verified.

- `src/` — the verified library:
  - `config` — the configuration, its location under the home directory,
    the server URL and the session tokens;
  - `grpc` — the session decisions made before each server call (send the
    kept access token, refresh it, or ask for a login) and how a refresh
    outcome changes the configuration;
  - `keys` — the Ed25519 identity (secret key, public key, signatures, key
    files), with the cryptography delegated to `ed25519-dalek`;
  - `commands/` — what each command decides and shows: handle validation,
    notification filters and event lines, message targets, email, notes,
    organization, payment and wallet views;
  - `text` — character-level string helpers with their specifications.
- `tests/` — tests of the library on concrete values.
- `app/` — the program. It runs the local commands (`auth logout`, the
  `docs` guides, `update`), reads and writes the configuration and key files,
  and holds the server connection and authorization header. The commands that
  call the server need the service clients generated from the protocol
  definitions (`proto/kuren/*.proto`), which are not part of these sources,
  so the program does not offer them.
