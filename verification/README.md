# webshield

Command-line client for the WebShield `/api/v1` API: domains, DNS records,
proxied hosts, static sites, billing and statistics.

The crate is in two parts.

- `src/` is the library, verified with Verus. It holds what the client decides:
  record-name and record-value normalization, the plans of `dns add/set/remove`,
  the incremental publish of a static site (which files to upload and delete, in
  which batches), profile and settings resolution, the readable text of API
  errors, request paths, response tables and all localized messages. Its laws
  (for instance: carrying out a publish plan leaves the draft equal to the local
  directory; `dns set` leaves exactly the given values) are proof functions next
  to the code they are about.
- `app/` is the program around it: argument parsing, the configuration file,
  HTTP, the file system, progress bars and terminal output.

Layout of `src/`:

| module            | contents                                                   |
|-------------------|------------------------------------------------------------|
| `text`            | character-level string operations and their specs          |
| `i18n`            | messages in English and Russian (same placeholders in both), language resolution |
| `config`, `util`  | profiles, active profile, client settings, confirmations   |
| `api`             | endpoint paths, models, tables, error text, URL building   |
| `commands`        | the decisions of each subcommand group                     |

`tests/` runs the library on concrete values.
