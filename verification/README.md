# DbGate backend

The backend of the DbGate database manager: what it asks a database server, what
it makes of the answers, and how it answers the frontend. The logic is a library
verified with Verus; a thin shell around it holds the files, the clock and the
database clients.

## Layout

- `src/` is the verified library.
  - `text`, `numbers`, `value`, `rows`, `encoding`, `datetime`, `keyed`: texts,
    numbers, JSON values, rows of JSON, encodings, dates and keyed maps.
  - `connection`, `dbinfo`, `driver`, `query`, `error`, `events`: the data model.
  - `query_splitter`, `script`: scripts taken apart into statements, and run in a
    transaction window.
  - `drivers/`: for each engine its connection settings, the mapping of its cells
    to JSON, its catalogue queries, and the structure of a database from their
    rows. The `*_queries` modules hold the query texts.
  - `registry`, `engines`: drivers under their engine ids.
  - `routes/`: requests and answers of the frontend, saved connections, settings,
    sessions, native backup, generated plugin scripts.
  - `jsl`: result sets kept for paging.
  - `security`, `ssh_tunnel`: secrets that a credential store keeps in place of the
    connection file, and what a tunnel is opened with.
- `tests/` runs the library, on SQLite databases in memory where SQL is needed.
- `app/` is the shell: clients, files, processes, state and commands.

## Contracts

Each type with contents has a view (`@` or `deep_view()`), and contracts are
stated over views with spec functions such as `statements`, `table_of` or
`module_of`. Properties that span several functions are public proof functions
whose names start with `law_`.

What other crates compute is called through small trusted functions: base64, UUID
and UTF-8 texts, upper and lower case and JSON string literals in `encoding`,
dates and times in `datetime`, the Oracle version text in `drivers::oracle`. A
result that takes pages to describe has a name, such as `base64_text`, over which
the contracts of its callers are exact.
