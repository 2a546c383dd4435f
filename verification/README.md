# s3h

Shell sharing with human approval. A server runs an interactive shell for a
remote user; every command the user types is put to an approver (through a
messaging bot) before it reaches the shell, unless the approver allowed that
exact command once and for all.

- `src/` is the verified library: the server's session state machine
  (`server`), the approval message and answer (`approval`, `json`), output
  clean-up and MarkdownV2 escaping for monitored sessions (`ansi`,
  `markdown`), variable names (`keys`), echo suppression (`echo`) and the
  clients' bookkeeping (`client`). Calls into std and outside crates are
  gathered in `outside` with their contracts.
- `app/` holds the programs: the protocol operator and the clients, which do
  the network, terminal and process work and ask the library what to do.
- `tests/` exercise the library on concrete values.
