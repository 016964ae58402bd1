# unnamed

A desktop file search: a server that indexes files and answers searches over
a unix socket, and a window that sends queries, completes them as they are
typed, and lists the results.

The library (`src/`) holds the parts that decide things, each with its
contract and proofs:

- `session`, `server`: the server's search sessions, paged reads of their
  results, and its answers to each call; `protocol` holds the messages.
- `search_result_store`: results in arrival order, shown in a stable sorted
  order (`sort` holds the sort configuration).
- `completion`: reading the query at the cursor, what to complete there, path
  completion (which prefixes get none), batches of completions, and the
  completion popup's state.
- `component`, `app`: the window's search bar, result list (with the text of
  its cards) and status line, key shortcuts and bindings, and the window's
  reactions to the backend.
- `backend`: the decisions of the task that polls a running search.
- `query_highlighter`, `ui`, `cache_debug`, `cli`, `text`: query coloring,
  file types, the cache listings, the command line, and string helpers.

`app/` is the program around it: the egui window, the tokio tasks that talk
to the server, the RPC service, the engine, the file system and the
configuration files.
