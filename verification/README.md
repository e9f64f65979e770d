# fae_agent

The logic of an AI-agent backend, verified with Verus: conversation memory, agent
context and prompts, provider resolution, the tools an agent may call and the checks that
confine them to the allowed folders, the reading of streamed model replies, and the
decisions of a streamed agent chat.

- `src/` is the verified library. Each module states its contracts over plain models
  (`Seq`, `Map`, views of the data types); the laws that span several functions are public
  proof functions beside the code they are about.
- `tests/` runs the library on concrete values.
- `app/` is the HTTP service around the library: axum routes, SQLite storage, HTTP calls
  to the model APIs, processes and files for the tools, and the JSON forms of the
  library's types.
