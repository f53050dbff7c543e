# ark_cli

A command-line client for the Volcengine Ark Agent/Coding Plan endpoints, with its
decision logic verified in Verus.

- `src/` is the verified library: the model catalog and model validation, configuration
  merging, endpoint URLs and query strings, request bodies, authentication headers, and
  the command flow (`run`, `resume`, `response_outcome`), which tells the caller what to
  read, print or send next.
- `app/main.rs` is the program around it: argument parsing with clap, configuration files
  (TOML or JSON), standard input and files, JSON text, printing, and HTTP with reqwest.
- `tests/` exercises the library on concrete values.

Auto mode is rejected: use a concrete model or resource id listed by `ark-cli list`.
