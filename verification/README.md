# llm-usage

Usage statistics for Kimi and Codex, and OpenAI API billing costs, as a
command-line tool whose logic is a library verified with Verus.

- `src/` is the library: the tool's logic, as functions with contracts: reading the services' replies (`kimi`, `codex`, `costs`, `json`),
  the stored tokens and configuration (`tokens`, `paths`), the device login
  (`auth`), the text and JSON reports (`display`, `codex`, `costs`), and which
  command runs and how it reports failures (`cli`). Calls into `chrono`,
  `reqwest` and `uuid` stand behind small trusted wrappers whose contracts are
  stated in their doc comments.
- `tests/` runs the library on concrete inputs, including the examples of the
  tool's documentation.
- `app/` is the program: argument parsing, files, HTTP, the terminal, and the
  floating-point measures (percentages, week progress, sums of costs) that the
  library receives as integers.
