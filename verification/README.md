# ai_tools_lib_rust

Helpers for applications built on language models: token counting, prompt
templates (an embedded template tree and PromptLayer), the Gemini and OpenAI
adapters, choosing the best of a few labelled items with a model, and JSON
serialization gated by `SkipJsonSchema` rules.

The library in `src/` is written in Verus: every function carries a
contract that the verifier proves, and the properties that span several
functions are proved as lemmas next to the code they speak of.

- `src/json.rs`, `src/json_text.rs`, `src/keyed.rs`, `src/text.rs`,
  `src/sorting.rs`: JSON values and their compact text, keyed entry lists,
  text and sorting, with their mathematical models.
- `src/llms/`: messages and tools, token counts, the Gemini request and
  response handling (including the decisions of a chat with tool calls), and
  the OpenAI adapter.
- `src/prompt_manager/`: the template catalogue, typed template variables and
  rendering, and PromptLayer templates.
- `src/template_scan.rs`: what a Jinja template's text shows about how
  `tera` treats it (calls of its clock, random and environment functions;
  a verified scan of the code inside its tags for forms on which `tera` can
  panic or never return, such as self-calling macros, includes and risky
  arithmetic). Templates with such forms are not rendered.
- `src/selection_utils.rs`: the checks and decisions of item selection.
- `src/utils/pydantic_helper.rs`: exclusion rules and gated serialization.
- `src/bindings.rs`: the calls into `tera`, `regex`, `serde_json`, `uuid` and
  std whose contracts are trusted.

`app/` holds what talks to the outside world: the HTTP clients, environment
variables, the asynchronous selection flow, serde forms of the data types and
the floating-point parts. `tests/` exercises the library.
