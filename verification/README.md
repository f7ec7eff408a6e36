# zvec

A Rust client for the zvec vector database, in two parts.

- `src/` is the verified library, checked with Verus. It holds the rules of
  the client: the codes of the data, index, metric, quantize, log-level and
  document-operator enums and their round trips; the error codes, the error
  messages and the conversion of C status codes; the checks that strings and
  arguments pass before they reach the C interface; the configuration builder
  and the order of the calls that initializing the library makes; the search
  query and collection schema builders; the reading of stored vector sizes and
  of fetched documents; and the runtime search paths and messages of the build
  helper. Every public function states what it returns in its contract, and
  the laws that span several calls are proof functions beside them.
- `app/` holds the handles of the C interface (`libzvec_c_api`): collections,
  documents, schemas, queries and the library lifecycle. They call the C
  functions and apply the verified rules of `src/` before, between and after
  those calls.

`tests/` runs the library on concrete values.
