# axum_tonic

Serving tonic gRPC services from an axum router, with the decisions made in a
library that Verus verifies.

- `src/` — the verified library:
  - `proto.rs`: the messages of the `company_info.CompanyInfo` service, the
    routing of a request path to a method, and the headers of the answer to a
    path that names no method;
  - `comp_info.rs`: the answers of the company-info service;
  - `nest.rs`: the route under which a named gRPC service is placed in a
    router, and the proof that it receives every method of the service;
  - `headers.rs`: header maps and extensions held in the `http` crate's
    collections, and the merge of a converted response head into a gRPC one;
  - `status.rs`: the status wrapper for middleware errors.
- `app/` — the program: the tonic server and service impls, the axum router
  traits, the futures that convert responses, and `main`.
- `tests/` — tests of the library on concrete values.
