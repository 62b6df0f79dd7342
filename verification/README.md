# keetanetwork-anchor-client

The asset-movement core of an anchor client, written and proved in Verus: what an anchor's HTTP
response means, which blockers it reports, how failures are coded, and how JSON arguments become
requests and results become answers.

| module | what it holds |
| --- | --- |
| `envelope`, `transport` | an HTTP response, classified as ready, to be retried, or failed |
| `blocker` | typed blockers and account statuses, and their JSON |
| `error`, `source` | failures, with their codes and messages |
| `coded` | failures and payloads as they leave the library |
| `provider`, `table` | providers, their documents, and filters over them |
| `request` | request documents and the requests they give |
| `session` | what a call on a stored client comes to |
| `dispatch` | an operation, step by step from its arguments to its answer |
| `json`, `value`, `text` | JSON documents and text as plain values |

`value` and `source` hold what is trusted: the declared types of `serde_json`, `reqwest`, `base64`
and `url`, and the calls into `serde_json`. `app/` is ordinary Rust around the library: serde
derives, the client trait, and the WASI exports.
