# astrid_sdk

The capsule SDK of Astrid OS, with its logic verified by Verus.

A capsule reaches every kernel service through a host call. The library in
`src/` holds what the SDK decides and computes around those calls: request
builders (HTTP, processes, compute groups, prompts, approvals), the wire
formats (versioned KV envelopes, `HostResult` replies, hook replies,
request/response correlation), input validation (socket paths, addresses,
timeouts, prompt keys, poll sets) and the interpretation of host answers.
It also plans what the SDK's macros generate: the dispatch of a `#[capsule]`
impl block and the Rust items of WIT contract types. Each public function
states its behaviour in `requires`/`ensures`; `pub proof fn law_*` items
state properties that relate several functions.

`app/` is the ordinary Rust around the library: the host interface as a
trait, the functions that make the host calls, serde forms of the library's
types, the error type with its `Display`, and the rendering of generated
source text. `tests/` exercises the library on concrete values.
