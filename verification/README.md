# warp_helm

The client side of the Helm launch flow, as a library verified with Verus.

A tab that is opened from a `helm-warp://connect` URL is bound to one remote endpoint. The
library decides everything about that tab that can go wrong quietly: which endpoint it is
bound to and that this never changes, when its token may be rotated and when it may send,
which tools a request may offer to the model, and what it may tell about the local machine.

## Layout

| module | what it holds |
| --- | --- |
| `helm_tab_binding` | the binding of a tab: freezing, rebinding, token refresh |
| `helm_warp` | launch URL, exchange of its code, refresh loop |
| `helm_launch` | routing target from the launch config and the environment |
| `agent_request` | tools that fit a session, construction of requests |
| `agent_context` | context of a request, without the local machine where it is remote |
| `multi_agent` | requests, messages and events of the multi-agent protocol |
| `openrouter`, `openrouter_stream` | the OpenRouter adapter, there and back |
| `multi_agent_mock` | a stand-in for the multi-agent endpoint |
| `channel`, `urls`, `auth`, `slash_commands`, `http_status`, `text` | smaller parts |
| `outside` | calls into other crates, with contracts that are believed |

Each public function states exactly what it returns or changes. Properties that span
several functions are public proof functions whose names start with `law_`.

`src/` is the verified library and `tests/` its tests. `app/` is ordinary Rust around it:
environment and files, HTTP, JSON, the async runtime and the mock server.

## What is trusted

The contracts in `outside` and two on std's strings in `text` are not proved. They concern
`url`, `serde_json`, `http`, `uuid`, `prost-types`, `base64` and std.
