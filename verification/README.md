# tripo3d_sdk

A client core for the Tripo3D v3 REST API (text-to-3D, image-to-3D,
multiview-to-3D, texturing, mesh editing, rigging and animation
retargeting), written in Verus.

- `src/` is the verified library: the endpoints' argument checks and paths
  (`requests`), option resolution, task polling and model file naming
  (`client`), the retry policy, back-off, request URLs, error messages and
  response-envelope reading (`http`), the data models and request parameters
  (`models`, `params`), the error type (`error`), the API's constants
  (`constants`) and the string helpers they rest on (`text`). Each public
  function states its result in its contract; the properties that span calls
  (billed requests are never replayed once the server may have seen them,
  retries stay within budget, percent-encoding is reversible, a settled task
  ends a wait, ...) are proof functions beside the code they speak of.
- `app/` is the asynchronous `reqwest`/`tokio` client around it: it sends,
  sleeps and (de)serialises JSON, and asks the library for every decision.
- `tests/` exercises the library on concrete values.
