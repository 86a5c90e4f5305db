# llrt_fetch

The decisions behind the `fetch` global of the LLRT JavaScript runtime,
verified with Verus:

- `src/uri.rs`: URIs as the `http` crate parses them, and when two share an origin.
- `src/method.rs`: the methods that fetch sends, and when a redirect turns a request into `GET`.
- `src/headers.rs`: the header names that redirects drop.
- `src/request.rs`: what each request carries (method, headers, body), and its assembly as a `hyper` request.
- `src/redirect.rs`: the state machine that follows redirect responses, and the bound on its requests.
- `src/options.rs`: how the arguments of `fetch` are read and completed.
- `src/error.rs`: the failures, with the message and JavaScript error class of each.

`app/` holds the part that runs inside the runtime: it reads the JavaScript
arguments, sends the requests with the runtime's HTTP client, and follows the
decisions of the library.
