# openai_api_rs

A client of the OpenAI API whose decisions are proved with Verus.

- `src/` — the library. `client` and `endpoints` build the request of every
  operation (`http::ApiRequest`); `http::check_response` decides on an
  answer; `stream` reads the events of a streamed chat completion; `audio`
  converts PCM16 samples to and from base64; `realtime` holds the handshake
  and the per-message and per-event decisions of a realtime session; `text`
  renders integers and compares strings.
- `app/` — the transport: environment, `minreq`/`reqwest` HTTP calls,
  server-sent events, the WebSocket session, and the JSON forms of the types.
- `tests/` — tests of the library on concrete values.
