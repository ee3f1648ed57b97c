# rdpmib

The logic of a Microsoft identity broker for remote desktop sign-in, verified
with Verus.

- `src/authcode.rs`: the state machine of the sign-in window (one request at
  a time; login site, then the requested URL, then the page whose query
  carries `code` or `err`), with its laws.
- `src/broker.rs`: the broker's D-Bus methods: the authorization URL, the
  token request, and the JSON replies.
- `src/text.rs`: joining, decimal numerals and JSON values.
- `src/outside.rs`: the trusted calls into `url`, `serde_json` and `base64`.
- `app/`: the program around the library: the tao/wry window and its event
  loop, the D-Bus service, and the HTTP exchange with the token endpoint.
