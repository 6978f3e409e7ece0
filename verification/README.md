# hyper_proxy

Which connections of an HTTP client go through a proxy, and how: a library of rules,
verified with Verus, and the hyper service that acts on them.

- `src/` is the verified library. `intercept.rs` decides which connections a proxy is
  for, `proxy.rs` and `headers.rs` hold what a proxy is sent, `uri.rs` says where a proxied
  connection goes, `connector.rs` chooses the proxy, `route.rs` plans the connection,
  `tls.rs` finds what secures a tunnel, and `laws.rs` states what holds of all of it.
- `tests/` runs the library on concrete values.
- `app/` connects the library with hyper, tokio and the two TLS crates.

What the library takes from the `http`, `typed_headers`, `webpki` and TLS crates stands
behind small functions whose doc comments say what is believed of them.
