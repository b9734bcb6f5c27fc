# wallout

An HTTP proxy server: it tunnels `CONNECT` requests (directly or through an
upstream proxy), forwards plain HTTP requests to rewritten targets, and asks
clients that are not white-listed for `Basic` credentials.

- `src/` is the verified library (Verus): the configuration model, the
  hop-by-hop header rules, request and response rewriting, the authorization
  decisions, the `CONNECT` exchange with an upstream proxy, and the TLS
  configuration rules. Its contracts are stated over `Seq`-based models of
  header maps and URIs.
- `app/` runs it: configuration loading, listeners, TLS handshakes and the
  network side of tunnelling and forwarding (tokio and hyper).
- `tests/` exercises the library on concrete values.
