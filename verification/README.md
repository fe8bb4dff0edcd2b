# rest_latency

Measures the latency of HTTP routes at a fixed interval and serves it as Prometheus metrics.
Requests can carry a fixed bearer token, a user name and password, or a token that a Keycloak
server hands out. The configuration is read from `config.yaml`, with variables of the
environment put in, and is read again on a hangup signal.

`src/` is the library. It decides when a cached token is still good, what a token request says,
which route is checked next and with which credentials, what is counted and recorded, when a
configuration is loaded and published, and when a scraper is cancelled and another takes its
place. Each function states what it does in a contract that Verus proves, and the `law_*`
functions state what holds of the library as a whole. A token is taken from the cache as long as
it is valid for at least one second.

- `time`: points in time, on top of `chrono`
- `string_map`: a map with string keys
- `text`: joining and splitting at colons
- `keycloak_client`: the token cache and the requests for tokens
- `auth`: how a request is authenticated
- `config`, `hot_reload`: the stages of loading a configuration, and when it is loaded
- `scraper`, `supervisor`: the rounds over the routes, and what a new configuration does to them
- `metrics`: which metrics there are, and how they are served

`app/` is the server around it: files, signals, HTTP and the Prometheus registry.
