# atac (MQTT requests)

The MQTT side of the ATAC terminal API client, with its logic proved by Verus.

- `src/` is the verified library. Each public function states in `ensures` what it returns
  or changes, over spec functions on `Seq`, `Option` and plain values:
  - `prepare`: turning a request into the settings of a broker connection (URL, TLS,
    credentials, client ID, keep alive, packet size, subscriptions, environment variables);
  - `publish`: the packet size check against the request's and the broker's limits, and the
    commands handed to the connection task;
  - `client`: what a connection attempt answers, how the broker's events are logged, when a
    connection ends;
  - `param_tabs`, `mqtt_form`, `messages`: the tabs, forms, subscriptions table and messages
    of the terminal interface, as state changes and queued effects;
  - `cli`: building a request from the `request new` command line arguments;
  - `payload`, `text`: payload encodings and the text helpers, stated over `Seq<char>`.
- `app/` holds what only runs around the library: the rumqttc client and event loop, TLS
  configuration, the tokio tasks, clap and serde types, and the ratatui rendering.
- `tests/` exercises the library on concrete values.
