# quickwit

The decisions of an indexing service as a verified library, and the service's I/O around it.

- `src/metastore`: a metastore that keeps one manifest per index and changes only once the
  manifest is written. `model.rs` says what each operation amounts to, `laws.rs` what holds of
  all of them together.
- `src/kinesis`: the consumer of one shard of a Kinesis stream, as a state machine, with its
  laws.
- `src/pipeline.rs`: how the actors of an indexing pipeline are started: in which order, and what each
  is given.
- `src/config.rs`, `src/source.rs`: the configuration of an index, and sources of documents.
- `src/json.rs`: the few calls into `serde_json` that the library relies on.
- `app`: the metastore over a storage, the shard consumer over the Kinesis API, the startup of a
  pipeline over an actor system, and configuration files. Storages and the actor system are
  traits that other crates implement.
