# redisson-rs

A reentrant distributed lock on Redis, with
its logic verified by Verus.

- `src/` is the verified library: key and channel naming (`redisson_base_lock`,
  `redisson_lock`, with Redis Cluster hash tags in `hash_tag`), the Lua
  scripts, their calls and the meaning of their replies (`redisson_lock`), a
  model of what the scripts do to a lock in Redis, written from their text,
  and its laws (`lock_script_model`; nothing ties the model to the script
  text mechanically),
  the decisions of an attempt to take the lock (`lock_attempt`), the
  watchdog's registry (`renewal`), the batch queue and command arguments
  (`command`), configuration and retry delays (`config`), and the shared
  services (`connection`). `outside` holds the calls into uuid and tokio.
- `app/` connects the library to Redis through fred: the pool, Pub/Sub,
  the watchdog's timer, and the async `RLock` API.
- `tests/` runs the library on concrete values.
