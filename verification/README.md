# silver_network

The peer-to-peer networking layer of SilverBitcoin, as a Verus-verified library.

- `src/` is the library. Every decision of the network layer lives here with a
  contract that Verus proves: error classification and texts, exponential backoff
  with jitter, rate limiting and per-peer recovery, error logging and metrics,
  gossip subscriptions with message deduplication and a bounded cache, Kademlia
  query bookkeeping with providers listed in a canonical order, the mining pool's
  work and share accounting, and the validator peer table with its connection,
  retry and broadcast accounting. Calls into `sha2`, `libp2p`, `dashmap` and the
  clock stand behind small trusted items whose contracts say what the outside code
  does.
- `app/` is the I/O around it: bincode encoding of messages, the tokio sockets of
  the validator network, the conversion of libp2p's Kademlia results, logging
  through `tracing`, and the rates that are floating-point numbers.
- `tests/` runs the library on concrete values.

Durations inside the library are whole milliseconds, or nanoseconds on a
monotonic clock where messages are ordered by age; peers and queries of the DHT
are named by the bytes of their peer IDs and by their query numbers.
