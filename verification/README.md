# tsyncp

Synchronization primitives over TCP (channels, mpsc, broadcast, barrier)
whose logic is verified with Verus.

- `src/` is the verified library: the varied-length frame codec, the pool
  of framed connections with its round-robin receiving and its collection
  of failed connections, the bounded queues shared by split listeners, the
  channels and their halves, the counts of the accepting futures, the steps
  of the sending futures, the builders' configurations and the errors.
  Calls into `bytes` and `std` go through small trusted wrappers whose
  contracts are stated next to them.
- `app/` is the network side: sockets and listeners, the `tokio_util`
  codec adapter, the serde, bincode, prost and rkyv codecs, and the async
  drivers that poll the connections and hand each outcome to the library.
- `tests/` runs the library on concrete values.
