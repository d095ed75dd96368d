# channel_broker

A registry of channels keyed by marker types that implement `ChannelDef`,
with four families of channels: unbounded and bounded `std::sync::mpsc`
channels, and Tokio broadcast and watch channels.

Layout:

- `src/registry.rs`: `TypeRegistry<V>`, a map from `TypeId` to values with
  distinct keys, verified against a `Map` view.
- `src/lib.rs`: `ChannelBroker`, one registry per `Family`, with its keyed
  core (`register`, `entry`, `entry_mut`) and the view `entries(family)`.
- `src/std_channels.rs`, `src/tokio_channels.rs`: the channel types and the
  typed broker methods (`add_channel`, `channel_maybe`, ...).
- `src/mpsc_pair.rs`, `src/tokio_pair.rs`: the two halves of each channel,
  opened together by trusted calls and never separated, and the trusted
  calls on them.
- `src/erased.rs`: type erasure of channels and type keys (trusted calls
  into `std::any`).
- `src/laws.rs`: proved laws of registration and lookup.
- `app/lib.rs`: the accessors that panic when a channel is missing, and the
  async wait on a watch channel.
