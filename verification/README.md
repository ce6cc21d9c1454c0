# kasou

Configuration, addressing and lease-lookup core for macOS
Virtualization.framework virtual machines, written in Verus.

- `src/` — the verified library: configuration types and their validation,
  the fluent builder, MAC address parsing/formatting/generation, DHCP lease
  parsing and lookup, error texts, lifecycle states, and the decisions taken
  when the framework configuration is assembled. Every public function that
  returns a value has a contract stating it (`VmEventBus::emit` and
  `state_changed` only send on the event channel, whose contents are not
  modelled); laws (MAC text round trip, builder order independence, lease
  lookup picking the most recent match, ...) are proof functions.
- `app/` — the unverified host glue: Virtualization.framework objects (macOS
  only), the VM handle and delegate, file and environment access, and
  serde/thiserror copies of the data types.
- `tests/` — behaviour tests run against the compiled library.
