# amqp_link_state

Link flow control of an AMQP 1.0 endpoint, verified with Verus.

- `src/state.rs`: the flow state of one end of a link, and what flows and
  deliveries make of it
- `src/flow_state.rs`: that state shared behind a lock, for senders and receivers
- `src/consumer.rs`: spending a sender's credit
- `src/delivery_tag.rs`: the tags of deliveries
- `src/lock.rs`, `src/definitions.rs`: what is taken from other crates
- `src/laws.rs`: what holds of links as a whole
- `app/`: the asynchronous producer and consumer, and the tag slot of a thread
