# order_events

The event handling of the order service, as a Verus-verified library.

- `src/event/http_event_service.rs`: the Dapr topic subscriptions, the event
  data types, and for each event endpoint the decision it makes: which
  database write an event asks for, or `500` for a topic the endpoint does
  not serve, and the answer once the write is over. Proof functions state
  that every subscription reaches a handler that accepts its topic, that no
  topic is subscribed twice and that no two handlers share a topic.
- `src/event/order_compensation.rs`: the compensation of a failed shipment as
  a state machine. `compensate_order` begins it; `CompensationProcess::advance`
  takes the outcome of each piece of outside work (validating the order,
  looking up existing compensations, fetching the order, inserting and
  publishing the record) and answers with the next. The amount to compensate
  is the sum of the compensatable amounts of the listed items. Proof
  functions state that a record is inserted only after the checks, carries
  the right amount, and is the record that is published.
- `src/event/ids.rs`: UUIDs as 128-bit numbers.
- `app/`: the axum handlers, MongoDB and HTTP work that drive the library.
