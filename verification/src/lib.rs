//! Verified decision logic of the order service's event handling: the Dapr
//! subscriptions it declares, how each incoming event is routed to a database
//! write, and the order compensation that follows a failed shipment.

pub mod event;
