pub mod http_event_service;
pub mod ids;
pub mod order_compensation;
