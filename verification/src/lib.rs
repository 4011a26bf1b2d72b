pub mod numbers;
pub mod html;
pub mod services;
pub mod extensions;
pub mod request;
pub mod minimal_author;
pub mod amqp_settings;
pub mod event_bus;
pub mod router;
