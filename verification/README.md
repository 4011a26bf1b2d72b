# blog_server

The verified core of a blog server's API and services layer.

- `src/numbers.rs`: decimal reading and writing of unsigned 64-bit numbers.
- `src/request.rs`: request parameters and the author-list request content.
- `src/services.rs`, `src/extensions.rs`: the service interfaces and the provider
  that creates each service once and hands out shared instances.
- `src/minimal_author.rs`: the decisions of the minimal author update.
- `src/router.rs`: the routing table and the not-found answers.
- `src/amqp_settings.rs`: reading the broker's connection string (amqprs) into
  connection settings, and which strings the reader returns on.
- `src/event_bus.rs`: the message bus: setup and connection steps, payloads and
  publication outcomes.
- `src/html.rs`: HTML sanitizing of article bodies (ammonia) and plain-text
  rendering (html2text).
- `app/`: the I/O around it: broker connection (amqprs), HTTP fallback (hyper),
  the handler's awaits.
