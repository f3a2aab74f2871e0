# kafka_top

A terminal monitor for a Kafka cluster: a dashboard of brokers, a topic list, a
consumer group list, and detail screens with per-partition offsets, lag and rates.

- `src/` is the verified library: the navigation state machine (`app`), the fetch
  protocol between the monitor and the cluster (`fetch`), rate measurement (`rates`),
  what is computed from cluster replies (`cluster`), the rdkafka client configuration
  and offset query (`client`), text formatting (`text`), the screen models (`ui`),
  and the laws proved of them (`laws`).
- `app/` is the program around it: command-line parsing, the terminal, the event
  stream, the rdkafka calls, and drawing with ratatui.
