# runtime_client

The client boundary of a conversation runtime, verified with Verus.

A runtime reports what happens in a conversation. This library folds the reports into a
read model, publishes them as a bounded stream of events under monotone cursors, serves
snapshots and subscriptions, admits clients, and turns their requests into answers or
into calls of the runtime. It also derives, from the durable journal, which messages
close a response, what the response used and how long it took.

## Layout

- `src/` is the library; every function in it is verified.
  - vocabulary: `identity`, `message`, `tool`, `model`, `interaction`, `publication`,
    `journal`, `observation`, `event`, `snapshot`, `protocol`, `session_deletion`
  - read model: `views`, `lists`, `attempt`, `fold`, `bootstrap`
  - stream: `projection`, `wake`
  - clients: `host`, `attachment`, `endpoint`, `control`
  - responses: `store`, `memory`, `timing`, `evidence`, `response`
  - groundwork: `search`, `share`, `text`, `clock`, `json`
  - laws: `fold_laws`, `projection_laws`, `host_laws`, `timing_laws`, `response_laws`,
    `page_laws`
- `app/` is the asynchronous shell: the lock around the host, the task that applies
  reports, waiting consumers, handles that release what they hold when dropped, and the
  wire forms.
- `tests/` runs the library on concrete conversations.

## What is believed without proof

A few functions of other crates and of the standard library, each behind an item with its
contract: `Arc::clone` (`share`), `Notify::new` and `Notify::notify_one` of `tokio`
(`wake`), the distance of two points in time of `chrono` (`clock`), and the compact text
of a JSON document of `serde_json` (`json`).
