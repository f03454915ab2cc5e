# todos

A to-do list service and its web front end.

- `src/` is the verified library:
  - `model.rs`: the task records;
  - `number.rs`: reading and writing `i32` decimal text, with the proof that
    reading back a written number gives the number;
  - `json.rs`: the JSON request bodies (string escaping comes from `serde_json`);
  - `service.rs`: the rows a request inserts or changes, and the status code
    that answers each outcome;
  - `editor.rs`: the task card and the new-task form as state machines that
    take page events and give back the request to send;
  - `card.rs`: the badge and progress-bar text of a task card.
- `app/` is the HTTP server (axum, diesel-async on MySQL) and the yew front
  end, which read requests, talk to the database and the browser, and call
  the library for every decision.
- `tests/` runs the library on concrete values.
