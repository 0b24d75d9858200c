# render_queue

A queue of video rendering jobs. Rows wait in line, the first ready one is rendered, and when its
renderer is done or has given up the next one follows. The queue can be paused, stopped and
resumed; a pause does not count as rendering time.

- `src/` is the library. `model.rs` says what every operation makes of the queue, as a
  mathematical value; `queue.rs` carries the operations out; `laws.rs` states what holds of the
  queue as a whole. What has to happen outside is handed back as a list of effects
  (`effect.rs`), and loading a file is a sequence of events and actions (`loading.rs`).
- `tests/` runs the library on concrete values.
- `app/` holds threads, JSON, floating point and the user interface.
