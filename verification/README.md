# req_it_gui

A desktop client for WebSocket servers and GraphQL endpoints.

- `src/` is the verified library. The actors that talk to servers are state
  machines there: each step takes the actor's state and one event (a message,
  a frame read, the outcome of a write or a connection attempt, a timeout) and
  returns the next state and the actions to perform, with contracts over their
  views. The library also holds the frame type and its conversions, the text
  the read pipeline shows for frames, the WebSocket tab's model (status,
  controls, message list), and the GraphQL request planning.
- `app/` is the program around it: the GTK window and tabs, which show the
  tab model, and the tokio tasks that wait for what each machine waits for,
  perform its actions (connecting, reading and writing frames, sending on
  channels) and hand back the outcomes.
- `tests/` runs the library on concrete values.
