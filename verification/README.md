# serving-agent

The decisions of a language-model server for Ascend accelerators, as a library
whose behaviour is stated in contracts and proved with Verus.

- `src/ops`, `src/launch.rs`: operators of the accelerator. An operator runs in
  two stages with scratch memory in between; `Launch` is the state machine of
  those calls, `src/launch_laws.rs` states what holds of every run of it.
- `src/stream.rs`, `src/tensor.rs`, `src/error.rs`: handles and status codes.
- `src/startup`: the server process from its command line to serving. `plan` is
  its state machine, `laws` states what holds of every start-up.
- `src/text.rs`: C strings and decimal integers.
- `app`: the process around the library. It makes the calls that the library
  decides on: into the accelerator's C libraries, and to files, environment and
  sockets. The model, engine, tokenizer and HTTP interface are what implements
  `process::ServingStack`.
