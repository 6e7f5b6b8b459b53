# test_command

Captures the standard output and standard error of a child process.

`src/` is the library, verified with Verus: what a child is started with, which
of its streams to read next, and what each finished read does to the output
collected so far. `src/model.rs` holds the mathematical model, `src/laws.rs` what
holds of a capture as a whole, and `src/buffer.rs` the contracts of the `bytes`
buffers that the library relies on. `tests/` holds its tests.

`app/` is ordinary Rust around it: it starts the processes, makes the pipes and
waits for the reads with Tokio.
