# becky

Building blocks for compute orchestrators. An effect is something that runs
under an orchestrator: a system command, a Rust function in a worker process, a
Docker container or a QEMU virtual machine. This crate holds the decisions that
a provider of such effects makes, with contracts that Verus proves.

## Layout

- `src/fx_id.rs`: identifiers of effects.
- `src/engine/`: states, storage requests, machine descriptions, exit codes.
- `src/system_command.rs`: system commands: identity, launch, pid files, start.
- `src/rust_fn.rs`: the registry of functions, and the life of a worker.
- `src/docker.rs`, `src/docker/size.rs`: containers, their commands, their
  watch, and the sizes that Docker prints.
- `src/qemu/`: virtual machines: options, command lines, storage, records, the
  watch over a machine, and the manager of a host.
- `src/text.rs`, `src/number.rs`, `src/path.rs`, `src/bignat.rs`,
  `src/io_error.rs`, `src/utils.rs`: what the others are made of.
- `tests/`: scenarios on concrete values.
- `app/`: ordinary Rust around the library: processes, files, sockets and
  metadata stores.

## Decisions and actions

Where an operation alternates between decisions and work outside the program,
the library holds a value for the operation in progress. Its phase says what is
to be done next; the caller does it and hands the answer to `advance`. The
contract of `advance` says exactly which phase follows, and the proof functions
named `law_*` say what holds of every run.

## What is trusted

Calls into `uuid`, `qemu-command-builder` and a few functions of the standard
library stand behind small functions whose contracts are believed. Each says in
its documentation what it claims.
