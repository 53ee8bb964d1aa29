# minixrs

The servers, host tools and user programs of a small message-passing operating
system, as a verified library.

| Module | What it holds |
|---|---|
| `abi` | Numbers and layouts every process shares: endpoints, errors, calls, messages, grants, the root image's geometry |
| `bytes`, `text`, `table` | Little-endian fields, text and numerals, searches over tables |
| `rt` | What every server builds on: payload fields, message classification, startup, the debug channel, grants, driver requests, batteries of requests that must be refused |
| `ds`, `sched`, `rs`, `vm`, `pm`, `vfs` | The name directory, the scheduler, the heartbeat monitor, the memory server, the process manager, the file server |
| `mfs`, `mkfs` | The filesystem's on-disk format, the builder of the root image, and the reader that gets the files back |
| `headers` | The C headers that describe the ABI, and the parser that reads their macros back |
| `user` | The first process and the programs it runs |

A server that talks to others is a step machine: a function says which message to
send next, and another takes the answer. `app/` runs the machines over a pair of
byte streams and does the file I/O of the tools. `tests/` runs the library on
concrete values.

Public proof functions named `law_...` state what holds of several functions
together: that what was written is read back, that ids are not confused, that a
failed fork leaves nothing behind.
