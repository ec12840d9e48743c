# plato_agent

The logic of the Plato agent: runs of a model with tools under a policy, the daemon that serves a
workspace, the Discord gateway in front of it, and the command line. It is written in Rust and
proved with Verus: every function states what it returns or changes, and the laws that relate
several of them stand beside them as public proof functions.

- `src/app`: what a run is given (`setup`), a run as a state machine (`run`), its laws (`run_laws`),
  the policy on tool calls, the conversation of a session, the tool output as the model sees it.
- `src/daemon`: the protocol and its two sides (`client`, `handlers`), the runs that the daemon keeps
  (`runtime`, `events`), transcripts, and the lock of a workspace.
- `src/discord_gateway`: what is taken from a channel (`input`, `commands`), the connection to the
  gateway (`receiver`), the work on one message (`message`, `run_wait`, `approvals`,
  `presentation`) and on one command (`command_work`), and requests under the service's limits
  (`rest`, `delivery`).
- `src/cli`: what a command line comes to, and a prompt that the daemon answers.
- `src/config.rs`, `src/tool_catalog.rs`, `src/error.rs`, `src/text.rs`, `src/json.rs`: what the rest
  is built on.
- `app`: the program around the library. It reads and writes files and sockets, and performs what the
  library's machines ask for. Under the name `plato-gateway-discord` it is the Discord gateway.

Time is counted in nanoseconds. Numbers that are fractions stay outside the library or are carried
as the bits of a binary64 number.
