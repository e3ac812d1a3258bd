# codex_agent_loop

The verified steps of an agent loop over an agent thread, written in Verus:
each decision of the loop is proved; the loop itself, which awaits the
thread, runs unverified in `app/`.

- `src/` is the verified library:
  - `protocol.rs`: the operations submitted to a thread and the events read back;
  - `turn.rs`: the handling of a turn's events (`TurnState::handle_event`), with
    laws on how the collected reply evolves;
  - `adapters.rs`: the event filter and the operation builder;
  - `builder.rs`: the agent's settings (`AgentBuilder`), its authentication plan
    and configuration overrides, with laws on the authentication settings;
  - `workspace.rs`: how the workspace follows from the settings and the
    configuration file;
  - `session.rs`: what a line typed in an interactive session asks for;
  - `laws.rs`: laws relating the event filter, the turn handling and the
    operation builder.
- `app/` runs the asynchronous loop against a Codex thread, reads the terminal
  and the file system, and hands each decision to the library.
- `tests/` exercise the library on concrete values.
