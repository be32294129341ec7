# chronos

The verified core of Chronos, the kernel of an agent operating system.

- `src/` is the library, verified with Verus: agents and their lifecycle,
  budgets (costs in micro-dollars), checkpoints, identities, missions, the
  tool registry, the built-in tools' decisions, the model-provider rules,
  and the decisions of the cognitive loop, the shadow audit, mission
  planning, request handling and the monitor's key bindings. Laws about
  these stand beside them as proof functions named `law_*`.
- `tests/` exercises the library on concrete values.
- `app/` is the daemon around it: SQLite storage (sqlx), HTTP model calls
  (reqwest), file and process I/O for the tools (tokio), the background
  loops, and a command line that drives the kernel's handlers.
