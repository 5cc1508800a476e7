# diamond_explorer

The decision logic of an explorer for the planets-and-orchestrator space game
built on `common_game`: the explorer wanders from planet to planet, depth
first, gathering carbon until a planet can combine two carbons into a diamond.

- `src/kinds.rs`: the resource kinds and the outcomes of a run.
- `src/messages.rs`: the answers of planets and of the orchestrator, as plain
  values, and how the explorer reads each of them.
- `src/machine.rs`: the explorer's state and its AI as a verified state
  machine (`explorer_ai_begin`, `explorer_ai_step`), specified by `transition`.
- `src/laws.rs`: properties of the machine proved over `transition`.
- `app/lib.rs`: the explorer the game runs: it owns the bag and the channels,
  performs each action the machine returns and feeds back what came of it.
