# rustcode

A terminal coding assistant: it talks to an OpenAI-compatible or
Anthropic-compatible model endpoint, runs tools under a permission policy,
keeps sessions on disk, and can hand work to sub-agents.

## Layout

- `src/` is the library, written in Verus. Every function in it carries a
  contract that Verus proves: settings and their merging, permission rules,
  the slash-command registry and parsing, session transcripts and their
  lineage, history compaction, the streaming decoders for both wire
  formats, the turn state machine of the query loop, sub-agent briefing
  and task life cycle, file-history rewind plans, the panels' state, the
  onboarding dialogue (primary target, fallback chain, save), settings
  profiles, and the system prompt.
  Laws that relate several operations stand as public proof functions
  named `law_*`.
- A handful of calls into outside crates (`uuid`, `chrono`, `dirs`,
  `serde_json`, `which`) sit behind small trusted wrappers, each with a
  doc comment that says what its contract claims.
- `app/` is the program around the library: argument handling, files,
  the network transport, and the read-eval loop. It performs the actions
  the library decides on and hands results back to it.
- `tests/` exercises the library on concrete values.
