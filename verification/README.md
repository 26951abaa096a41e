# atomcode_coding

The control plane of a coding runtime: the rules by which one owner drives a replaceable
kernel agent, and what surrounds them. The library is written in Verus: its
functions carry contracts, and the contracts are proved.

- `src/owner/` is the owner of the agent. Each method takes one thing that happened, updates
  plain state and appends what is to be done to an outbox. `controls`, `goals`, `events`,
  `stopping`, `management` and `reconfigure` hold the operations; `laws`, `turn_law`,
  `provider_law` and `compaction_laws` state what holds across them.
- `src/control.rs`, `phase.rs`, `mode.rs`, `error.rs`, `event.rs` are the vocabulary of
  drivers: commands, the packed status, modes, errors and events.
- `src/undo.rs`, `rewind.rs`, `reprepare.rs`, `start.rs`, `compaction.rs`,
  `goal_evaluator.rs` decide undoing, rewinding, preparing, starting and compacting.
- `src/session_runtime_registry.rs` keeps the live sessions and their journals.
- `src/session_title.rs`, `skill_first.rs`, `todo.rs`, `reminder.rs`, `telemetry.rs`,
  `subagent_tiers.rs` hold titles, reminders, records and routing.
- `src/path.rs` compares paths as std does, and says what that means of plain ones.
- `src/text.rs` has the text functions. What is trusted of std stands there and in
  `src/path.rs`.

`app/` is the asynchronous shell: channels, tasks, timers and the seams for a kernel, a
session store and providers. `tests/` runs the library on concrete values.
