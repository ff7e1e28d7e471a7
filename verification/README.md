# codex-scheduling

Scheduling for agent sessions: cron jobs, background monitors and
model-paced loops, proved with Verus.

- `src/` is the verified library. Each public function states in its
  contract what it returns or changes; the laws that relate several
  functions are public proof functions (`law_*`).
  - `task`, `timestamp`: task ids, statuses, UTC instants, and the calls
    into `chrono`, `uuid` and `cron` behind trusted wrappers.
  - `table`, `registry`, `loop_registry`, `monitor_registry`: the
    registries, at most one task per id, in insertion order.
  - `cron_job`, `loop_task`, `monitor`: the tasks and how they are made.
  - `os_cron`, `paths`: the crontab block format (writing, reading back,
    removing) and the file layout beside it.
  - `cron_tools`, `loop_tools`, `monitor_tools`, `tools`, `tool_specs`:
    what each scheduling tool decides and answers, and its definition
    for the model.
  - `persist`, `protocol`, `view`: the snapshot, the client messages and
    the `/scheduling` panel's state and text.
  - `text`, `text_lemmas`: text functions with their specifications and
    the facts about them the proofs use.
- `tests/` runs the library on concrete values.
- `app/` is the host side: the snapshot file (serde), the user's crontab
  and its files, the tokio tasks that run monitors, loops and the
  session's cron ticker, and the panel's clock.
