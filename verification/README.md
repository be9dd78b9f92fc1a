# scheduler

A scheduler for recurring jobs whose rules are proved with Verus: when a job
runs next, what becomes of runs that were missed, what happens when runs would
overlap, how state is repaired and shared, and how leases are renewed and lost.

- `src/` is the library. It computes on plain values and performs no I/O. Every
  function states its result, and every `law_` function states a property that
  relates several of them.
  - `time`, `zone` and `timestamp`: instants, spans and local time. Zone rules
    and RFC 3339 texts come from `chrono` and `chrono-tz`.
  - `model`: jobs, schedules, time windows and the state of a job. Cron
    expressions come from `cron`.
  - `scheduler`: next runs, missed runs, overlap, and `scheduler::runtime`, the
    loop that runs a job, as a machine that is told what happened and answers
    what is to be done.
  - `store`: the in-memory store, and the mirror that stands in for a store that
    cannot be reached.
  - `valkey_*`: keys, fields, script arguments, retries and outcomes of the
    stores and leases that are kept in Valkey.
- `app/` is the asynchronous part: it awaits tasks, stores, timers and Valkey,
  and asks the library what follows.
- `tests/` runs the library on concrete values.
