# scx_horoscope

An astrological CPU scheduler's decision logic, written in Verus: the aspects between
planets, the natal charts of processes, completion-time horoscopes for task types, the
system's daily horoscope, and the time slices that the dispatch loop hands out.

## Layout

- `src/planets.rs`, `src/tasks.rs`: planets, signs (12- and 13-sign zodiacs), elements,
  moon phases, task types and their ruling planets.
- `src/aspects.rs`: detection of aspects, per-planet views, the combined scheduling
  modifier and the aspect descriptions, with their laws (symmetry, closest match,
  strength, clamping).
- `src/birth_chart.rs`: natal charts, element compatibility, and the registry that caches
  charts and evicts those of dead processes.
- `src/proc_stat.rs`: the start time in `/proc/<pid>/stat` and the birth instant it gives.
- `src/predictions.rs`, `src/forecast.rs`: horoscope predictions, duration and star
  rendering, word wrapping, the daily forecast texts and the system's daily horoscope.
- `src/priority.rs`: a task's priority (base × planetary influence × element boost) and
  retrograde detection from the day-to-day change of longitude.
- `src/dispatch.rs`: the per-task dispatch decision (CPU fallback and time slice), the
  main loop's step from state and event to next state and action, the startup reports and
  the decoding of a task's command name.
- `src/bignum.rs`: natural numbers of any size in 64-bit limbs, which carry the combined
  aspect modifier's product exactly.
- `src/time.rs`: UTC instants and the calendar facts read through chrono.
- `src/text.rs`: decimal rendering, padding, whitespace splitting and joining.
- `app/`: the command line, logging, the reads of `/proc`, and the main loop that performs
  what `dispatch::loop_step` decides.

## Units

Quantities that are fractional are held as integers in fixed point:

- angles (longitudes, separations, orbs) in thousandths of a degree;
- ratios (aspect strengths, scheduling modifiers, compatibilities, confidences) in parts
  per million, so 1.4 is `1_400_000`; the combined aspect modifier is computed exactly and
  rounded down once, at the end;
- instants as seconds since the Unix epoch plus nanoseconds.
