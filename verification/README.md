# slo_stages

The stages of a probe that measures a fleet by walking it as a person would: it signs in, pushes,
merges, builds, stops and restores, and it reports each thing it was owed under the id of a service
level objective.

`src/` is the library, verified with Verus. It performs nothing. A step's body is a function from the
replies it has had so far to what it does next: it asks for one more thing, or it is over. A journey is
a function from the outcomes of its moves so far to its next move: report a skip, run a step and report
it, look something up, or end. So what is asked, in what order, what an answer means, what is undone and
what is reported can all be stated and proved.

- `text`, `json`, `quantity`: texts, documents and quantities.
- `wire`, `reply`: what is asked, what comes back, and how a reply is read.
- `want`, `probes`, `wait`: what is waited for, and when a wait gives up.
- `turn`, `run`, `cluster`: journeys, what a run is given and has learned, and cluster objects.
- `outside`: the outside functions the stages compute with, each behind one trusted wrapper.
- `stages`: the journeys. Each file begins with what its bodies ask, goes on with the bodies, and ends
  with the journeys and the laws they keep: that every id is reported exactly once, that what was changed
  is put back, that a refusal is the only thing that passes for one.

`app/` is the driver: it performs the asks, keeps the time, and hands what one stage has learned to the
next. What only the platform's own crates know is behind its trait `Platform`.

`tests/` runs the library against fleets that are a closure.
