# swarm_app

The rules of a real time fleet game against an alien swarm, written in Verus
and proved against their contracts: the bank and what a price takes out of
it, the yard and the wing it may not overfill, a run across the map and what
carries from one system to the next, the reactor rule a ship dies by and the
salvage of its wreck, the refit shelf, the orders and stances, the verdict on
a scene, the frame cap, and the command line.

- `src/` is the verified library. `src/laws.rs` holds the properties that
  relate several calls to one another, each as a proof function.
- `tests/` runs the library on concrete values.
- `app/` is the command line binary: it reads the arguments, settles what
  they describe with the library, and reports it. Fractions (camera angles,
  delays, points in space) are read there, since the library holds no
  floating point.
